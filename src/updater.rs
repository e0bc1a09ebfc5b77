use vstd::prelude::*;
use vstd::string::StringExecFns;
use crate::lookup::{lookup_view, record_id_from_response};
use crate::model::{Config, Credentials, CredentialsView, DnsError, ErrorView, ListResponse};
use crate::plan::{plan_targets, targets_of, targets_view, Target, TargetView};
use crate::request::{
    ip_request,
    ip_request_view,
    list_request,
    list_request_view,
    patch_request,
    patch_request_view,
    Request,
    RequestView,
};
use crate::text::{ip_from_body, trimmed};

verus! {

/// Seconds to wait between two polls of the public address.
pub const POLL_SECS: u64 = 300;

/// Where the updater stands, and what it waits for.
#[derive(Clone, Copy, Debug, PartialEq, Eq, Structural)]
pub enum Phase {
    /// Waiting for the first address.
    Starting,
    /// Waiting for the record list of the zone of this target.
    Listing(usize),
    /// Waiting for the outcome of the update of this target.
    Patching(usize),
    /// Waiting for the pause between two polls to end.
    Sleeping,
    /// Waiting for the address of a poll.
    Polling,
    /// Stopped by an error; nothing more is done.
    Stopped,
}

/// The outcome of the last action, handed back to the updater.
pub enum Event {
    /// The body of the IP-echo response, or why there is none.
    IpFetched(Result<String, DnsError>),
    /// The record list of a zone, or why there is none.
    RecordsListed(Result<ListResponse, DnsError>),
    /// Whether the update of a record went through.
    RecordPatched(Result<(), DnsError>),
    /// The pause between two polls is over.
    Woke,
}

/// What the caller is to do next.
pub enum Action {
    /// Send this request to the IP-echo service; hand back its body.
    FetchIp(Request),
    /// Send this request for the record list of the zone of `target`.
    List { target: usize, request: Request },
    /// Send this request, which updates `target`.
    Patch { target: usize, request: Request },
    /// Wait this many seconds.
    Sleep(u64),
    /// Stop: the address could not be had.
    Abort(DnsError),
    /// Stop: this record of this zone could not be updated.
    AbortRecord { zone_name: String, record_name: String, error: DnsError },
}

pub enum ActionView {
    FetchIp(RequestView),
    List { target: int, request: RequestView },
    Patch { target: int, request: RequestView },
    Sleep(u64),
    Abort(ErrorView),
    AbortRecord { zone_name: Seq<char>, record_name: Seq<char>, error: ErrorView },
}

impl View for Action {
    type V = ActionView;

    open spec fn view(&self) -> ActionView {
        match self {
            Action::FetchIp(q) => ActionView::FetchIp(q@),
            Action::List { target, request } => ActionView::List {
                target: *target as int,
                request: request@,
            },
            Action::Patch { target, request } => ActionView::Patch {
                target: *target as int,
                request: request@,
            },
            Action::Sleep(s) => ActionView::Sleep(*s),
            Action::Abort(e) => ActionView::Abort(e@),
            Action::AbortRecord { zone_name, record_name, error } => ActionView::AbortRecord {
                zone_name: zone_name@,
                record_name: record_name@,
                error: error@,
            },
        }
    }
}

/// The updater: the credentials, the records to keep up to date in the order
/// they are updated, the last address seen, and the phase.
pub struct Updater {
    creds: Credentials,
    targets: Vec<Target>,
    current_ip: String,
    phase: Phase,
}

pub struct UpdaterView {
    pub creds: CredentialsView,
    pub targets: Seq<TargetView>,
    pub ip: Seq<char>,
    pub phase: Phase,
}

impl View for Updater {
    type V = UpdaterView;

    closed spec fn view(&self) -> UpdaterView {
        UpdaterView {
            creds: self.creds@,
            targets: targets_view(self.targets@),
            ip: self.current_ip@,
            phase: self.phase,
        }
    }
}

impl UpdaterView {
    /// A phase that names a target names one that exists.
    pub open spec fn wf(self) -> bool {
        match self.phase {
            Phase::Listing(k) => k < self.targets.len(),
            Phase::Patching(k) => k < self.targets.len(),
            _ => true,
        }
    }

    pub open spec fn with_phase(self, p: Phase) -> UpdaterView {
        UpdaterView { creds: self.creds, targets: self.targets, ip: self.ip, phase: p }
    }

    pub open spec fn with_ip(self, ip: Seq<char>) -> UpdaterView {
        UpdaterView { creds: self.creds, targets: self.targets, ip, phase: self.phase }
    }
}

/// The updater made from a configuration, before the first address is known.
pub open spec fn initial_view(c: Config) -> UpdaterView {
    UpdaterView {
        creds: CredentialsView {
            email: c.email@,
            auth_key: c.auth_key@,
            authorization: c.authorization@,
        },
        targets: targets_of(c.zones@),
        ip: Seq::empty(),
        phase: Phase::Starting,
    }
}

/// Whether the updater, in phase `p`, waits for the event `e`.
pub open spec fn awaits(p: Phase, e: Event) -> bool {
    match p {
        Phase::Starting => e is IpFetched,
        Phase::Polling => e is IpFetched,
        Phase::Listing(_) => e is RecordsListed,
        Phase::Patching(_) => e is RecordPatched,
        Phase::Sleeping => e is Woke,
        Phase::Stopped => false,
    }
}

/// The target that a phase names.
pub open spec fn phase_target(p: Phase) -> int {
    match p {
        Phase::Listing(k) => k as int,
        Phase::Patching(k) => k as int,
        _ => 0,
    }
}

/// The start of a pass over all targets: list the first one's zone, or sleep
/// when there is none.
pub open spec fn begin_pass(m: UpdaterView) -> (UpdaterView, ActionView) {
    if m.targets.len() == 0 {
        (m.with_phase(Phase::Sleeping), ActionView::Sleep(POLL_SECS))
    } else {
        (
            m.with_phase(Phase::Listing(0)),
            ActionView::List { target: 0, request: list_request_view(m.creds, m.targets[0].zone_id) },
        )
    }
}

/// Stop on a failure of target `k`, naming its zone and record.
pub open spec fn fail_target(m: UpdaterView, k: int, e: ErrorView) -> (UpdaterView, ActionView) {
    (
        m.with_phase(Phase::Stopped),
        ActionView::AbortRecord {
            zone_name: m.targets[k].zone_name,
            record_name: m.targets[k].record_name,
            error: e,
        },
    )
}

/// The update request for target `k` once its id is known.
pub open spec fn patch_view(m: UpdaterView, k: int, id: Seq<char>) -> ActionView {
    ActionView::Patch {
        target: k,
        request: patch_request_view(
            m.creds,
            m.targets[k].zone_id,
            id,
            m.ip,
            m.targets[k].proxy,
        ),
    }
}

/// What follows a successful update of target `k`: the next target, or the
/// pause when `k` was the last.
pub open spec fn after_patch(m: UpdaterView, k: int) -> (UpdaterView, ActionView) {
    if k + 1 < m.targets.len() {
        (
            m.with_phase(Phase::Listing((k + 1) as usize)),
            ActionView::List {
                target: k + 1,
                request: list_request_view(m.creds, m.targets[k + 1].zone_id),
            },
        )
    } else {
        (m.with_phase(Phase::Sleeping), ActionView::Sleep(POLL_SECS))
    }
}

/// The next state and action of the updater in state `m` on the event `e`.
pub open spec fn next(m: UpdaterView, e: Event) -> (UpdaterView, ActionView) {
    let k = phase_target(m.phase);
    match e {
        Event::IpFetched(Ok(body)) => {
            let ip = trimmed(body@);
            if m.phase == Phase::Polling && ip == m.ip {
                (m.with_phase(Phase::Sleeping), ActionView::Sleep(POLL_SECS))
            } else {
                begin_pass(m.with_ip(ip))
            }
        },
        Event::IpFetched(Err(err)) => (m.with_phase(Phase::Stopped), ActionView::Abort(err@)),
        Event::RecordsListed(Ok(resp)) => match lookup_view(resp, m.targets[k].record_name) {
            Ok(id) => (m.with_phase(Phase::Patching(k as usize)), patch_view(m, k, id)),
            Err(err) => fail_target(m, k, err),
        },
        Event::RecordsListed(Err(err)) => fail_target(m, k, err@),
        Event::RecordPatched(Ok(_)) => after_patch(m, k),
        Event::RecordPatched(Err(err)) => fail_target(m, k, err@),
        Event::Woke => (m.with_phase(Phase::Polling), ActionView::FetchIp(ip_request_view())),
    }
}

impl Updater {
    pub open spec fn wf(&self) -> bool {
        self@.wf()
    }

    /// An updater for the configuration. A configuration without zones, or
    /// whose zones hold no record, is refused.
    pub fn new(config: &Config) -> (r: Result<Updater, DnsError>)
        ensures
            match r {
                Ok(u) => config.zones@.len() > 0 && targets_of(config.zones@).len() > 0 && u.wf()
                    && u@ == initial_view(*config),
                Err(e) => if config.zones@.len() == 0 {
                    e@ == ErrorView::Config("No zones specified"@)
                } else {
                    targets_of(config.zones@).len() == 0 && e@ == ErrorView::Config(
                        "No records specified"@,
                    )
                },
            },
    {
        if config.zones.len() == 0 {
            return Err(DnsError::Config(String::from_str("No zones specified")));
        }
        let targets = plan_targets(&config.zones);
        if targets.len() == 0 {
            return Err(DnsError::Config(String::from_str("No records specified")));
        }
        let creds = Credentials {
            email: config.email.clone(),
            auth_key: config.auth_key.clone(),
            authorization: config.authorization.clone(),
        };
        Ok(Updater { creds, targets, current_ip: String::new(), phase: Phase::Starting })
    }

    /// The first action: ask for the address.
    pub fn first_action(&self) -> (r: Action)
        ensures
            r@ == ActionView::FetchIp(ip_request_view()),
    {
        Action::FetchIp(ip_request())
    }

    /// The last address seen.
    pub fn current_ip(&self) -> (r: &String)
        ensures
            r@ == self@.ip,
    {
        &self.current_ip
    }

    pub fn phase(&self) -> (r: Phase)
        ensures
            r == self@.phase,
    {
        self.phase
    }

    /// The records to update, in the order they are updated.
    pub fn targets(&self) -> (r: &Vec<Target>)
        ensures
            targets_view(r@) == self@.targets,
    {
        &self.targets
    }

    /// Whether the updater waits for this event.
    pub fn accepts(&self, e: &Event) -> (r: bool)
        ensures
            r == awaits(self@.phase, *e),
    {
        match self.phase {
            Phase::Starting | Phase::Polling => matches!(e, Event::IpFetched(_)),
            Phase::Listing(_) => matches!(e, Event::RecordsListed(_)),
            Phase::Patching(_) => matches!(e, Event::RecordPatched(_)),
            Phase::Sleeping => matches!(e, Event::Woke),
            Phase::Stopped => false,
        }
    }

    fn begin_pass(&mut self) -> (r: Action)
        ensures
            (final(self)@, r@) == begin_pass(old(self)@),
    {
        if self.targets.len() == 0 {
            self.phase = Phase::Sleeping;
            Action::Sleep(POLL_SECS)
        } else {
            let request = list_request(&self.creds, &self.targets[0].zone_id);
            self.phase = Phase::Listing(0);
            Action::List { target: 0, request }
        }
    }

    fn fail_target(&mut self, k: usize, error: DnsError) -> (r: Action)
        requires
            k < old(self)@.targets.len(),
        ensures
            (final(self)@, r@) == fail_target(old(self)@, k as int, error@),
    {
        let zone_name = self.targets[k].zone_name.clone();
        let record_name = self.targets[k].record_name.clone();
        self.phase = Phase::Stopped;
        Action::AbortRecord { zone_name, record_name, error }
    }

    /// Take the outcome of the last action and give the next one.
    pub fn step(&mut self, event: Event) -> (r: Action)
        requires
            old(self).wf(),
            awaits(old(self)@.phase, event),
        ensures
            final(self).wf(),
            (final(self)@, r@) == next(old(self)@, event),
    {
        match event {
            Event::IpFetched(Ok(body)) => {
                let ip = ip_from_body(body.as_str());
                if self.phase == Phase::Polling && ip == self.current_ip {
                    self.phase = Phase::Sleeping;
                    Action::Sleep(POLL_SECS)
                } else {
                    self.current_ip = ip;
                    self.begin_pass()
                }
            },
            Event::IpFetched(Err(err)) => {
                self.phase = Phase::Stopped;
                Action::Abort(err)
            },
            Event::RecordsListed(Ok(resp)) => {
                let k = match self.phase {
                    Phase::Listing(k) => k,
                    _ => 0,
                };
                match record_id_from_response(&resp, &self.targets[k].record_name) {
                    Ok(id) => {
                        let t = &self.targets[k];
                        let request = patch_request(&self.creds, &t.zone_id, &id, &self.current_ip, t.proxy);
                        self.phase = Phase::Patching(k);
                        Action::Patch { target: k, request }
                    },
                    Err(err) => self.fail_target(k, err),
                }
            },
            Event::RecordsListed(Err(err)) => {
                let k = match self.phase {
                    Phase::Listing(k) => k,
                    _ => 0,
                };
                self.fail_target(k, err)
            },
            Event::RecordPatched(Ok(())) => {
                let k = match self.phase {
                    Phase::Patching(k) => k,
                    _ => 0,
                };
                assert(self@.targets.len() == self.targets.len());
                if k + 1 < self.targets.len() {
                    let request = list_request(&self.creds, &self.targets[k + 1].zone_id);
                    self.phase = Phase::Listing(k + 1);
                    Action::List { target: k + 1, request }
                } else {
                    self.phase = Phase::Sleeping;
                    Action::Sleep(POLL_SECS)
                }
            },
            Event::RecordPatched(Err(err)) => {
                let k = match self.phase {
                    Phase::Patching(k) => k,
                    _ => 0,
                };
                self.fail_target(k, err)
            },
            Event::Woke => {
                self.phase = Phase::Polling;
                Action::FetchIp(ip_request())
            },
        }
    }
}

} // verus!
