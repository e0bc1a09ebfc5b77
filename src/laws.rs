use vstd::prelude::*;
use crate::lookup::lookup_view;
use crate::model::{strings_view, DnsError, ErrorView, ListResponse};
use crate::request::ip_request_view;
use crate::text::trimmed;
use crate::updater::{
    after_patch,
    awaits,
    next,
    patch_view,
    phase_target,
    ActionView,
    Event,
    Phase,
    UpdaterView,
    POLL_SECS,
};

verus! {

/// The state reached and the actions given when the events come one by one.
pub open spec fn run(m: UpdaterView, evs: Seq<Event>) -> (UpdaterView, Seq<ActionView>)
    decreases evs.len(),
{
    if evs.len() == 0 {
        (m, Seq::empty())
    } else {
        let first = next(m, evs[0]);
        let rest = run(first.0, evs.drop_first());
        (rest.0, seq![first.1] + rest.1)
    }
}

/// Whether each event is awaited in the state the ones before it lead to.
pub open spec fn fits(m: UpdaterView, evs: Seq<Event>) -> bool
    decreases evs.len(),
{
    evs.len() == 0 || (awaits(m.phase, evs[0]) && fits(next(m, evs[0]).0, evs.drop_first()))
}

/// When a poll finds the address the updater already has, no record is
/// touched: it asks for the address, sleeps again, and its state is as before.
pub proof fn lemma_unchanged_ip_is_idle(m: UpdaterView, body: String)
    requires
        m.phase == Phase::Sleeping,
        trimmed(body@) == m.ip,
    ensures
        ({
            let evs = seq![Event::Woke, Event::IpFetched(Ok::<String, DnsError>(body))];
            &&& fits(m, evs)
            &&& run(m, evs) == (
                m,
                seq![ActionView::FetchIp(ip_request_view()), ActionView::Sleep(POLL_SECS)],
            )
        }),
{
    let evs = seq![Event::Woke, Event::IpFetched(Ok::<String, DnsError>(body))];
    let m1 = next(m, evs[0]).0;
    assert(evs.drop_first() =~= seq![Event::IpFetched(Ok::<String, DnsError>(body))]);
    assert(evs.drop_first().drop_first() =~= Seq::<Event>::empty());
    let tail = evs.drop_first();
    assert(next(m1, tail[0]).0 == m);
    assert(run(m, tail.drop_first()) == (m, Seq::<ActionView>::empty()));
    assert(fits(m, tail.drop_first()));
    assert(run(m1, tail) == (m, seq![ActionView::Sleep(POLL_SECS)] + Seq::<ActionView>::empty()));
    assert(fits(m1, tail));
    assert(seq![ActionView::FetchIp(ip_request_view())] + (seq![ActionView::Sleep(POLL_SECS)]
        + Seq::<ActionView>::empty()) =~= seq![
        ActionView::FetchIp(ip_request_view()),
        ActionView::Sleep(POLL_SECS),
    ]);
}

/// The events of a pass from target `k` on in which every list and update
/// succeeds: the record list of each target's zone, then the update's success.
pub open spec fn pass_events(resps: Seq<ListResponse>, k: int) -> Seq<Event>
    decreases resps.len() - k,
{
    if 0 <= k < resps.len() {
        seq![
            Event::RecordsListed(Ok::<ListResponse, DnsError>(resps[k])),
            Event::RecordPatched(Ok::<(), DnsError>(())),
        ] + pass_events(resps, k + 1)
    } else {
        Seq::empty()
    }
}

/// In such a pass, the update of target `k` (`first`), or what follows it.
pub open spec fn pass_action(m: UpdaterView, resps: Seq<ListResponse>, k: int, first: bool) -> ActionView {
    if first {
        patch_view(m, k, lookup_view(resps[k], m.targets[k].record_name)->Ok_0)
    } else {
        after_patch(m, k).1
    }
}

/// The actions of such a pass from target `k` on.
pub open spec fn pass_actions(m: UpdaterView, resps: Seq<ListResponse>, k: int) -> Seq<ActionView> {
    Seq::new((2 * (resps.len() - k)) as nat, |i: int| pass_action(m, resps, k + i / 2, i % 2 == 0))
}

pub open spec fn pass_ok(m: UpdaterView, resps: Seq<ListResponse>) -> bool {
    &&& resps.len() == m.targets.len()
    &&& m.targets.len() <= usize::MAX
    &&& forall|j: int| 0 <= j < resps.len() ==> (#[trigger] lookup_view(resps[j], m.targets[j].record_name)) is Ok
}

proof fn lemma_pass_from(m: UpdaterView, resps: Seq<ListResponse>, k: int)
    requires
        pass_ok(m, resps),
        0 <= k < resps.len(),
    ensures
        fits(m.with_phase(Phase::Listing(k as usize)), pass_events(resps, k)),
        run(m.with_phase(Phase::Listing(k as usize)), pass_events(resps, k)) == (
            m.with_phase(Phase::Sleeping),
            pass_actions(m, resps, k),
        ),
    decreases resps.len() - k,
{
    let n = resps.len() as int;
    let mk = m.with_phase(Phase::Listing(k as usize));
    let evs = pass_events(resps, k);
    let rest = pass_events(resps, k + 1);
    assert(evs.drop_first() =~= seq![Event::RecordPatched(Ok::<(), DnsError>(()))] + rest);
    assert(evs.drop_first().drop_first() =~= rest);
    let r1 = lookup_view(resps[k], m.targets[k].record_name);
    assert(r1 is Ok);
    let m1 = next(mk, evs[0]).0;
    assert(m1 == m.with_phase(Phase::Patching(k as usize)));
    assert(next(mk, evs[0]).1 == pass_action(m, resps, k, true));
    let m2 = next(m1, evs.drop_first()[0]).0;
    assert(next(m1, evs.drop_first()[0]).1 == pass_action(m, resps, k, false));
    let tail = evs.drop_first();
    if k + 1 < n {
        lemma_pass_from(m, resps, k + 1);
        assert(fits(m2, rest));
        assert(m2 == m.with_phase(Phase::Listing((k + 1) as usize)));
        assert(pass_actions(m, resps, k) =~= seq![
            pass_action(m, resps, k, true),
            pass_action(m, resps, k, false),
        ] + pass_actions(m, resps, k + 1));
    } else {
        assert(rest =~= Seq::<Event>::empty());
        assert(m2 == m.with_phase(Phase::Sleeping));
        assert(run(m2, rest) == (m2, Seq::<ActionView>::empty()));
        assert(fits(m2, rest));
        assert(pass_actions(m, resps, k) =~= seq![
            pass_action(m, resps, k, true),
            pass_action(m, resps, k, false),
        ]);
    }
    assert(seq![next(mk, evs[0]).1] + (seq![next(m1, evs.drop_first()[0]).1] + run(
        m2,
        rest,
    ).1) =~= seq![pass_action(m, resps, k, true), pass_action(m, resps, k, false)] + run(
        m2,
        rest,
    ).1);
    assert(tail.drop_first() == rest);
    assert(run(m1, tail) == (run(m2, rest).0, seq![next(m1, tail[0]).1] + run(m2, rest).1));
    assert(fits(m1, tail));
    assert(run(mk, evs) == (run(m1, tail).0, seq![next(mk, evs[0]).1] + run(m1, tail).1));
    assert(awaits(mk.phase, evs[0]));
}

/// A pass in which every list and every update succeeds updates the targets
/// one after the other, in their order (zone by zone, and within a zone in the
/// order of its records): the lookup for a target's id comes before its
/// update, the update of target `k` before the lookup of target `k + 1`, and
/// after the last update the updater sleeps.
pub proof fn lemma_pass_order(m: UpdaterView, resps: Seq<ListResponse>)
    requires
        m.phase == Phase::Listing(0),
        pass_ok(m, resps),
        resps.len() > 0,
    ensures
        fits(m, pass_events(resps, 0)),
        run(m, pass_events(resps, 0)).0 == m.with_phase(Phase::Sleeping),
        run(m, pass_events(resps, 0)).1.len() == 2 * resps.len(),
        forall|k: int|
            0 <= k < resps.len() ==> {
                let acts = run(m, pass_events(resps, 0)).1;
                &&& acts[2 * k] == patch_view(
                    m,
                    k,
                    lookup_view(#[trigger] resps[k], m.targets[k].record_name)->Ok_0,
                )
                &&& acts[2 * k + 1] == after_patch(m, k).1
            },
{
    assert(m.with_phase(Phase::Listing(0)) == m);
    lemma_pass_from(m, resps, 0);
    let acts = run(m, pass_events(resps, 0)).1;
    assert forall|k: int| 0 <= k < resps.len() implies acts[2 * k] == pass_action(m, resps, k, true)
        && acts[2 * k + 1] == pass_action(m, resps, k, false) by {
        assert((2 * k) / 2 == k);
        assert((2 * k + 1) / 2 == k);
    }
}

/// When the update of a record fails, the updater stops there: it reports the
/// error with that record's name and its zone's name, and takes no event
/// after, so no further record is attempted.
pub proof fn lemma_update_failure_stops(m: UpdaterView, err: DnsError)
    requires
        m.wf(),
        m.phase is Patching,
    ensures
        ({
            let k = phase_target(m.phase);
            next(m, Event::RecordPatched(Err(err))) == (
                m.with_phase(Phase::Stopped),
                ActionView::AbortRecord {
                    zone_name: m.targets[k].zone_name,
                    record_name: m.targets[k].record_name,
                    error: err@,
                },
            )
        }),
        forall|e: Event| !awaits(Phase::Stopped, e),
{
}

/// When a zone's record list reports failure, the updater stops before any
/// update, with the provider's errors.
pub proof fn lemma_provider_failure_stops(m: UpdaterView, resp: ListResponse)
    requires
        m.wf(),
        m.phase is Listing,
        !resp.success,
    ensures
        ({
            let k = phase_target(m.phase);
            next(m, Event::RecordsListed(Ok(resp))) == (
                m.with_phase(Phase::Stopped),
                ActionView::AbortRecord {
                    zone_name: m.targets[k].zone_name,
                    record_name: m.targets[k].record_name,
                    error: ErrorView::Provider(strings_view(resp.errors@)),
                },
            )
        }),
{
}

} // verus!
