use vstd::prelude::*;

verus! {

/// A DNS record to keep pointed at the current address.
pub struct Record {
    pub name: String,
    pub proxy: bool,
}

/// A provider zone and the records of it that are kept up to date.
pub struct ZoneConfig {
    pub zone_id: String,
    pub name: String,
    pub records: Vec<Record>,
}

/// What the updater is configured with.
pub struct Config {
    pub email: String,
    pub auth_key: String,
    pub authorization: String,
    pub log_file: Option<String>,
    pub zones: Vec<ZoneConfig>,
}

/// The provider credentials, shared by every request.
pub struct Credentials {
    pub email: String,
    pub auth_key: String,
    pub authorization: String,
}

pub struct CredentialsView {
    pub email: Seq<char>,
    pub auth_key: Seq<char>,
    pub authorization: Seq<char>,
}

impl View for Credentials {
    type V = CredentialsView;

    open spec fn view(&self) -> CredentialsView {
        CredentialsView {
            email: self.email@,
            auth_key: self.auth_key@,
            authorization: self.authorization@,
        }
    }
}

/// One entry of a provider's record list.
pub struct RecordInfo {
    pub id: String,
    pub name: String,
}

/// The envelope of a provider's record list.
pub struct ListResponse {
    pub success: bool,
    pub errors: Vec<String>,
    pub messages: Vec<String>,
    pub result: Vec<RecordInfo>,
}

/// Why an update could not be made.
pub enum DnsError {
    /// The transport failed (connection, timeout).
    Network(String),
    /// A body could not be read.
    Response(String),
    /// The provider reported a failure, with its messages.
    Provider(Vec<String>),
    /// No record of this name is in the zone.
    NotFound(String),
    /// The configuration cannot be used.
    Config(String),
}

pub enum ErrorView {
    Network(Seq<char>),
    Response(Seq<char>),
    Provider(Seq<Seq<char>>),
    NotFound(Seq<char>),
    Config(Seq<char>),
}

/// The characters of each string, in order.
pub open spec fn strings_view(v: Seq<String>) -> Seq<Seq<char>> {
    v.map_values(|s: String| s@)
}

impl View for DnsError {
    type V = ErrorView;

    open spec fn view(&self) -> ErrorView {
        match self {
            DnsError::Network(m) => ErrorView::Network(m@),
            DnsError::Response(m) => ErrorView::Response(m@),
            DnsError::Provider(ms) => ErrorView::Provider(strings_view(ms@)),
            DnsError::NotFound(n) => ErrorView::NotFound(n@),
            DnsError::Config(m) => ErrorView::Config(m@),
        }
    }
}

/// A copy of a list of strings.
pub fn copy_strings(v: &Vec<String>) -> (r: Vec<String>)
    ensures
        strings_view(r@) == strings_view(v@),
{
    let mut r: Vec<String> = Vec::new();
    let mut i: usize = 0;
    while i < v.len()
        invariant
            i <= v.len(),
            strings_view(r@) =~= strings_view(v@.take(i as int)),
        decreases v.len() - i,
    {
        let s = v[i].clone();
        let ghost before = r@;
        r.push(s);
        assert(r@ =~= before.push(s));
        assert(v@.take(i as int + 1) =~= v@.take(i as int).push(v@[i as int]));
        assert(strings_view(r@) =~= strings_view(before).push(s@));
        assert(strings_view(v@.take(i as int + 1)) =~= strings_view(v@.take(i as int)).push(
            v@[i as int]@,
        ));
        i = i + 1;
    }
    assert(v@.take(v.len() as int) =~= v@);
    r
}

} // verus!
