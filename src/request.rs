use vstd::prelude::*;
use vstd::string::StringExecFns;
use crate::model::{Credentials, CredentialsView};
use crate::text::{json_string, json_string_of};

verus! {

/// The HTTP method of a request.
#[derive(Clone, Copy, Debug, PartialEq, Eq, Structural)]
pub enum Method {
    Get,
    Patch,
}

/// One header line of a request.
pub struct Header {
    pub name: String,
    pub value: String,
}

impl View for Header {
    type V = (Seq<char>, Seq<char>);

    open spec fn view(&self) -> (Seq<char>, Seq<char>) {
        (self.name@, self.value@)
    }
}

/// An HTTP request for the caller to send.
pub struct Request {
    pub method: Method,
    pub url: String,
    pub headers: Vec<Header>,
    pub body: String,
}

pub struct RequestView {
    pub method: Method,
    pub url: Seq<char>,
    pub headers: Seq<(Seq<char>, Seq<char>)>,
    pub body: Seq<char>,
}

impl View for Request {
    type V = RequestView;

    open spec fn view(&self) -> RequestView {
        RequestView {
            method: self.method,
            url: self.url@,
            headers: self.headers@.map_values(|h: Header| h@),
            body: self.body@,
        }
    }
}

/// The request that asks the IP-echo service for the caller's address.
pub open spec fn ip_request_view() -> RequestView {
    RequestView {
        method: Method::Get,
        url: "https://api.ipify.org/"@,
        headers: Seq::empty(),
        body: Seq::empty(),
    }
}

/// Where the records of a zone are listed.
pub open spec fn records_url(zone_id: Seq<char>) -> Seq<char> {
    "https://api.cloudflare.com/client/v4/zones/"@ + zone_id + "/dns_records"@
}

/// The two headers that authenticate an account.
pub open spec fn auth_headers(c: CredentialsView) -> Seq<(Seq<char>, Seq<char>)> {
    seq![("X-Auth-Email"@, c.email), ("X-Auth-Key"@, c.auth_key)]
}

/// The request that lists the records of a zone.
pub open spec fn list_request_view(c: CredentialsView, zone_id: Seq<char>) -> RequestView {
    RequestView {
        method: Method::Get,
        url: records_url(zone_id),
        headers: auth_headers(c),
        body: Seq::empty(),
    }
}

/// The JSON body that sets a record's content and proxy flag.
pub open spec fn update_body_view(content: Seq<char>, proxy: bool) -> Seq<char> {
    "{\"content\":"@ + json_string_of(content) + ",\"proxy\":"@ + (if proxy {
        "true"@
    } else {
        "false"@
    }) + "}"@
}

/// The request that points a record at an address.
pub open spec fn patch_request_view(
    c: CredentialsView,
    zone_id: Seq<char>,
    record_id: Seq<char>,
    content: Seq<char>,
    proxy: bool,
) -> RequestView {
    RequestView {
        method: Method::Patch,
        url: records_url(zone_id) + "/"@ + record_id,
        headers: auth_headers(c) + seq![
            ("Authorization"@, "Bearer "@ + c.authorization),
            ("Content-Type"@, "application/json"@),
        ],
        body: update_body_view(content, proxy),
    }
}

fn header(name: &str, value: String) -> (r: Header)
    ensures
        r@ == (name@, value@),
{
    Header { name: String::from_str(name), value }
}

/// The request that asks the IP-echo service for the caller's address.
pub fn ip_request() -> (r: Request)
    ensures
        r@ == ip_request_view(),
{
    let headers: Vec<Header> = Vec::new();
    let r = Request {
        method: Method::Get,
        url: String::from_str("https://api.ipify.org/"),
        headers,
        body: String::new(),
    };
    assert(r@.headers =~= Seq::<(Seq<char>, Seq<char>)>::empty());
    r
}

fn zone_url(zone_id: &String) -> (r: String)
    ensures
        r@ == records_url(zone_id@),
{
    let mut url = String::from_str("https://api.cloudflare.com/client/v4/zones/");
    url.append(zone_id.as_str());
    url.append("/dns_records");
    url
}

fn auth_header_list(c: &Credentials) -> (r: Vec<Header>)
    ensures
        r@.map_values(|h: Header| h@) == auth_headers(c@),
{
    let mut hs: Vec<Header> = Vec::new();
    hs.push(header("X-Auth-Email", c.email.clone()));
    hs.push(header("X-Auth-Key", c.auth_key.clone()));
    assert(hs@.map_values(|h: Header| h@) =~= auth_headers(c@));
    hs
}

/// The request that lists the records of a zone.
pub fn list_request(c: &Credentials, zone_id: &String) -> (r: Request)
    ensures
        r@ == list_request_view(c@, zone_id@),
{
    let r = Request {
        method: Method::Get,
        url: zone_url(zone_id),
        headers: auth_header_list(c),
        body: String::new(),
    };
    r
}

/// The JSON body that sets a record's content and proxy flag.
pub fn update_body(content: &String, proxy: bool) -> (r: String)
    ensures
        r@ == update_body_view(content@, proxy),
{
    let mut body = String::from_str("{\"content\":");
    let quoted = json_string(content.as_str());
    body.append(quoted.as_str());
    body.append(",\"proxy\":");
    if proxy {
        body.append("true");
    } else {
        body.append("false");
    }
    body.append("}");
    body
}

/// The request that points a record at an address.
pub fn patch_request(
    c: &Credentials,
    zone_id: &String,
    record_id: &String,
    content: &String,
    proxy: bool,
) -> (r: Request)
    ensures
        r@ == patch_request_view(c@, zone_id@, record_id@, content@, proxy),
{
    let mut url = zone_url(zone_id);
    url.append("/");
    url.append(record_id.as_str());
    let mut headers = auth_header_list(c);
    let mut bearer = String::from_str("Bearer ");
    bearer.append(c.authorization.as_str());
    headers.push(header("Authorization", bearer));
    headers.push(header("Content-Type", String::from_str("application/json")));
    let r = Request { method: Method::Patch, url, headers, body: update_body(content, proxy) };
    assert(r@.headers =~= patch_request_view(c@, zone_id@, record_id@, content@, proxy).headers);
    r
}

} // verus!
