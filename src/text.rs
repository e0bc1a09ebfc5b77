use vstd::prelude::*;

verus! {

/// The text with the whitespace at both ends removed, as `str::trim` gives it.
pub uninterp spec fn trimmed(s: Seq<char>) -> Seq<char>;

/// The JSON string literal, quotes and escapes included, that serde_json writes
/// for the text.
pub uninterp spec fn json_string_of(s: Seq<char>) -> Seq<char>;

/// Relies on `str::trim`: the result depends on the text alone.
#[verifier::external_body]
pub(crate) fn trim_text(s: &str) -> (r: String)
    ensures
        r@ == trimmed(s@),
{
    s.trim().to_string()
}

/// Relies on serde_json's compact `Display` of `Value::String`: the JSON string
/// literal of the text, which depends on the text alone.
#[verifier::external_body]
pub(crate) fn json_string(s: &str) -> (r: String)
    ensures
        r@ == json_string_of(s@),
{
    serde_json::Value::String(s.to_string()).to_string()
}

/// The address in the body of an IP-echo response: the body without the
/// whitespace around it. Its syntax is not checked.
pub fn ip_from_body(body: &str) -> (r: String)
    ensures
        r@ == trimmed(body@),
{
    trim_text(body)
}

} // verus!
