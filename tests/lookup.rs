use dyns::lookup::{find_record_id, record_id_from_response};
use dyns::model::{DnsError, ListResponse, RecordInfo};

fn info(id: &str, name: &str) -> RecordInfo {
    RecordInfo { id: id.to_string(), name: name.to_string() }
}

fn two_records() -> Vec<RecordInfo> {
    vec![info("a1", "x.example.com"), info("a2", "y.example.com")]
}

fn ok_list(result: Vec<RecordInfo>) -> ListResponse {
    ListResponse { success: true, errors: vec![], messages: vec![], result }
}

#[test]
fn lookup_finds_the_named_record() {
    let id = find_record_id(&two_records(), &"y.example.com".to_string());
    assert_eq!(id, Some("a2".to_string()));
}

#[test]
fn lookup_misses_an_absent_name() {
    let resp = ok_list(two_records());
    match record_id_from_response(&resp, &"z.example.com".to_string()) {
        Err(DnsError::NotFound(n)) => assert_eq!(n, "z.example.com"),
        _ => panic!("expected NotFound"),
    }
}

#[test]
fn lookup_through_the_envelope() {
    let resp = ok_list(two_records());
    match record_id_from_response(&resp, &"y.example.com".to_string()) {
        Ok(id) => assert_eq!(id, "a2"),
        _ => panic!("expected an id"),
    }
}

#[test]
fn lookup_is_case_sensitive() {
    let id = find_record_id(&two_records(), &"Y.example.com".to_string());
    assert_eq!(id, None);
}

#[test]
fn lookup_first_match_wins() {
    let recs = vec![info("b1", "x.example.com"), info("b2", "x.example.com")];
    assert_eq!(find_record_id(&recs, &"x.example.com".to_string()), Some("b1".to_string()));
}

#[test]
fn lookup_in_empty_list() {
    assert_eq!(find_record_id(&vec![], &"x.example.com".to_string()), None);
}

#[test]
fn failed_envelope_gives_provider_errors() {
    let resp = ListResponse {
        success: false,
        errors: vec!["bad auth".to_string()],
        messages: vec![],
        result: two_records(),
    };
    match record_id_from_response(&resp, &"y.example.com".to_string()) {
        Err(DnsError::Provider(msgs)) => assert_eq!(msgs, vec!["bad auth".to_string()]),
        _ => panic!("expected ProviderError"),
    }
}
