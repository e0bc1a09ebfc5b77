use dyns::model::Credentials;
use dyns::request::{ip_request, list_request, patch_request, update_body, Method, Request};
use dyns::text::ip_from_body;

fn creds() -> Credentials {
    Credentials {
        email: "me@example.com".to_string(),
        auth_key: "key".to_string(),
        authorization: "tok".to_string(),
    }
}

fn headers(r: &Request) -> Vec<(String, String)> {
    r.headers.iter().map(|h| (h.name.clone(), h.value.clone())).collect()
}

#[test]
fn ip_body_is_trimmed() {
    assert_eq!(ip_from_body("203.0.113.5\n"), "203.0.113.5");
    assert_eq!(ip_from_body("  198.51.100.7 \r\n"), "198.51.100.7");
    assert_eq!(ip_from_body(""), "");
}

#[test]
fn ip_body_is_not_validated() {
    assert_eq!(ip_from_body(" not an address "), "not an address");
}

#[test]
fn ip_request_targets_the_echo_service() {
    let r = ip_request();
    assert_eq!(r.method, Method::Get);
    assert_eq!(r.url, "https://api.ipify.org/");
    assert!(r.headers.is_empty());
    assert_eq!(r.body, "");
}

#[test]
fn list_request_is_authenticated() {
    let r = list_request(&creds(), &"zone1".to_string());
    assert_eq!(r.method, Method::Get);
    assert_eq!(r.url, "https://api.cloudflare.com/client/v4/zones/zone1/dns_records");
    assert_eq!(
        headers(&r),
        vec![
            ("X-Auth-Email".to_string(), "me@example.com".to_string()),
            ("X-Auth-Key".to_string(), "key".to_string()),
        ]
    );
    assert_eq!(r.body, "");
}

#[test]
fn patch_request_sets_content_and_proxy() {
    let r = patch_request(&creds(), &"zone1".to_string(), &"rec1".to_string(), &"198.51.100.7".to_string(), true);
    assert_eq!(r.method, Method::Patch);
    assert_eq!(r.url, "https://api.cloudflare.com/client/v4/zones/zone1/dns_records/rec1");
    assert_eq!(
        headers(&r),
        vec![
            ("X-Auth-Email".to_string(), "me@example.com".to_string()),
            ("X-Auth-Key".to_string(), "key".to_string()),
            ("Authorization".to_string(), "Bearer tok".to_string()),
            ("Content-Type".to_string(), "application/json".to_string()),
        ]
    );
    assert_eq!(r.body, "{\"content\":\"198.51.100.7\",\"proxy\":true}");
}

#[test]
fn update_body_escapes_content() {
    assert_eq!(update_body(&"a\"b\\c".to_string(), false), "{\"content\":\"a\\\"b\\\\c\",\"proxy\":false}");
    assert_eq!(update_body(&"".to_string(), false), "{\"content\":\"\",\"proxy\":false}");
}
