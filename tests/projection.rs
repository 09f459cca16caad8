use ipinfo::headers::{is_host, project, strip_quotes};

fn pair(k: &str, v: &str) -> (String, String) {
    (k.to_string(), v.to_string())
}

#[test]
fn strip_quotes_removes_surrounding_quotes() {
    assert_eq!(strip_quotes("\"en-US\""), "en-US");
    assert_eq!(strip_quotes(""), "");
    assert_eq!(strip_quotes("plain"), "plain");
}

#[test]
fn strip_quotes_removes_one_surrounding_layer_only() {
    assert_eq!(strip_quotes("a\"b\"c"), "a\"b\"c");
    assert_eq!(strip_quotes("a\"b"), "a\"b");
    assert_eq!(strip_quotes("\"\"x\"\""), "\"x\"");
    assert_eq!(strip_quotes("\"\""), "");
    assert_eq!(strip_quotes("\""), "\"");
    assert_eq!(strip_quotes("\"open"), "\"open");
    assert_eq!(strip_quotes("W/\"etag\""), "W/\"etag\"");
}

#[test]
fn host_name_in_any_case() {
    assert!(is_host("host"));
    assert!(is_host("Host"));
    assert!(is_host("HOST"));
    assert!(!is_host("hostname"));
    assert!(!is_host("hos"));
}

#[test]
fn projection_drops_host_and_adds_country_and_address() {
    let hs = vec![
        pair("host", "example.org"),
        pair("accept", "\"text/html\""),
        pair("user-agent", "Mozilla/5.0"),
    ];
    let p = project(&hs, "203.0.113.7", "Unknown");
    assert_eq!(
        p.entries,
        vec![
            pair("accept", "text/html"),
            pair("user-agent", "Mozilla/5.0"),
            pair("country", "Unknown"),
            pair("ip-address", "203.0.113.7"),
        ]
    );
    assert!(p.get("host").is_none());
    assert_eq!(p.get("country"), Some("Unknown".to_string()));
    assert_eq!(p.len(), 4);
}

#[test]
fn projection_of_no_headers() {
    let p = project(&Vec::new(), "198.51.100.1", "FR");
    assert_eq!(p.entries, vec![pair("country", "FR"), pair("ip-address", "198.51.100.1")]);
}

#[test]
fn projection_drops_host_in_other_case() {
    let hs = vec![pair("Host", "a"), pair("HOST", "b"), pair("x", "1")];
    let p = project(&hs, "10.0.0.1", "Unknown");
    assert!(p.entries.iter().all(|e| !e.0.eq_ignore_ascii_case("host")));
    assert_eq!(p.len(), 3);
}

#[test]
fn projection_later_header_replaces_value_in_place() {
    let hs = vec![pair("a", "1"), pair("b", "2"), pair("a", "3")];
    let p = project(&hs, "10.0.0.1", "NL");
    assert_eq!(
        p.entries,
        vec![pair("a", "3"), pair("b", "2"), pair("country", "NL"), pair("ip-address", "10.0.0.1")]
    );
}

#[test]
fn projection_fills_in_country_and_address_last() {
    let hs = vec![pair("country", "spoofed"), pair("ip-address", "1.1.1.1"), pair("z", "9")];
    let p = project(&hs, "10.0.0.2", "SE");
    assert_eq!(
        p.entries,
        vec![pair("z", "9"), pair("country", "SE"), pair("ip-address", "10.0.0.2")]
    );
}

#[test]
fn projection_keeps_inner_quotes() {
    let hs = vec![pair("etag", "W/\"abc\""), pair("x", "a\"b")];
    let p = project(&hs, "10.0.0.3", "Unknown");
    assert_eq!(p.get("etag"), Some("W/\"abc\"".to_string()));
    assert_eq!(p.get("x"), Some("a\"b".to_string()));
    let v: serde_json::Value = serde_json::from_str(&p.to_json()).unwrap();
    assert_eq!(v.as_object().unwrap().get("x").unwrap(), "a\"b");
}

#[test]
fn projection_json_is_deterministic() {
    let hs = vec![pair("b", "2"), pair("a", "1"), pair("c", "3")];
    let first = project(&hs, "10.0.0.4", "IT").to_json();
    let second = project(&hs, "10.0.0.4", "IT").to_json();
    assert_eq!(first, second);
}

#[test]
fn projection_json_is_pretty_and_keyed() {
    let hs = vec![pair("host", "example.org"), pair("accept-language", "en-US")];
    let p = project(&hs, "203.0.113.7", "Unknown");
    let text = p.to_json();
    assert!(text.contains("\n  \""));
    let v: serde_json::Value = serde_json::from_str(&text).unwrap();
    let obj = v.as_object().unwrap();
    assert_eq!(obj.get("country").unwrap(), "Unknown");
    assert_eq!(obj.get("ip-address").unwrap(), "203.0.113.7");
    assert_eq!(obj.get("accept-language").unwrap(), "en-US");
    assert!(obj.get("host").is_none());
    assert_eq!(obj.len(), 3);
}
