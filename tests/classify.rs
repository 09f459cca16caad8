use ipinfo::classify::is_cli;
use ipinfo::command::lookup_cmd;
use ipinfo::geo::{country_label, region_label};

#[test]
fn curl_agent_is_cli() {
    assert!(is_cli("curl/7.64.1"));
}

#[test]
fn browser_agent_is_not_cli() {
    assert!(!is_cli("Mozilla/5.0 (X11; Linux x86_64; rv:109.0) Gecko/20100101 Firefox/115.0"));
}

#[test]
fn empty_agent_is_not_cli() {
    assert!(!is_cli(""));
}

#[test]
fn wget_agents_are_cli() {
    assert!(is_cli("Wget/1.21.3"));
    assert!(is_cli("wget/1.20"));
    assert!(is_cli("fetch slibfetch/13.1"));
}

#[test]
fn tool_name_needs_slash() {
    assert!(!is_cli("curl"));
    assert!(!is_cli("fetch/1.0"));
    assert!(!is_cli("Curl/7.0"));
}

#[test]
fn tool_name_may_stand_inside_agent() {
    assert!(is_cli("my-curl/2.0 extra"));
}

#[test]
fn line_break_after_tool_name_is_not_cli() {
    assert!(!is_cli("curl/7.64.1\nmore"));
}

#[test]
fn lookup_cmd_known_tokens() {
    assert_eq!(lookup_cmd("wget"), "wget -qO -");
    assert_eq!(lookup_cmd("curl"), "curl");
    assert_eq!(lookup_cmd("fetch"), "fetch -qo -");
}

#[test]
fn lookup_cmd_unknown_token() {
    assert_eq!(lookup_cmd("unknown-token"), "");
    assert_eq!(lookup_cmd("Wget"), "");
    assert_eq!(lookup_cmd(""), "");
}

#[test]
fn country_label_failure_is_unknown() {
    assert_eq!(country_label(None), "Unknown");
}

#[test]
fn country_label_empty_is_unknown() {
    assert_eq!(country_label(Some(String::new())), "Unknown");
}

#[test]
fn country_label_found_is_kept() {
    assert_eq!(country_label(Some("DE".to_string())), "DE");
}

#[test]
fn region_label_prefers_english_name() {
    assert_eq!(region_label(Some("Germany".to_string()), Some("DE".to_string())), Some("Germany".to_string()));
    assert_eq!(region_label(None, Some("DE".to_string())), Some("DE".to_string()));
    assert_eq!(region_label(None, None), None);
}
