use ddns::bytes::bytes_eq;
use ddns::bytes::contains_byte;
use ddns::bytes::trim_ascii;
use ddns::config::Config;
use ddns::plan::RecordKind;
use ddns::plan::RunPlan;
use ddns::plan::plan_updates;
use ddns::resolve::resolve_from_responses;
use ddns::resolve::select_local_ipv6;
use ddns::wire::json_escape;
use ddns::wire::record_kind_bytes;
use ddns::wire::update_body;
use ddns::wire::update_url;

fn bytes(s: &str) -> Vec<u8> {
    s.as_bytes().to_vec()
}

#[test]
fn trims_surrounding_ascii_whitespace() {
    assert_eq!(trim_ascii(&bytes(" \t198.51.100.7\r\n")), bytes("198.51.100.7"));
    assert_eq!(trim_ascii(&bytes("a b")), bytes("a b"));
    assert_eq!(trim_ascii(&bytes(" \r\n\t ")), bytes(""));
    assert_eq!(trim_ascii(&bytes("")), bytes(""));
}

#[test]
fn byte_equality_and_search() {
    assert!(bytes_eq(&bytes("abc"), &bytes("abc")));
    assert!(!bytes_eq(&bytes("abc"), &bytes("abd")));
    assert!(!bytes_eq(&bytes("abc"), &bytes("ab")));
    assert!(contains_byte(&bytes("1.2"), b'.'));
    assert!(!contains_byte(&bytes("12"), b'.'));
}

#[test]
fn record_kind_labels() {
    assert_eq!(record_kind_bytes(RecordKind::A), bytes("A"));
    assert_eq!(record_kind_bytes(RecordKind::AAAA), bytes("AAAA"));
}

#[test]
fn frames_the_update_url() {
    let url = update_url(&bytes("https://api.example/client/v4"), &bytes("z"), &bytes("a1"));
    assert_eq!(url, bytes("https://api.example/client/v4/zones/z/dns_records/a1"));
}

#[test]
fn frames_the_update_body() {
    let body = update_body(RecordKind::A, &bytes("x.example"), &bytes("203.0.113.5"));
    assert_eq!(
        body,
        bytes(
            "{\"type\":\"A\",\"name\":\"x.example\",\"content\":\"203.0.113.5\",\"ttl\":60,\"proxied\":false}"
        )
    );
    let body6 = update_body(RecordKind::AAAA, &bytes("x.example"), &bytes("2001:db8::1"));
    assert_eq!(
        body6,
        bytes(
            "{\"type\":\"AAAA\",\"name\":\"x.example\",\"content\":\"2001:db8::1\",\"ttl\":60,\"proxied\":false}"
        )
    );
}

#[test]
fn escapes_json_string_content() {
    assert_eq!(json_escape(&bytes("plain.text")), bytes("plain.text"));
    assert_eq!(json_escape(&bytes("a\"b")), bytes("a\\\"b"));
    assert_eq!(json_escape(&bytes("a\\b")), bytes("a\\\\b"));
    assert_eq!(json_escape(&bytes("a\nb")), bytes("a\\u000ab"));
    assert_eq!(json_escape(&bytes("\x1f")), bytes("\\u001f"));
}

#[test]
fn end_to_end_single_family_run() {
    let cfg = Config {
        api_token: bytes("t"),
        zone_id: bytes("z"),
        record_a_id: bytes("a1"),
        record_aaaa_id: bytes("null"),
        domain: bytes("x.example"),
        interface_name: None,
    };
    let v4 = resolve_from_responses(&vec![Some(bytes("203.0.113.5"))], false);
    assert_eq!(v4, Some(bytes("203.0.113.5")));
    let local_v6 = select_local_ipv6(&vec![], &cfg.interface_name);
    assert_eq!(local_v6, None);
    let v6 = resolve_from_responses(&vec![None, None, None], true);
    assert_eq!(v6, None);
    let plan = plan_updates(&cfg, &v4, &v6, &None);
    match plan {
        RunPlan::Proceed { actions, new_state } => {
            assert_eq!(actions.len(), 1);
            assert_eq!(actions[0].kind, RecordKind::A);
            assert_eq!(actions[0].record_id, bytes("a1"));
            assert_eq!(actions[0].address, bytes("203.0.113.5"));
            let url = update_url(&bytes("https://api.example/client/v4"), &cfg.zone_id, &actions[0].record_id);
            assert_eq!(url, bytes("https://api.example/client/v4/zones/z/dns_records/a1"));
            let body = update_body(actions[0].kind, &cfg.domain, &actions[0].address);
            assert_eq!(
                body,
                bytes(
                    "{\"type\":\"A\",\"name\":\"x.example\",\"content\":\"203.0.113.5\",\"ttl\":60,\"proxied\":false}"
                )
            );
            assert_eq!(new_state, bytes("203.0.113.5|"));
        }
        RunPlan::CacheHit => panic!("an absent cache never matches"),
    }
}
