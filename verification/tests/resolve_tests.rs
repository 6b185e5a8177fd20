use ddns::resolve::InterfaceAddress;
use ddns::resolve::NetInterface;
use ddns::resolve::accept_provider_response;
use ddns::resolve::resolve_from_responses;
use ddns::resolve::select_local_ipv6;

fn bytes(s: &str) -> Vec<u8> {
    s.as_bytes().to_vec()
}

#[test]
fn accepts_plain_ipv4_response() {
    let r = accept_provider_response(&bytes("203.0.113.5\n"), false);
    assert_eq!(r, Some(bytes("203.0.113.5")));
}

#[test]
fn accepts_trimmed_ipv6_response() {
    let r = accept_provider_response(&bytes(" 2001:db8::1 \r\n"), true);
    assert_eq!(r, Some(bytes("2001:db8::1")));
}

#[test]
fn rejects_wrong_family_response() {
    assert_eq!(accept_provider_response(&bytes("203.0.113.5"), true), None);
    assert_eq!(accept_provider_response(&bytes("2001:db8::1"), false), None);
}

#[test]
fn rejects_payload_without_delimiter() {
    assert_eq!(accept_provider_response(&bytes("<html>error</html>"), false), None);
    assert_eq!(accept_provider_response(&bytes(""), false), None);
}

#[test]
fn fallback_takes_first_accepted_provider() {
    let responses = vec![
        None,
        Some(bytes("<html>busy</html>")),
        Some(bytes("198.51.100.7\n")),
    ];
    assert_eq!(resolve_from_responses(&responses, false), Some(bytes("198.51.100.7")));
}

#[test]
fn fallback_prefers_earlier_provider() {
    let responses = vec![Some(bytes("198.51.100.7")), Some(bytes("203.0.113.5"))];
    assert_eq!(resolve_from_responses(&responses, false), Some(bytes("198.51.100.7")));
}

#[test]
fn fallback_empty_when_all_providers_fail() {
    let responses = vec![None, Some(bytes("oops")), None];
    assert_eq!(resolve_from_responses(&responses, false), None);
    assert_eq!(resolve_from_responses(&vec![], true), None);
}

fn v6_iface(name: &str, loopback: bool, segment0: u16, text: &str) -> NetInterface {
    NetInterface {
        name: bytes(name),
        loopback,
        address: InterfaceAddress::V6 { segment0, text: bytes(text) },
    }
}

#[test]
fn selects_global_unicast_address() {
    let ifaces = vec![v6_iface("eth0", false, 0x2001, "2001:db8::1")];
    assert_eq!(select_local_ipv6(&ifaces, &None), Some(bytes("2001:db8::1")));
}

#[test]
fn never_selects_link_local_address() {
    let ifaces = vec![v6_iface("eth0", false, 0xfe80, "fe80::1")];
    assert_eq!(select_local_ipv6(&ifaces, &None), None);
}

#[test]
fn never_selects_loopback_interface() {
    let ifaces = vec![v6_iface("lo", true, 0x2001, "2001:db8::dead")];
    assert_eq!(select_local_ipv6(&ifaces, &None), None);
}

#[test]
fn skips_ipv4_interfaces() {
    let ifaces = vec![
        NetInterface { name: bytes("eth0"), loopback: false, address: InterfaceAddress::V4 },
        v6_iface("eth0", false, 0x2a00, "2a00:1450::8"),
    ];
    assert_eq!(select_local_ipv6(&ifaces, &None), Some(bytes("2a00:1450::8")));
}

#[test]
fn interface_filter_restricts_by_name() {
    let ifaces = vec![
        v6_iface("eth0", false, 0x2001, "2001:db8::1"),
        v6_iface("eth1", false, 0x2001, "2001:db8::2"),
    ];
    assert_eq!(select_local_ipv6(&ifaces, &Some(bytes("eth1"))), Some(bytes("2001:db8::2")));
    assert_eq!(select_local_ipv6(&ifaces, &Some(bytes("wlan0"))), None);
}

#[test]
fn first_qualifying_interface_wins() {
    let ifaces = vec![
        v6_iface("eth0", false, 0xfd00, "fd00::1"),
        v6_iface("eth1", false, 0x2001, "2001:db8::7"),
        v6_iface("eth2", false, 0x2600, "2600::9"),
    ];
    assert_eq!(select_local_ipv6(&ifaces, &None), Some(bytes("2001:db8::7")));
}
