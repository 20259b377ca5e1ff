use upnp_cast::network::{
    broadcast_address, broadcast_targets, detect_lan_ipv4, is_valid_lan_ip, limited_broadcast,
    probe_targets, ssdp_group, Ipv4, DATAGRAM_BUFFER, FETCH_TIMEOUT_SECS, MULTICAST_TTL,
    PROBE_PORT, SSDP_PORT, WAKE_PORT,
};

fn ip(a: u8, b: u8, c: u8, d: u8) -> Ipv4 {
    Ipv4 { a, b, c, d }
}

#[test]
fn private_addresses_are_valid() {
    assert!(is_valid_lan_ip(ip(192, 168, 1, 23)));
    assert!(is_valid_lan_ip(ip(192, 168, 0, 1)));
    assert!(is_valid_lan_ip(ip(10, 0, 0, 5)));
    assert!(is_valid_lan_ip(ip(10, 8, 1, 5)));
    assert!(is_valid_lan_ip(ip(10, 255, 255, 254)));
    assert!(is_valid_lan_ip(ip(172, 16, 0, 1)));
    assert!(is_valid_lan_ip(ip(172, 31, 255, 1)));
}

#[test]
fn special_addresses_are_rejected() {
    assert!(!is_valid_lan_ip(ip(127, 0, 0, 1)));
    assert!(!is_valid_lan_ip(ip(0, 0, 0, 0)));
    assert!(!is_valid_lan_ip(ip(169, 254, 10, 10)));
}

#[test]
fn vpn_ranges_are_rejected() {
    assert!(!is_valid_lan_ip(ip(198, 18, 0, 1)));
    assert!(!is_valid_lan_ip(ip(198, 19, 255, 1)));
    assert!(!is_valid_lan_ip(ip(100, 64, 0, 1)));
    assert!(!is_valid_lan_ip(ip(100, 127, 255, 255)));
    assert!(!is_valid_lan_ip(ip(10, 8, 0, 2)));
    assert!(!is_valid_lan_ip(ip(10, 9, 0, 2)));
}

#[test]
fn other_addresses_are_rejected() {
    assert!(!is_valid_lan_ip(ip(8, 8, 8, 8)));
    assert!(!is_valid_lan_ip(ip(172, 15, 0, 1)));
    assert!(!is_valid_lan_ip(ip(172, 32, 0, 1)));
    assert!(!is_valid_lan_ip(ip(192, 167, 1, 1)));
    assert!(!is_valid_lan_ip(ip(198, 20, 0, 1)));
    assert!(!is_valid_lan_ip(ip(100, 63, 0, 1)));
    assert!(!is_valid_lan_ip(ip(255, 255, 255, 255)));
}

#[test]
fn detect_takes_first_valid() {
    let c = vec![ip(10, 8, 0, 2), ip(127, 0, 0, 1), ip(192, 168, 1, 7), ip(10, 0, 0, 9)];
    assert_eq!(detect_lan_ipv4(&c), Some(ip(192, 168, 1, 7)));
    assert_eq!(detect_lan_ipv4(&vec![ip(10, 0, 0, 9)]), Some(ip(10, 0, 0, 9)));
}

#[test]
fn detect_none_when_all_invalid() {
    assert_eq!(detect_lan_ipv4(&vec![]), None);
    assert_eq!(detect_lan_ipv4(&vec![ip(100, 64, 1, 1), ip(0, 0, 0, 0)]), None);
}

#[test]
fn broadcast_of_slash_24() {
    assert_eq!(broadcast_address(ip(192, 168, 1, 23)), ip(192, 168, 1, 255));
    assert_eq!(broadcast_address(ip(10, 1, 2, 255)), ip(10, 1, 2, 255));
}

#[test]
fn broadcast_targets_with_and_without_local() {
    assert_eq!(
        broadcast_targets(Some(ip(192, 168, 1, 23))),
        vec![ip(192, 168, 1, 255), ip(255, 255, 255, 255)]
    );
    assert_eq!(broadcast_targets(None), vec![ip(255, 255, 255, 255)]);
}

#[test]
fn probe_targets_in_order() {
    assert_eq!(
        probe_targets(),
        vec![
            ip(192, 168, 1, 1),
            ip(192, 168, 0, 1),
            ip(10, 0, 0, 1),
            ip(172, 16, 0, 1),
            ip(8, 8, 8, 8),
            ip(192, 168, 1, 255),
            ip(192, 168, 0, 255),
            ip(10, 0, 0, 255),
            ip(172, 16, 0, 255),
        ]
    );
}

#[test]
fn protocol_constants() {
    assert_eq!(SSDP_PORT, 1900);
    assert_eq!(WAKE_PORT, 9);
    assert_eq!(PROBE_PORT, 80);
    assert_eq!(MULTICAST_TTL, 2);
    assert_eq!(DATAGRAM_BUFFER, 2048);
    assert_eq!(FETCH_TIMEOUT_SECS, 2);
    assert_eq!(ssdp_group(), ip(239, 255, 255, 250));
    assert_eq!(limited_broadcast(), ip(255, 255, 255, 255));
}
