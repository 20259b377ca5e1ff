use upnp_cast::device::CastError;
use upnp_cast::wol::{build_magic_packet, strip_separators, wake_on_lan};

#[test]
fn wake_on_lan_builds_magic_packet() {
    let packet = wake_on_lan("AA:BB:CC:DD:EE:FF".to_string()).unwrap();
    assert_eq!(packet.len(), 102);
    assert_eq!(&packet[..6], &[0xFF; 6]);
    let mac = [0xAAu8, 0xBB, 0xCC, 0xDD, 0xEE, 0xFF];
    for k in 0..16 {
        assert_eq!(&packet[6 + 6 * k..12 + 6 * k], &mac);
    }
}

#[test]
fn wake_on_lan_wrong_length() {
    assert_eq!(
        wake_on_lan("AABBCC".to_string()),
        Err(CastError::InvalidMacFormat)
    );
    assert_eq!(
        wake_on_lan("AA:BB:CC:DD:EE:FF:00".to_string()),
        Err(CastError::InvalidMacFormat)
    );
    assert_eq!(wake_on_lan("".to_string()), Err(CastError::InvalidMacFormat));
}

#[test]
fn wake_on_lan_bad_digits() {
    assert_eq!(
        wake_on_lan("GG:BB:CC:DD:EE:FF".to_string()),
        Err(CastError::InvalidMacFormat)
    );
    assert_eq!(
        wake_on_lan("AA:BB:CC:DD:EE:F".to_string()),
        Err(CastError::InvalidMacFormat)
    );
    assert_eq!(
        wake_on_lan("AA BB CC DD EE FF".to_string()),
        Err(CastError::InvalidMacFormat)
    );
    assert_eq!(
        wake_on_lan("ÀÀ:BB:CC:DD:EE".to_string()),
        Err(CastError::InvalidMacFormat)
    );
}

#[test]
fn wake_on_lan_separators_and_case() {
    let want = wake_on_lan("0123456789ab".to_string()).unwrap();
    assert_eq!(want[6..12], [0x01, 0x23, 0x45, 0x67, 0x89, 0xab]);
    assert_eq!(wake_on_lan("01-23-45-67-89-AB".to_string()).unwrap(), want);
    assert_eq!(wake_on_lan("01:23:45:67:89:aB".to_string()).unwrap(), want);
    assert_eq!(wake_on_lan(":0-1:23456789ab--".to_string()).unwrap(), want);
}

#[test]
fn strip_separators_removes_only_separators() {
    assert_eq!(strip_separators("AA:BB-CC"), "AABBCC");
    assert_eq!(strip_separators(""), "");
    assert_eq!(strip_separators(":-:"), "");
    assert_eq!(strip_separators("a.b c"), "a.b c");
}

#[test]
fn build_magic_packet_layout() {
    let mac = [1u8, 2, 3, 4, 5, 6];
    let p = build_magic_packet(&mac);
    assert_eq!(p.len(), 102);
    for i in 0..102 {
        if i < 6 {
            assert_eq!(p[i], 0xFF);
        } else {
            assert_eq!(p[i], mac[(i - 6) % 6]);
        }
    }
}
