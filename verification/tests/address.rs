use proksi::address::{format_upstream, is_well_formed};

#[test]
fn format_upstream_joins_ip_and_port() {
    assert_eq!(format_upstream("127.0.0.1", 8080), "127.0.0.1:8080");
    assert_eq!(format_upstream("10.1.2.3", 80), "10.1.2.3:80");
}

#[test]
fn format_upstream_writes_every_port_width() {
    assert_eq!(format_upstream("h", 0), "h:0");
    assert_eq!(format_upstream("h", 7), "h:7");
    assert_eq!(format_upstream("h", 10), "h:10");
    assert_eq!(format_upstream("h", 443), "h:443");
    assert_eq!(format_upstream("h", 1000), "h:1000");
    assert_eq!(format_upstream("h", 60906), "h:60906");
    assert_eq!(format_upstream("h", 65535), "h:65535");
    assert_eq!(format_upstream("", 1), ":1");
}

#[test]
fn well_formed_addresses() {
    assert!(is_well_formed("127.0.0.1:80"));
    assert!(is_well_formed("localhost:3000"));
    assert!(is_well_formed("[::1]:443"));
    assert!(is_well_formed("backend.internal:0"));
    assert!(is_well_formed("h:65535"));
    assert!(is_well_formed("h:080"));
    assert!(is_well_formed("h:0000065535"));
}

#[test]
fn malformed_addresses() {
    assert!(!is_well_formed("not-an-addr"));
    assert!(!is_well_formed(""));
    assert!(!is_well_formed(":"));
    assert!(!is_well_formed("127.0.0.1"));
    assert!(!is_well_formed("127.0.0.1:"));
    assert!(!is_well_formed(":80"));
    assert!(!is_well_formed("80"));
    assert!(!is_well_formed("h:65536"));
    assert!(!is_well_formed("h:99999999999999999999999999"));
    assert!(!is_well_formed("h:+80"));
    assert!(!is_well_formed("h:-1"));
    assert!(!is_well_formed("h:8o"));
    assert!(!is_well_formed("h:80 "));
    assert!(!is_well_formed("h:\u{663}"));
}

#[test]
fn written_addresses_are_well_formed() {
    for port in [0u16, 1, 9, 10, 99, 100, 8080, 9999, 10000, 65534, 65535] {
        assert!(is_well_formed(&format_upstream("192.168.0.1", port)));
    }
    assert!(!is_well_formed(&format_upstream("", 80)));
}
