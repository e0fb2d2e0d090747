use dyndns::ip::{is_ip, is_ipv4, is_ipv6};

#[test]
fn accepts_plain_ipv4() {
    assert!(is_ipv4("1.2.3.4"));
    assert!(is_ipv4("0.0.0.0"));
    assert!(is_ipv4("255.255.255.255"));
    assert!(is_ipv4("192.168.0.1"));
}

#[test]
fn rejects_bad_ipv4() {
    assert!(!is_ipv4(""));
    assert!(!is_ipv4("1.2.3"));
    assert!(!is_ipv4("1.2.3.4.5"));
    assert!(!is_ipv4("256.0.0.1"));
    assert!(!is_ipv4("1.2.3.256"));
    assert!(!is_ipv4("01.2.3.4"));
    assert!(!is_ipv4("1.2.3.04"));
    assert!(!is_ipv4("1..3.4"));
    assert!(!is_ipv4(".1.2.3"));
    assert!(!is_ipv4("1.2.3.4."));
    assert!(!is_ipv4("1.2.3.4 "));
    assert!(!is_ipv4("a.b.c.d"));
    assert!(!is_ipv4("1.2.3.1000"));
}

#[test]
fn accepts_plain_ipv6() {
    assert!(is_ipv6("::"));
    assert!(is_ipv6("::1"));
    assert!(is_ipv6("1::"));
    assert!(is_ipv6("2001:db8:0:0:0:0:2:1"));
    assert!(is_ipv6("2001:db8::2:1"));
    assert!(is_ipv6("fe80::1"));
    assert!(is_ipv6("0:0:0:0:0:0:0:1"));
    assert!(is_ipv6("1:2:3:4:5:6:7:8"));
    assert!(is_ipv6("1:2:3:4:5:6:7::"));
    assert!(is_ipv6("ABCD:EF01:2345:6789:abcd:ef01:2345:6789"));
}

#[test]
fn accepts_embedded_ipv4_tail() {
    assert!(is_ipv6("::ffff:192.168.1.1"));
    assert!(is_ipv6("::1.2.3.4"));
    assert!(is_ipv6("1:2:3:4:5:6:1.2.3.4"));
    assert!(is_ipv6("64:ff9b::192.0.2.33"));
}

#[test]
fn rejects_bad_ipv6() {
    assert!(!is_ipv6(""));
    assert!(!is_ipv6(":"));
    assert!(!is_ipv6(":::"));
    assert!(!is_ipv6(":1:2:3:4:5:6:7"));
    assert!(!is_ipv6("1:2:3:4:5:6:7"));
    assert!(!is_ipv6("1:2:3:4:5:6:7:8:9"));
    assert!(!is_ipv6("1:2:3:4:5:6:7:8::"));
    assert!(!is_ipv6("::1:2:3:4:5:6:7:8"));
    assert!(!is_ipv6("1::2::3"));
    assert!(!is_ipv6("12345::"));
    assert!(!is_ipv6("1:2:3:4:5:6:7:g"));
    assert!(!is_ipv6("1:2:3:4:5:6:1.2.3.4.5"));
    assert!(!is_ipv6("1:2:3:4:5:6:7:1.2.3.4"));
    assert!(!is_ipv6("1:2:3:4:5:6:1.2.3.256"));
    assert!(!is_ipv6("1:2:3:4:5:6:01.2.3.4"));
    assert!(!is_ipv6("1:2:"));
}

#[test]
fn either_family_through_is_ip() {
    assert!(is_ip("93.184.216.34"));
    assert!(is_ip("2606:2800:220:1:248:1893:25c8:1946"));
    assert!(!is_ip("example.com"));
    assert!(!is_ip("93.184.216.34\n"));
    assert!(!is_ip(" 93.184.216.34"));
}
