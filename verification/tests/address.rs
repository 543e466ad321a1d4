use ssher::address::is_numeric_address;

#[test]
fn dotted_quads_are_numeric() {
    for host in ["198.51.100.7", "127.0.0.1", "0.0.0.0", "255.255.255.255", "1.2.3.4"] {
        assert!(is_numeric_address(host), "{}", host);
    }
}

#[test]
fn malformed_dotted_quads_are_names() {
    for host in [
        "", "1.2.3", "1.2.3.4.5", "256.1.1.1", "1.2.3.256", "01.2.3.4", "1.2.3.04", "1..3.4",
        ".1.2.3", "1.2.3.4.", "1.2.3.4 ", " 1.2.3.4", "1.2.3.a", "1234.1.1.1", "1.2.3.-4",
        "+1.2.3.4", "localhost", "example.com", "1.2.3.4:22", "\u{661}.2.3.4",
    ] {
        assert!(!is_numeric_address(host), "{}", host);
    }
}

#[test]
fn ipv6_literals_are_numeric() {
    for host in [
        "::", "::1", "1::", "2001:db8::1", "2001:0db8:0000:0000:0000:0000:0000:0001",
        "1:2:3:4:5:6:7:8", "1:2:3:4:5:6:7::", "::2:3:4:5:6:7:8", "1::8", "fe80::1",
        "FE80::ABCD", "::ffff:192.0.2.1", "::192.0.2.1", "1:2:3:4:5:6:1.2.3.4",
        "64:ff9b::192.0.2.33", "1:2:3:4:5::1.2.3.4", "::1.2.3.4",
    ] {
        assert!(is_numeric_address(host), "{}", host);
    }
}

#[test]
fn malformed_ipv6_literals_are_names() {
    for host in [
        ":", ":::", "1:2:3:4:5:6:7", "1:2:3:4:5:6:7:8:9", "1::2::3", "12345::", "::12345",
        "g::1", "1:2:3:4:5:6:7:8::", "::1:2:3:4:5:6:7:8", "1.2.3.4::", "1.2.3.4::1",
        "1:2:3:4:5:6:7:1.2.3.4", "::1.2.3", "::1.2.3.4:5", "::1.2.3.256", "fe80::1%eth0",
        "[::1]", "::1 ", ":1", "1:", "1:::2", "::01.2.3.4", "1:2:3:4:5:6:7:",
        "1:2:3:4:5:6::1.2.3.4",
    ] {
        assert!(!is_numeric_address(host), "{}", host);
    }
}
