use ids::detector::Detector;
use ids::patterns::{
    enumeration_description, enumeration_pattern, failed_auth_pattern, find_enumeration,
    matches_failed_auth, matches_ssh_scan,
};
use ids::text::{push_decimal, push_hex_byte, push_text, same_text};
use ids::window::{is_within, retain_recent};

#[test]
fn test_ip_extraction() {
    let test_cases = vec![
        (
            "Failed password for root from 192.168.1.100",
            Some("192.168.1.100"),
        ),
        ("Invalid user admin from 10.0.0.50", Some("10.0.0.50")),
        ("Connection from 172.16.0.1 port 22", Some("172.16.0.1")),
        ("No IP in this line", None),
        (
            "Multiple IPs 192.168.1.1 and 192.168.1.2",
            Some("192.168.1.1"),
        ),
        ("IPv6: 2001:db8::1", None),
        ("", None),
    ];

    for (line, expected) in test_cases {
        let result = Detector::extract_ip_from_line(line);
        assert_eq!(result.as_deref(), expected);
    }
}

#[test]
fn ip_extraction_does_not_check_octets() {
    assert_eq!(Detector::extract_ip_from_line("from 999.999.999.999").as_deref(), Some("999.999.999.999"));
    assert_eq!(Detector::extract_ip_from_line("from 1234.1.1.1"), None);
    assert_eq!(Detector::extract_ip_from_line("x1.2.3.4").as_deref(), None);
    assert_eq!(Detector::extract_ip_from_line("1.2.3.4.5").as_deref(), Some("1.2.3.4"));
    let line = "a 10.0.0.1 b";
    assert_eq!(Detector::extract_ip_from_line(line), Detector::extract_ip_from_line(line));
}

#[test]
fn decimal_numerals() {
    for (n, text) in [
        (0u64, "0"),
        (7, "7"),
        (10, "10"),
        (99, "99"),
        (100, "100"),
        (501, "501"),
        (u64::MAX, "18446744073709551615"),
    ] {
        let mut out = String::from("n=");
        push_decimal(&mut out, n);
        assert_eq!(out, format!("n={}", text));
    }
}

#[test]
fn hexadecimal_bytes() {
    for (b, text) in [(0u8, "00"), (9, "09"), (10, "0a"), (0xab, "ab"), (0xf0, "f0"), (255, "ff")] {
        let mut out = String::new();
        push_hex_byte(&mut out, b);
        assert_eq!(out, text);
    }
    let mut out = String::from("a");
    push_text(&mut out, "bc");
    assert_eq!(out, "abc");
}

#[test]
fn text_equality() {
    assert!(same_text("TCP", "TCP"));
    assert!(!same_text("TCP", "UDP"));
    assert!(!same_text("TCP", "TCPX"));
    assert!(!same_text("", "a"));
    assert!(same_text("", ""));
    assert!(same_text("h\u{e9}", "h\u{e9}"));
    assert!(!same_text("h\u{e9}", "h\u{e8}"));
}

#[test]
fn failed_auth_patterns() {
    assert!(matches_failed_auth("Failed password for root from 1.2.3.4 port 22"));
    assert!(matches_failed_auth("Invalid user bob from 1.2.3.4"));
    assert!(matches_failed_auth("authentication failure; logname= rhost=1.2.3.4"));
    assert!(!matches_failed_auth("Accepted password for root from 1.2.3.4"));
    assert!(!matches_failed_auth("Failed password for root from host.example"));
    assert!(!matches_failed_auth("failed password for root from 1.2.3.4"));
    assert_eq!(failed_auth_pattern(0), r"Failed password for .* from (\d+\.\d+\.\d+\.\d+)");
    assert_eq!(failed_auth_pattern(1), r"Invalid user .* from (\d+\.\d+\.\d+\.\d+)");
    assert_eq!(failed_auth_pattern(2), r"authentication failure.*rhost=(\d+\.\d+\.\d+\.\d+)");
}

#[test]
fn ssh_scan_signatures() {
    assert!(matches_ssh_scan("x Did not receive identification string from 1.2.3.4"));
    assert!(matches_ssh_scan("Bad protocol version identification"));
    assert!(!matches_ssh_scan("did not receive identification string"));
    assert!(!matches_ssh_scan("Bad protocol version"));
    assert!(!matches_ssh_scan(""));
}

#[test]
fn enumeration_table() {
    let expected = [
        (r"/admin", "Admin access"),
        (r"/wp-admin", "WordPress admin"),
        (r"\.git/", "Git directory"),
        (r"/backup", "Backup directory"),
        (r"/phpmyadmin", "phpMyAdmin"),
        (r"/server-status", "Apache status"),
        (r"/cgi-bin/", "CGI scripts"),
        (r"robots\.txt", "Robots file"),
        (r"union.*select", "SQL injection"),
        (r"<script>", "XSS attempt"),
        (r"\.\./", "Directory traversal"),
        (r"\.env", "Environment file"),
        (r"/wp-json", "WordPress API"),
        (r"xmlrpc\.php", "XML-RPC"),
    ];
    for (i, (pattern, description)) in expected.iter().enumerate() {
        assert_eq!(enumeration_pattern(i), *pattern);
        assert_eq!(enumeration_description(i), *description);
    }
    assert_eq!(find_enumeration("GET /index.html"), None);
    assert_eq!(find_enumeration("GET /Admin"), Some(0));
    assert_eq!(find_enumeration("GET /wp-admin"), Some(1));
    assert_eq!(find_enumeration("GET /.git/HEAD"), Some(2));
    assert_eq!(find_enumeration("GET /agit/HEAD"), None);
    assert_eq!(find_enumeration("GET /ROBOTS.TXT"), Some(7));
    assert_eq!(find_enumeration("GET /robotsxtxt"), None);
    assert_eq!(find_enumeration("GET /xmlrpc.php"), Some(13));
}

#[test]
fn window_membership() {
    let second: i128 = 1_000_000_000;
    assert!(is_within(100, 1, 100));
    assert!(is_within(100, 1, 200));
    assert!(is_within(second, 1, 1));
    assert!(!is_within(second, 1, 0));
    assert!(!is_within(100, 0, 100));
    assert!(!is_within(i128::MAX, 60, i128::MIN));
    assert!(is_within(i128::MIN, 60, i128::MAX));
    assert_eq!(
        retain_recent(&vec![0, 1, second, 5, 2 * second], second, 1),
        vec![1, second, 5, 2 * second]
    );
    assert_eq!(retain_recent(&vec![], 0, 1), Vec::<i128>::new());
}
