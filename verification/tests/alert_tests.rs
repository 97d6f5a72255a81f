use ids::alert::{Alert, AlertType, Risk};
use std::time::{Duration, SystemTime};

#[test]
fn test_alert_creation() {
    let alert = Alert::new(
        AlertType::SSHBruteForce,
        Risk::Critical,
        "192.168.1.100".to_string(),
        "Test alert".to_string(),
        5,
    );

    assert_eq!(alert.source_ip, "192.168.1.100");
    assert_eq!(alert.message, "Test alert");
    assert_eq!(alert.count, 5);

    let now = SystemTime::now();
    let elapsed = now.duration_since(alert.timestamp).unwrap();
    assert!(elapsed < Duration::from_secs(1));
}

#[test]
fn test_alert_type_variants() {
    let types = vec![
        AlertType::SSHBruteForce,
        AlertType::DDOS,
        AlertType::PortScan,
        AlertType::WebEnum,
    ];

    for alert_type in types {
        let alert = Alert::new(
            alert_type,
            Risk::Medium,
            "192.168.1.1".to_string(),
            "Test".to_string(),
            1,
        );
        assert!(!alert.source_ip.is_empty());
        assert_eq!(alert.alert_type, alert_type);
    }
}

#[test]
fn test_risk_levels() {
    let risks = vec![Risk::Low, Risk::Medium, Risk::High, Risk::Critical];
    let labels = vec!["LOW", "MEDIUM", "HIGH", "CRITICAL"];

    for (risk, label) in risks.into_iter().zip(labels) {
        let alert = Alert::new(
            AlertType::PortScan,
            risk,
            "192.168.1.1".to_string(),
            "Test".to_string(),
            1,
        );

        let record = alert.generate_alert();
        assert_eq!(record.syslog_message, format!("{}: Test", label));
        assert!(record.line.ends_with(&format!(
            "] - [PORT_SCAN] - Attempts: 1 - Risk: {} - Source IP: 192.168.1.1 - Message: Test",
            label
        )));
    }
}

#[test]
fn alert_type_labels() {
    assert_eq!(AlertType::SSHBruteForce.label(), "SSH_BRUTE_FORCE");
    assert_eq!(AlertType::DDOS.label(), "DDOS");
    assert_eq!(AlertType::PortScan.label(), "PORT_SCAN");
    assert_eq!(AlertType::WebEnum.label(), "WEB_ENUM");
}

#[test]
fn format_record_is_exact() {
    let alert = Alert::new(
        AlertType::SSHBruteForce,
        Risk::Critical,
        "192.168.1.100".to_string(),
        "Brute force SSH detected: 5 attempts in 60 seconds".to_string(),
        5,
    );
    assert_eq!(
        alert.format_record("2024-03-01 12:30:45"),
        "[2024-03-01 12:30:45] - [SSH_BRUTE_FORCE] - Attempts: 5 - Risk: CRITICAL - \
         Source IP: 192.168.1.100 - Message: Brute force SSH detected: 5 attempts in 60 seconds"
    );
}

#[test]
fn format_record_with_large_count_and_zero() {
    let zero = Alert::new(AlertType::DDOS, Risk::Low, "1.2.3.4".to_string(), "m".to_string(), 0);
    assert_eq!(
        zero.format_record("s"),
        "[s] - [DDOS] - Attempts: 0 - Risk: LOW - Source IP: 1.2.3.4 - Message: m"
    );
    let big = Alert::new(
        AlertType::WebEnum,
        Risk::Medium,
        "1.2.3.4".to_string(),
        "m".to_string(),
        1234567890,
    );
    assert_eq!(
        big.format_record(""),
        "[] - [WEB_ENUM] - Attempts: 1234567890 - Risk: MEDIUM - Source IP: 1.2.3.4 - Message: m"
    );
}

#[test]
fn format_summary_is_exact() {
    let alert = Alert::new(
        AlertType::PortScan,
        Risk::High,
        "10.0.0.50".to_string(),
        "Port scan detected: 100 distinct ports".to_string(),
        100,
    );
    assert_eq!(
        alert.format_summary("2024-03-01 12:30:45"),
        "[2024-03-01 12:30:45] PORT_SCAN - Port scan detected: 100 distinct ports \
         (Risk: HIGH, IP: 10.0.0.50, Count: 100)"
    );
}

#[test]
fn syslog_message_has_risk_prefix() {
    let alert = Alert::new(
        AlertType::SSHBruteForce,
        Risk::Critical,
        "192.168.1.100".to_string(),
        "Brute force".to_string(),
        5,
    );
    assert_eq!(alert.syslog_message(), "CRITICAL: Brute force");
}

#[test]
fn generated_line_has_the_documented_shape() {
    let alert = Alert::new(
        AlertType::SSHBruteForce,
        Risk::Critical,
        "192.168.1.100".to_string(),
        "Test alert".to_string(),
        5,
    );
    let record = alert.generate_alert();
    let shape = regex::Regex::new(
        r"^\[\d{4}-\d{2}-\d{2} \d{2}:\d{2}:\d{2}\] - \[SSH_BRUTE_FORCE\] - Attempts: 5 - Risk: CRITICAL - Source IP: 192\.168\.1\.100 - Message: Test alert$",
    )
    .unwrap();
    assert!(shape.is_match(&record.line), "line was {:?}", record.line);
    assert!(record.syslog_message.starts_with("CRITICAL:"));
    let stamp = &record.line[1..20];
    assert_eq!(record.line, alert.format_record(stamp));
}

#[test]
fn stamp_of_a_time_before_1970_is_empty() {
    let mut alert = Alert::new(
        AlertType::DDOS,
        Risk::Low,
        "1.2.3.4".to_string(),
        "m".to_string(),
        1,
    );
    alert.timestamp = SystemTime::UNIX_EPOCH - Duration::from_secs(10);
    assert_eq!(alert.generate_alert().line, alert.format_record(""));
    alert.timestamp = SystemTime::UNIX_EPOCH + Duration::from_secs(86_400 * 365);
    let line = alert.generate_alert().line;
    assert_eq!(line.find(']'), Some(20));
    assert!(line.starts_with("[197"));
}
