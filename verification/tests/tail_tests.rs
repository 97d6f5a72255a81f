use ids::alert::AlertType;
use ids::config::{SSH_LOG_PATH, WEB_LOG_PATH};
use ids::detector::Detector;
use ids::tail::{LogKind, TailEvent, TailPlan};

#[test]
fn cold_start_stores_the_size_and_reads_nothing() {
    let mut detector = Detector::new();
    assert_eq!(detector.tail_plan(SSH_LOG_PATH), TailPlan::SeekEnd);
    let alerts = detector.monitor_ssh_logs(&TailEvent::AtEnd(4096));
    assert!(alerts.is_empty());
    assert_eq!(detector.last_positions.get(SSH_LOG_PATH), Some(&4096));
    assert!(detector.ssh_attempts.is_empty());
    assert!(detector.port_scans.is_empty());
    assert_eq!(detector.tail_plan(SSH_LOG_PATH), TailPlan::ReadFrom(4096));
    assert_eq!(detector.tail_plan(WEB_LOG_PATH), TailPlan::SeekEnd);
}

#[test]
fn data_for_an_unseen_file_is_not_taken_in() {
    let mut detector = Detector::new();
    let data = b"Failed password for root from 1.2.3.4\n".to_vec();
    let alerts = detector.monitor_ssh_logs(&TailEvent::Data(data));
    assert!(alerts.is_empty());
    assert!(detector.ssh_attempts.is_empty());
    assert!(detector.last_positions.is_empty());
}

#[test]
fn empty_file_stays_unseen() {
    let mut detector = Detector::new();
    assert!(detector.monitor_web_logs(&TailEvent::AtEnd(0)).is_empty());
    assert_eq!(detector.tail_plan(WEB_LOG_PATH), TailPlan::SeekEnd);
    assert!(detector.monitor_web_logs(&TailEvent::AtEnd(77)).is_empty());
    assert_eq!(detector.tail_plan(WEB_LOG_PATH), TailPlan::ReadFrom(77));
    // A size report for a file that is being read changes nothing.
    assert!(detector.monitor_web_logs(&TailEvent::AtEnd(500)).is_empty());
    assert_eq!(detector.last_positions.get(WEB_LOG_PATH), Some(&77));
}

#[test]
fn unavailable_file_changes_nothing() {
    let mut detector = Detector::new();
    let _ = detector.monitor_ssh_logs(&TailEvent::AtEnd(10));
    assert!(detector.monitor_ssh_logs(&TailEvent::Unavailable).is_empty());
    assert_eq!(detector.last_positions.get(SSH_LOG_PATH), Some(&10));
    assert!(detector.monitor_web_logs(&TailEvent::Unavailable).is_empty());
    assert!(!detector.last_positions.contains_key(WEB_LOG_PATH));
}

#[test]
fn lines_are_taken_in_and_the_offset_moves_on() {
    let mut detector = Detector::new();
    let _ = detector.monitor_ssh_logs(&TailEvent::AtEnd(100));
    let mut data = Vec::new();
    for _ in 0..4 {
        data.extend_from_slice(b"sshd: Failed password for root from 192.168.1.100 port 22\n");
    }
    data.extend_from_slice(b"sshd: session opened for user root\n");
    let len = data.len() as u64;
    let alerts = detector.monitor_ssh_logs(&TailEvent::Data(data));
    assert!(alerts.is_empty());
    assert_eq!(detector.ssh_attempts.get("192.168.1.100").unwrap().len(), 4);
    assert_eq!(detector.last_positions.get(SSH_LOG_PATH), Some(&(100 + len)));

    // A last line without line feed is taken in too.
    let data = b"sshd: Invalid user admin from 192.168.1.100".to_vec();
    let len2 = data.len() as u64;
    let alerts = detector.monitor_ssh_logs(&TailEvent::Data(data));
    assert_eq!(alerts.len(), 1);
    assert_eq!(alerts[0].alert_type, AlertType::SSHBruteForce);
    assert_eq!(alerts[0].count, 5);
    assert_eq!(detector.last_positions.get(SSH_LOG_PATH), Some(&(100 + len + len2)));

    // Nothing new: the offset stays.
    let alerts = detector.monitor_ssh_logs(&TailEvent::Data(Vec::new()));
    assert!(alerts.is_empty());
    assert_eq!(detector.last_positions.get(SSH_LOG_PATH), Some(&(100 + len + len2)));
}

#[test]
fn pass_stops_before_a_line_that_is_not_utf8() {
    let mut detector = Detector::new();
    let _ = detector.monitor_web_logs_at(&TailEvent::AtEnd(1), 0);
    let first = b"10.0.0.100 GET /index.html\n";
    let mut data = first.to_vec();
    data.extend_from_slice(b"10.0.0.100 GET /\xff\xfe\n");
    data.extend_from_slice(b"10.0.0.100 GET /admin\n");
    let alerts = detector.monitor_web_logs_at(&TailEvent::Data(data), 5);
    assert!(alerts.is_empty());
    assert_eq!(detector.web_requests.get("10.0.0.100").unwrap(), &vec![5]);
    assert_eq!(detector.last_positions.get(WEB_LOG_PATH), Some(&(1 + first.len() as u64)));
}

#[test]
fn web_log_lines_raise_enumeration_alerts() {
    let mut detector = Detector::new();
    let _ = detector.monitor_web_logs(&TailEvent::AtEnd(10));
    let data = b"10.0.0.100 - - \"GET /wp-admin/ HTTP/1.1\" 404\n\
                 10.0.0.100 - - \"GET /index.html HTTP/1.1\" 200\n\
                 \n\
                 10.0.0.101 - - \"GET /.env HTTP/1.1\" 404\r\n"
        .to_vec();
    let len = data.len() as u64;
    let alerts = detector.monitor_log_at(LogKind::Web, &TailEvent::Data(data), 9);
    assert_eq!(alerts.len(), 2);
    assert_eq!(alerts[0].source_ip, "10.0.0.100");
    assert_eq!(alerts[0].message, "Web enumeration detected: WordPress admin");
    assert_eq!(alerts[1].source_ip, "10.0.0.101");
    assert_eq!(alerts[1].message, "Web enumeration detected: Environment file");
    assert_eq!(detector.web_requests.get("10.0.0.100").unwrap(), &vec![9, 9]);
    assert_eq!(detector.last_positions.get(WEB_LOG_PATH), Some(&(10 + len)));
}

#[test]
fn both_logs_in_one_pass() {
    let mut detector = Detector::new();
    let alerts = detector.monitor_logs(&TailEvent::AtEnd(5), &TailEvent::AtEnd(6));
    assert!(alerts.is_empty());
    assert_eq!(detector.last_positions.len(), 2);
    let ssh = TailEvent::Data(b"Did not receive identification string from 10.0.0.9\n".to_vec());
    let web = TailEvent::Data(b"10.0.0.9 GET /phpmyadmin/\n".to_vec());
    let alerts = detector.monitor_logs_at(&ssh, &web, 3);
    assert_eq!(alerts.len(), 1);
    assert_eq!(alerts[0].alert_type, AlertType::WebEnum);
    assert!(detector.port_scans.get("10.0.0.9").unwrap().contains(&22));
    assert_eq!(detector.last_positions.get(SSH_LOG_PATH), Some(&(5 + 52)));
    assert_eq!(detector.last_positions.get(WEB_LOG_PATH), Some(&(6 + 26)));
    let alerts = detector.monitor_ssh_logs_at(&TailEvent::Unavailable, 4);
    assert!(alerts.is_empty());
}

#[test]
fn data_that_cannot_lie_behind_the_offset_is_ignored() {
    let mut detector = Detector::new();
    let _ = detector.monitor_ssh_logs(&TailEvent::AtEnd(u64::MAX));
    let alerts = detector
        .monitor_ssh_logs(&TailEvent::Data(b"Failed password for root from 1.2.3.4\n".to_vec()));
    assert!(alerts.is_empty());
    assert!(detector.ssh_attempts.is_empty());
    assert_eq!(detector.last_positions.get(SSH_LOG_PATH), Some(&u64::MAX));
}
