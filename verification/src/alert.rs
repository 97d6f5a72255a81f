//! Alerts: what a detection reports, and the text forms in which it is
//! written out.
use vstd::prelude::*;
use std::time::SystemTime;
use crate::clock::{calendar_stamp, is_calendar_stamp};
use crate::text::{decimal, push_decimal, push_text};

verus! {

/// The kind of hostile behaviour that was detected.
#[derive(Debug, Clone, Copy, PartialEq, Eq, Structural)]
pub enum AlertType {
    SSHBruteForce,
    DDOS,
    PortScan,
    WebEnum,
}

/// How serious an alert is.
#[derive(Debug, Clone, Copy, PartialEq, Eq, Structural)]
pub enum Risk {
    Low,
    Medium,
    High,
    Critical,
}

/// One detection.  `count` is the observation that crossed the threshold.
#[derive(Debug)]
pub struct Alert {
    pub timestamp: SystemTime,
    pub alert_type: AlertType,
    pub risk: Risk,
    pub source_ip: String,
    pub message: String,
    pub count: usize,
}

/// What an alert says, apart from the moment of its creation.
pub ghost struct AlertView {
    pub alert_type: AlertType,
    pub risk: Risk,
    pub source_ip: Seq<char>,
    pub message: Seq<char>,
    pub count: nat,
}

/// The two texts in which an alert leaves the engine.
pub struct AlertRecord {
    /// The line for standard output and the alert log.
    pub line: String,
    /// The message for the system log.
    pub syslog_message: String,
}

impl View for Alert {
    type V = AlertView;

    open spec fn view(&self) -> AlertView {
        AlertView {
            alert_type: self.alert_type,
            risk: self.risk,
            source_ip: self.source_ip@,
            message: self.message@,
            count: self.count as nat,
        }
    }
}

impl AlertType {
    /// The name under which the kind appears in an alert line.
    pub open spec fn label_spec(self) -> Seq<char> {
        match self {
            AlertType::SSHBruteForce => "SSH_BRUTE_FORCE"@,
            AlertType::DDOS => "DDOS"@,
            AlertType::PortScan => "PORT_SCAN"@,
            AlertType::WebEnum => "WEB_ENUM"@,
        }
    }

    /// The name under which the kind appears in an alert line.
    pub fn label(&self) -> (name: &'static str)
        ensures
            name@ == self.label_spec(),
    {
        match self {
            AlertType::SSHBruteForce => "SSH_BRUTE_FORCE",
            AlertType::DDOS => "DDOS",
            AlertType::PortScan => "PORT_SCAN",
            AlertType::WebEnum => "WEB_ENUM",
        }
    }
}

impl Risk {
    /// The name of the risk level, in capitals.
    pub open spec fn label_spec(self) -> Seq<char> {
        match self {
            Risk::Low => "LOW"@,
            Risk::Medium => "MEDIUM"@,
            Risk::High => "HIGH"@,
            Risk::Critical => "CRITICAL"@,
        }
    }

    /// The name of the risk level, in capitals.
    pub fn label(&self) -> (name: &'static str)
        ensures
            name@ == self.label_spec(),
    {
        match self {
            Risk::Low => "LOW",
            Risk::Medium => "MEDIUM",
            Risk::High => "HIGH",
            Risk::Critical => "CRITICAL",
        }
    }
}

/// What each alert of a list says, in the list's order.
pub open spec fn alert_views(alerts: Seq<Alert>) -> Seq<AlertView> {
    alerts.map_values(|a: Alert| a@)
}

/// Appends `alert`, if there is one, to `alerts`.
pub fn push_alert(alerts: &mut Vec<Alert>, alert: Option<Alert>)
    ensures
        alert_views(final(alerts)@) == alert_views(old(alerts)@) + (match alert {
            Some(a) => seq![a@],
            None => Seq::empty(),
        }),
{
    match alert {
        Some(a) => {
            alerts.push(a);
            assert(alert_views(alerts@) =~= alert_views(old(alerts)@) + seq![a@]);
        },
        None => {
            assert(alert_views(alerts@) =~= alert_views(old(alerts)@) + Seq::<AlertView>::empty());
        },
    }
}

/// The text is a calendar stamp, or empty, as the stamp of a creation time
/// is that the calendar cannot express.
pub open spec fn is_stamp_or_empty(text: Seq<char>) -> bool {
    text.len() == 0 || is_calendar_stamp(text)
}

/// The alert line: the stamp in square brackets, then kind, count, risk,
/// source and message, each under its heading.
pub open spec fn record_line(stamp: Seq<char>, alert: AlertView) -> Seq<char> {
    "["@ + stamp + "] - ["@ + alert.alert_type.label_spec() + "] - Attempts: "@ + decimal(
        alert.count,
    ) + " - Risk: "@ + alert.risk.label_spec() + " - Source IP: "@ + alert.source_ip
        + " - Message: "@ + alert.message
}

/// The short form of an alert: stamp, kind and message, then risk, source
/// and count in parentheses.
pub open spec fn summary_line(stamp: Seq<char>, alert: AlertView) -> Seq<char> {
    "["@ + stamp + "] "@ + alert.alert_type.label_spec() + " - "@ + alert.message + " (Risk: "@
        + alert.risk.label_spec() + ", IP: "@ + alert.source_ip + ", Count: "@ + decimal(
        alert.count,
    ) + ")"@
}

/// The message for the system log: the risk level, a colon, the message.
pub open spec fn syslog_text(alert: AlertView) -> Seq<char> {
    alert.risk.label_spec() + ": "@ + alert.message
}

impl Alert {
    /// An alert with the given content, stamped with the wall clock's time.
    pub fn new(
        alert_type: AlertType,
        risk: Risk,
        source_ip: String,
        message: String,
        count: usize,
    ) -> (alert: Alert)
        ensures
            alert@ == (AlertView {
                alert_type,
                risk,
                source_ip: source_ip@,
                message: message@,
                count: count as nat,
            }),
    {
        Alert { timestamp: SystemTime::now(), alert_type, risk, source_ip, message, count }
    }

    /// The alert line with `stamp` as the time of creation.
    pub fn format_record(&self, stamp: &str) -> (line: String)
        ensures
            line@ == record_line(stamp@, self@),
    {
        let mut line = String::new();
        push_text(&mut line, "[");
        push_text(&mut line, stamp);
        push_text(&mut line, "] - [");
        push_text(&mut line, self.alert_type.label());
        push_text(&mut line, "] - Attempts: ");
        push_decimal(&mut line, self.count as u64);
        push_text(&mut line, " - Risk: ");
        push_text(&mut line, self.risk.label());
        push_text(&mut line, " - Source IP: ");
        push_text(&mut line, self.source_ip.as_str());
        push_text(&mut line, " - Message: ");
        push_text(&mut line, self.message.as_str());
        assert(line@ =~= record_line(stamp@, self@));
        line
    }

    /// The short form of the alert with `stamp` as the time of creation.
    pub fn format_summary(&self, stamp: &str) -> (line: String)
        ensures
            line@ == summary_line(stamp@, self@),
    {
        let mut line = String::new();
        push_text(&mut line, "[");
        push_text(&mut line, stamp);
        push_text(&mut line, "] ");
        push_text(&mut line, self.alert_type.label());
        push_text(&mut line, " - ");
        push_text(&mut line, self.message.as_str());
        push_text(&mut line, " (Risk: ");
        push_text(&mut line, self.risk.label());
        push_text(&mut line, ", IP: ");
        push_text(&mut line, self.source_ip.as_str());
        push_text(&mut line, ", Count: ");
        push_decimal(&mut line, self.count as u64);
        push_text(&mut line, ")");
        assert(line@ =~= summary_line(stamp@, self@));
        line
    }

    /// The message for the system log.
    pub fn syslog_message(&self) -> (message: String)
        ensures
            message@ == syslog_text(self@),
    {
        let mut message = String::new();
        push_text(&mut message, self.risk.label());
        push_text(&mut message, ": ");
        push_text(&mut message, self.message.as_str());
        assert(message@ =~= syslog_text(self@));
        message
    }

    /// The creation time as `YYYY-MM-DD HH:MM:SS` in the machine's time
    /// zone; empty for a time that the calendar cannot express.
    fn stamp(&self) -> (stamp: String)
        ensures
            is_stamp_or_empty(stamp@),
    {
        match calendar_stamp(&self.timestamp) {
            Some(stamp) => stamp,
            None => String::new(),
        }
    }

    /// The texts to write out for this alert: the alert line, stamped with
    /// the creation time in the machine's time zone, and the message for the
    /// system log.  Writing them is left to the caller.
    pub fn generate_alert(&self) -> (record: AlertRecord)
        ensures
            exists|stamp: Seq<char>|
                is_stamp_or_empty(stamp) && record.line@ == #[trigger] record_line(stamp, self@),
            record.syslog_message@ == syslog_text(self@),
    {
        let stamp = self.stamp();
        let line = self.format_record(stamp.as_str());
        AlertRecord { line, syslog_message: self.syslog_message() }
    }
}

} // verus!
