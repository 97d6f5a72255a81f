//! The engine's fixed settings: log paths, thresholds and window lengths.
use vstd::prelude::*;

verus! {

/// The log of SSH authentication events.
pub const SSH_LOG_PATH: &'static str = "/var/log/auth.log";

/// The web server's access log.
pub const WEB_LOG_PATH: &'static str = "/var/log/apache2/access.log";

/// The file to which alerts are appended.
pub const ALERT_LOG_PATH: &'static str = "/opt/log/ids/ids_alert.log";

/// The port that an SSH scan signature is counted against.
pub const SSH_PORT: u16 = 22;

/// Failed authentications inside the window that make a brute-force alert.
pub const SSH_ATTEMPTS: usize = 5;

/// Seconds of the window for SSH attempts.
pub const SSH_WINDOW: u64 = 60;

/// Seconds of the window for web requests.
pub const WEB_WINDOW: u64 = 5;

/// Distinct destination ports that make a port-scan alert.
pub const PORT_SCAN_THRESHOLD: usize = 100;

/// SYN packets inside the window beyond which a flood is reported.
pub const SYN_FLOOD_THRESHOLD: usize = 500;

/// Seconds of the window for SYN packets.
pub const SYN_WINDOW: u64 = 1;

/// The source address whose packets are ignored.
pub const SELF_IP_FILTER: &'static str = "192.168.56.101";

/// The settings as one value.  Windows are in seconds.
pub struct Config {
    pub file_ssh_log: &'static str,
    pub file_web_log: &'static str,
    pub ssh_port: u16,
    pub ssh_attempts: usize,
    pub ssh_window: u64,
    pub web_window: u64,
    pub port_scan_threshold: usize,
    pub syn_flood_threshold: usize,
    pub syn_window: u64,
    pub self_ip_filter: &'static str,
    pub file_alert: &'static str,
}

impl Config {
    /// The settings the engine runs with.
    pub fn get() -> (config: Config)
        ensures
            config.file_ssh_log@ == SSH_LOG_PATH@,
            config.file_web_log@ == WEB_LOG_PATH@,
            config.ssh_port == SSH_PORT,
            config.ssh_attempts == SSH_ATTEMPTS,
            config.ssh_window == SSH_WINDOW,
            config.web_window == WEB_WINDOW,
            config.port_scan_threshold == PORT_SCAN_THRESHOLD,
            config.syn_flood_threshold == SYN_FLOOD_THRESHOLD,
            config.syn_window == SYN_WINDOW,
            config.self_ip_filter@ == SELF_IP_FILTER@,
            config.file_alert@ == ALERT_LOG_PATH@,
    {
        Config {
            file_ssh_log: SSH_LOG_PATH,
            file_web_log: WEB_LOG_PATH,
            ssh_port: SSH_PORT,
            ssh_attempts: SSH_ATTEMPTS,
            ssh_window: SSH_WINDOW,
            web_window: WEB_WINDOW,
            port_scan_threshold: PORT_SCAN_THRESHOLD,
            syn_flood_threshold: SYN_FLOOD_THRESHOLD,
            syn_window: SYN_WINDOW,
            self_ip_filter: SELF_IP_FILTER,
            file_alert: ALERT_LOG_PATH,
        }
    }
}

} // verus!
