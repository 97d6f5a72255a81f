//! The detection engine: per-address counters under sliding windows, and the
//! alerts that their thresholds raise.
use vstd::prelude::*;
use std::collections::HashSet;
use std::time::Instant;
use crate::alert::{alert_views, push_alert, Alert, AlertType, AlertView, Risk};
use crate::clock::nanos_since;
use crate::config::{
    PORT_SCAN_THRESHOLD, SSH_ATTEMPTS, SSH_PORT, SSH_WINDOW, SYN_FLOOD_THRESHOLD, SYN_WINDOW,
    WEB_WINDOW,
};
use crate::patterns::{
    enumeration_description, enumeration_description_spec, enumeration_hit, extracted_ip,
    find_enumeration, is_failed_auth, is_ssh_scan, matches_failed_auth, matches_ssh_scan,
    pattern_find, ENUMERATION_PATTERNS, IP_PATTERN,
};
use crate::table::{evictor, idle_keys, StringTable};
use crate::text::{decimal, occurs_in, push_decimal, push_text, same_text};
use crate::window::{retain_recent, touched};

verus! {

/// The state of the engine.  Timestamps count nanoseconds since the
/// detector was made; an earlier moment has a negative timestamp.
pub struct Detector {
    /// Recent failed SSH authentications of each address.
    pub ssh_attempts: StringTable<Vec<i128>>,
    /// Recent web requests of each address.
    pub web_requests: StringTable<Vec<i128>>,
    /// The distinct destination ports that each address has contacted.
    pub port_scans: StringTable<HashSet<u16>>,
    /// Recent TCP SYN packets of each address.
    pub syn_connections: StringTable<Vec<i128>>,
    /// How far each log file has been read, in bytes.
    pub last_positions: StringTable<u64>,
    /// The moment from which the detector's clock counts.
    pub epoch: Instant,
}

/// The five tables of a detector as maps.
pub ghost struct DetectorView {
    pub ssh_attempts: Map<Seq<char>, Seq<i128>>,
    pub web_requests: Map<Seq<char>, Seq<i128>>,
    pub port_scans: Map<Seq<char>, Set<u16>>,
    pub syn_connections: Map<Seq<char>, Seq<i128>>,
    pub last_positions: Map<Seq<char>, u64>,
}

/// The timestamps recorded for `ip`; none where it has no entry.
pub open spec fn times_of(table: Map<Seq<char>, Seq<i128>>, ip: Seq<char>) -> Seq<i128> {
    if table.contains_key(ip) {
        table[ip]
    } else {
        Seq::empty()
    }
}

/// The ports recorded for `ip`; none where it has no entry.
pub open spec fn ports_of(table: Map<Seq<char>, Set<u16>>, ip: Seq<char>) -> Set<u16> {
    if table.contains_key(ip) {
        table[ip]
    } else {
        Set::empty()
    }
}

/// The attempts of `ip` that count at `now`, this one included.
pub open spec fn ssh_count(d: DetectorView, ip: Seq<char>, now: i128) -> nat {
    touched(times_of(d.ssh_attempts, ip), now, SSH_WINDOW).len()
}

/// A failed authentication of `ip` at `now` raises the brute-force alert.
pub open spec fn ssh_fires(d: DetectorView, ip: Seq<char>, now: i128) -> bool {
    ssh_count(d, ip, now) >= SSH_ATTEMPTS
}

/// The state after a failed authentication of `ip` at `now`.
pub open spec fn after_ssh_attempt(d: DetectorView, ip: Seq<char>, now: i128) -> DetectorView {
    DetectorView {
        ssh_attempts: d.ssh_attempts.insert(
            ip,
            if ssh_fires(d, ip, now) {
                Seq::empty()
            } else {
                touched(times_of(d.ssh_attempts, ip), now, SSH_WINDOW)
            },
        ),
        ..d
    }
}

/// The message of a brute-force alert for `count` attempts.
pub open spec fn ssh_message(count: nat) -> Seq<char> {
    "Brute force SSH detected: "@ + decimal(count) + " attempts in "@ + decimal(SSH_WINDOW as nat)
        + " seconds"@
}

/// The brute-force alert for `count` attempts of `ip`.
pub open spec fn ssh_alert(ip: Seq<char>, count: nat) -> AlertView {
    AlertView {
        alert_type: AlertType::SSHBruteForce,
        risk: Risk::Critical,
        source_ip: ip,
        message: ssh_message(count),
        count,
    }
}

/// The state after a web request of `ip` at `now`.
pub open spec fn after_web_request(d: DetectorView, ip: Seq<char>, now: i128) -> DetectorView {
    DetectorView {
        web_requests: d.web_requests.insert(
            ip,
            touched(times_of(d.web_requests, ip), now, WEB_WINDOW),
        ),
        ..d
    }
}

/// The distinct ports of `ip` once it has contacted `port`.
pub open spec fn ports_after(d: DetectorView, ip: Seq<char>, port: u16) -> Set<u16> {
    ports_of(d.port_scans, ip).insert(port)
}

/// A contact of `ip` with `port` raises the port-scan alert.
pub open spec fn scan_fires(d: DetectorView, ip: Seq<char>, port: u16) -> bool {
    ports_after(d, ip, port).len() >= PORT_SCAN_THRESHOLD
}

/// The state after `ip` has contacted `port`.
pub open spec fn after_port_contact(d: DetectorView, ip: Seq<char>, port: u16) -> DetectorView {
    DetectorView {
        port_scans: d.port_scans.insert(
            ip,
            if scan_fires(d, ip, port) {
                Set::empty()
            } else {
                ports_after(d, ip, port)
            },
        ),
        ..d
    }
}

/// The message of a port-scan alert for `count` distinct ports.
pub open spec fn scan_message(count: nat) -> Seq<char> {
    "Port scan detected: "@ + decimal(count) + " distinct ports"@
}

/// The port-scan alert for `count` distinct ports of `ip`.
pub open spec fn scan_alert(ip: Seq<char>, count: nat) -> AlertView {
    AlertView {
        alert_type: AlertType::PortScan,
        risk: Risk::High,
        source_ip: ip,
        message: scan_message(count),
        count,
    }
}

/// The SYN packets of `ip` that count at `now`, this one included.
pub open spec fn syn_count(d: DetectorView, ip: Seq<char>, now: i128) -> nat {
    touched(times_of(d.syn_connections, ip), now, SYN_WINDOW).len()
}

/// A SYN packet of `ip` at `now` raises the flood alert.
pub open spec fn syn_fires(d: DetectorView, ip: Seq<char>, now: i128) -> bool {
    syn_count(d, ip, now) > SYN_FLOOD_THRESHOLD
}

/// The state after a SYN packet of `ip` at `now`.
pub open spec fn after_syn(d: DetectorView, ip: Seq<char>, now: i128) -> DetectorView {
    DetectorView {
        syn_connections: d.syn_connections.insert(
            ip,
            if syn_fires(d, ip, now) {
                Seq::empty()
            } else {
                touched(times_of(d.syn_connections, ip), now, SYN_WINDOW)
            },
        ),
        ..d
    }
}

/// The message of a flood alert for `count` SYN packets.
pub open spec fn syn_message(count: nat) -> Seq<char> {
    "SYN Flood DDOS detected: "@ + decimal(count) + " SYN/second"@
}

/// The flood alert for `count` SYN packets of `ip`.
pub open spec fn syn_alert(ip: Seq<char>, count: nat) -> AlertView {
    AlertView {
        alert_type: AlertType::DDOS,
        risk: Risk::Critical,
        source_ip: ip,
        message: syn_message(count),
        count,
    }
}

/// The packet is a TCP packet with the SYN flag set.
pub open spec fn is_syn(protocol: Seq<char>, flags: u8) -> bool {
    protocol == "TCP"@ && flags & 0x02 != 0
}

/// The state after a packet from `ip` to `port` at `now`: the port is
/// counted, and then the SYN if the packet is one.
pub open spec fn after_packet(
    d: DetectorView,
    ip: Seq<char>,
    port: u16,
    protocol: Seq<char>,
    flags: u8,
    now: i128,
) -> DetectorView {
    let counted = after_port_contact(d, ip, port);
    if is_syn(protocol, flags) {
        after_syn(counted, ip, now)
    } else {
        counted
    }
}

/// The alerts that a packet from `ip` to `port` at `now` raises: the
/// port-scan alert first, then the flood alert.
pub open spec fn packet_alerts(
    d: DetectorView,
    ip: Seq<char>,
    port: u16,
    protocol: Seq<char>,
    flags: u8,
    now: i128,
) -> Seq<AlertView> {
    let counted = after_port_contact(d, ip, port);
    (if scan_fires(d, ip, port) {
        seq![scan_alert(ip, ports_after(d, ip, port).len())]
    } else {
        Seq::empty()
    }) + (if is_syn(protocol, flags) && syn_fires(counted, ip, now) {
        seq![syn_alert(ip, syn_count(counted, ip, now))]
    } else {
        Seq::empty()
    })
}

/// The message of an enumeration alert for the `hit`-th pattern.
pub open spec fn enumeration_message(hit: int) -> Seq<char> {
    "Web enumeration detected: "@ + enumeration_description_spec(hit)
}

/// The enumeration alert for the `hit`-th pattern, tripped by `ip`.
pub open spec fn enumeration_alert_view(ip: Seq<char>, hit: int) -> AlertView {
    AlertView {
        alert_type: AlertType::WebEnum,
        risk: Risk::Medium,
        source_ip: ip,
        message: enumeration_message(hit),
        count: 1,
    }
}

/// The state after a line of the web log read at `now`: the request is
/// counted for the address in the line; a line without address changes
/// nothing.
pub open spec fn after_web_line(d: DetectorView, line: Seq<char>, now: i128) -> DetectorView {
    match extracted_ip(line) {
        Some(ip) => after_web_request(d, ip, now),
        None => d,
    }
}

/// The alert that a line of the web log raises: the enumeration alert of
/// the first pattern that the line trips, for the address in the line.
pub open spec fn web_line_alert(line: Seq<char>) -> Option<AlertView> {
    match (extracted_ip(line), enumeration_hit(line)) {
        (Some(ip), Some(hit)) => Some(enumeration_alert_view(ip, hit)),
        _ => None,
    }
}

/// The state after a line of the SSH log read at `now`.  The address is the
/// first in the line; a failed authentication is counted for it, and then
/// the SSH port where the line bears the mark of a scan.
pub open spec fn after_ssh_line(d: DetectorView, line: Seq<char>, now: i128) -> DetectorView {
    match extracted_ip(line) {
        Some(ip) => {
            let counted = if is_failed_auth(line) {
                after_ssh_attempt(d, ip, now)
            } else {
                d
            };
            if is_ssh_scan(line) {
                after_port_contact(counted, ip, SSH_PORT)
            } else {
                counted
            }
        },
        None => d,
    }
}

/// The alerts that a line of the SSH log read at `now` raises: the
/// brute-force alert first, then the port-scan alert.
pub open spec fn ssh_line_alerts(d: DetectorView, line: Seq<char>, now: i128) -> Seq<AlertView> {
    match extracted_ip(line) {
        Some(ip) => {
            let counted = if is_failed_auth(line) {
                after_ssh_attempt(d, ip, now)
            } else {
                d
            };
            (if is_failed_auth(line) && ssh_fires(d, ip, now) {
                seq![ssh_alert(ip, ssh_count(d, ip, now))]
            } else {
                Seq::empty()
            }) + (if is_ssh_scan(line) && scan_fires(counted, ip, SSH_PORT) {
                seq![scan_alert(ip, ports_after(counted, ip, SSH_PORT).len())]
            } else {
                Seq::empty()
            })
        },
        None => Seq::empty(),
    }
}

/// The state after the sweep at `now`: SSH attempts and web requests that
/// have left their windows are evicted, and addresses without ports are
/// dropped from the port table.  No entry of the two timestamp tables is
/// removed.
pub open spec fn after_cleanup(d: DetectorView, now: i128) -> DetectorView {
    DetectorView {
        ssh_attempts: d.ssh_attempts.map_values(evictor(now, SSH_WINDOW)),
        web_requests: d.web_requests.map_values(evictor(now, WEB_WINDOW)),
        port_scans: d.port_scans.remove_keys(idle_keys(d.port_scans)),
        ..d
    }
}

/// The timestamps of `ip` in `table` after a touch at `now`.
fn touch(table: &StringTable<Vec<i128>>, ip: &str, now: i128, secs: u64) -> (times: Vec<i128>)
    requires
        table.wf(),
    ensures
        times@ == touched(times_of(table@, ip@), now, secs),
{
    let mut times = match table.get(ip) {
        Some(recorded) => retain_recent(recorded, now, secs),
        None => {
            proof {
                reveal(Seq::filter);
            }
            Vec::new()
        },
    };
    times.push(now);
    times
}

impl View for Detector {
    type V = DetectorView;

    open spec fn view(&self) -> DetectorView {
        DetectorView {
            ssh_attempts: self.ssh_attempts@,
            web_requests: self.web_requests@,
            port_scans: self.port_scans@,
            syn_connections: self.syn_connections@,
            last_positions: self.last_positions@,
        }
    }
}

impl Detector {
    /// Each of the five tables is well formed.
    pub open spec fn wf(&self) -> bool {
        &&& self.ssh_attempts.wf()
        &&& self.web_requests.wf()
        &&& self.port_scans.wf()
        &&& self.syn_connections.wf()
        &&& self.last_positions.wf()
    }

    /// A detector with empty tables, whose clock starts now.
    pub fn new() -> (detector: Detector)
        ensures
            detector.wf(),
            detector@ == (DetectorView {
                ssh_attempts: Map::empty(),
                web_requests: Map::empty(),
                port_scans: Map::empty(),
                syn_connections: Map::empty(),
                last_positions: Map::empty(),
            }),
    {
        Detector {
            ssh_attempts: StringTable::new(),
            web_requests: StringTable::new(),
            port_scans: StringTable::new(),
            syn_connections: StringTable::new(),
            last_positions: StringTable::new(),
            epoch: Instant::now(),
        }
    }

    /// The first dotted-quad address in `line`, if it holds one: what the
    /// pattern `IP_PATTERN` finds first.  Octets are not checked for their
    /// range.  The result depends on the line alone and is a part of it.
    pub fn extract_ip_from_line(line: &str) -> (ip: Option<String>)
        ensures
            ip.is_some() == extracted_ip(line@).is_some(),
            ip matches Some(text) ==> extracted_ip(line@) == Some(text@) && occurs_in(
                line@,
                text@,
            ),
    {
        match pattern_find(IP_PATTERN, line) {
            Some(found) => found,
            None => None,
        }
    }

    /// The present moment on the detector's clock.
    pub fn now(&self) -> (now: i128)
        ensures
            0 <= now,
    {
        nanos_since(&self.epoch)
    }

    /// Records a failed SSH authentication of `ip` at the moment `now`:
    /// evicts what has left the window, counts this attempt, and at the
    /// threshold returns the alert and starts the count anew.
    pub fn track_ssh_attempt_at(&mut self, ip: &str, now: i128) -> (alert: Option<Alert>)
        requires
            old(self).wf(),
        ensures
            final(self).wf(),
            final(self)@ == after_ssh_attempt(old(self)@, ip@, now),
            alert.is_some() == ssh_fires(old(self)@, ip@, now),
            alert matches Some(a) ==> a@ == ssh_alert(ip@, ssh_count(old(self)@, ip@, now)),
    {
        let attempts = touch(&self.ssh_attempts, ip, now, SSH_WINDOW);
        let count = attempts.len();
        if count >= SSH_ATTEMPTS {
            let mut message = String::new();
            push_text(&mut message, "Brute force SSH detected: ");
            push_decimal(&mut message, count as u64);
            push_text(&mut message, " attempts in ");
            push_decimal(&mut message, SSH_WINDOW);
            push_text(&mut message, " seconds");
            assert(message@ =~= ssh_message(count as nat));
            self.ssh_attempts.insert(ip.to_owned(), Vec::new());
            Some(Alert::new(AlertType::SSHBruteForce, Risk::Critical, ip.to_owned(), message, count))
        } else {
            self.ssh_attempts.insert(ip.to_owned(), attempts);
            None
        }
    }

    /// Records a failed SSH authentication of `ip` at the present moment.
    pub fn track_ssh_attempt(&mut self, ip: &str) -> (alert: Option<Alert>)
        requires
            old(self).wf(),
        ensures
            final(self).wf(),
            exists|now: i128|
                {
                    &&& 0 <= now
                    &&& final(self)@ == #[trigger] after_ssh_attempt(old(self)@, ip@, now)
                    &&& alert.is_some() == ssh_fires(old(self)@, ip@, now)
                    &&& alert matches Some(a) ==> a@ == ssh_alert(
                        ip@,
                        ssh_count(old(self)@, ip@, now),
                    )
                },
    {
        let now = self.now();
        self.track_ssh_attempt_at(ip, now)
    }

    /// Records a web request of `ip` at the moment `now`.
    pub fn track_web_request_at(&mut self, ip: &str, now: i128)
        requires
            old(self).wf(),
        ensures
            final(self).wf(),
            final(self)@ == after_web_request(old(self)@, ip@, now),
    {
        let requests = touch(&self.web_requests, ip, now, WEB_WINDOW);
        self.web_requests.insert(ip.to_owned(), requests);
    }

    /// Records a web request of `ip` at the present moment.
    pub fn track_web_request(&mut self, ip: &str)
        requires
            old(self).wf(),
        ensures
            final(self).wf(),
            exists|now: i128|
                0 <= now && final(self)@ == #[trigger] after_web_request(old(self)@, ip@, now),
    {
        let now = self.now();
        self.track_web_request_at(ip, now)
    }

    /// Records that `source_ip` has contacted `dest_port`.  At the
    /// threshold of distinct ports it returns the alert and forgets the
    /// ports of that address.
    pub fn detect_port_scan(&mut self, source_ip: &str, dest_port: u16) -> (alert: Option<Alert>)
        requires
            old(self).wf(),
        ensures
            final(self).wf(),
            final(self)@ == after_port_contact(old(self)@, source_ip@, dest_port),
            alert.is_some() == scan_fires(old(self)@, source_ip@, dest_port),
            alert matches Some(a) ==> a@ == scan_alert(
                source_ip@,
                ports_after(old(self)@, source_ip@, dest_port).len(),
            ),
    {
        let mut ports = match self.port_scans.remove(source_ip) {
            Some(ports) => ports,
            None => HashSet::new(),
        };
        ports.insert(dest_port);
        let count = ports.len();
        let alert = if count >= PORT_SCAN_THRESHOLD {
            let mut message = String::new();
            push_text(&mut message, "Port scan detected: ");
            push_decimal(&mut message, count as u64);
            push_text(&mut message, " distinct ports");
            assert(message@ =~= scan_message(count as nat));
            ports.clear();
            Some(Alert::new(AlertType::PortScan, Risk::High, source_ip.to_owned(), message, count))
        } else {
            None
        };
        self.port_scans.insert(source_ip.to_owned(), ports);
        assert(self.port_scans@ =~= after_port_contact(old(self)@, source_ip@, dest_port).port_scans);
        alert
    }

    /// Records a TCP SYN packet of `source_ip` at the moment `now`.  Beyond
    /// the threshold it returns the alert and starts the count anew.
    pub fn detect_syn_flood_ddos_at(&mut self, source_ip: &str, now: i128) -> (alert: Option<Alert>)
        requires
            old(self).wf(),
        ensures
            final(self).wf(),
            final(self)@ == after_syn(old(self)@, source_ip@, now),
            alert.is_some() == syn_fires(old(self)@, source_ip@, now),
            alert matches Some(a) ==> a@ == syn_alert(
                source_ip@,
                syn_count(old(self)@, source_ip@, now),
            ),
    {
        let syns = touch(&self.syn_connections, source_ip, now, SYN_WINDOW);
        let count = syns.len();
        if count > SYN_FLOOD_THRESHOLD {
            let mut message = String::new();
            push_text(&mut message, "SYN Flood DDOS detected: ");
            push_decimal(&mut message, count as u64);
            push_text(&mut message, " SYN/second");
            assert(message@ =~= syn_message(count as nat));
            self.syn_connections.insert(source_ip.to_owned(), Vec::new());
            Some(Alert::new(AlertType::DDOS, Risk::Critical, source_ip.to_owned(), message, count))
        } else {
            self.syn_connections.insert(source_ip.to_owned(), syns);
            None
        }
    }

    /// Records a TCP SYN packet of `source_ip` at the present moment.
    pub fn detect_syn_flood_ddos(&mut self, source_ip: &str) -> (alert: Option<Alert>)
        requires
            old(self).wf(),
        ensures
            final(self).wf(),
            exists|now: i128|
                {
                    &&& 0 <= now
                    &&& final(self)@ == #[trigger] after_syn(old(self)@, source_ip@, now)
                    &&& alert.is_some() == syn_fires(old(self)@, source_ip@, now)
                    &&& alert matches Some(a) ==> a@ == syn_alert(
                        source_ip@,
                        syn_count(old(self)@, source_ip@, now),
                    )
                },
    {
        let now = self.now();
        self.detect_syn_flood_ddos_at(source_ip, now)
    }

    /// Takes in one packet at the moment `now`: counts its destination
    /// port, and its SYN where it is a TCP packet with the SYN flag set.
    pub fn analyze_packet_at(
        &mut self,
        source_ip: &str,
        dest_port: u16,
        protocol: &str,
        flags: u8,
        now: i128,
    ) -> (alerts: Vec<Alert>)
        requires
            old(self).wf(),
        ensures
            final(self).wf(),
            final(self)@ == after_packet(old(self)@, source_ip@, dest_port, protocol@, flags, now),
            alert_views(alerts@) == packet_alerts(
                old(self)@,
                source_ip@,
                dest_port,
                protocol@,
                flags,
                now,
            ),
            protocol@ != "TCP"@ ==> final(self)@.syn_connections == old(self)@.syn_connections,
    {
        let mut alerts: Vec<Alert> = Vec::new();
        assert(alert_views(alerts@) =~= Seq::<AlertView>::empty());
        let scan = self.detect_port_scan(source_ip, dest_port);
        push_alert(&mut alerts, scan);
        if same_text(protocol, "TCP") && (flags & 0x02) != 0 {
            let flood = self.detect_syn_flood_ddos_at(source_ip, now);
            push_alert(&mut alerts, flood);
        } else {
            assert(alert_views(alerts@) + Seq::<AlertView>::empty() =~= alert_views(alerts@));
        }
        alerts
    }

    /// Takes in one packet at the present moment.
    pub fn analyze_packet(
        &mut self,
        source_ip: &str,
        dest_port: u16,
        protocol: &str,
        flags: u8,
    ) -> (alerts: Vec<Alert>)
        requires
            old(self).wf(),
        ensures
            final(self).wf(),
            exists|now: i128|
                {
                    &&& 0 <= now
                    &&& final(self)@ == #[trigger] after_packet(
                        old(self)@,
                        source_ip@,
                        dest_port,
                        protocol@,
                        flags,
                        now,
                    )
                    &&& alert_views(alerts@) == packet_alerts(
                        old(self)@,
                        source_ip@,
                        dest_port,
                        protocol@,
                        flags,
                        now,
                    )
                },
            protocol@ != "TCP"@ ==> final(self)@.syn_connections == old(self)@.syn_connections,
    {
        let now = self.now();
        self.analyze_packet_at(source_ip, dest_port, protocol, flags, now)
    }

    /// The enumeration alert for the pattern at place `hit` of the table,
    /// tripped by `ip`.
    pub fn enumeration_alert(ip: &str, hit: usize) -> (alert: Alert)
        requires
            hit < ENUMERATION_PATTERNS,
        ensures
            alert@ == enumeration_alert_view(ip@, hit as int),
    {
        let mut message = String::new();
        push_text(&mut message, "Web enumeration detected: ");
        push_text(&mut message, enumeration_description(hit));
        assert(message@ =~= enumeration_message(hit as int));
        Alert::new(AlertType::WebEnum, Risk::Medium, ip.to_owned(), message, 1)
    }

    /// Holds a line of the web log against the enumeration patterns, in
    /// lower case and in the order of the table.  The first pattern that
    /// matches gives the alert; the others are not tried.
    pub fn detect_web_enumeration(&self, ip: &str, line: &str) -> (alert: Option<Alert>)
        ensures
            alert.is_some() == enumeration_hit(line@).is_some(),
            alert matches Some(a) ==> a@ == enumeration_alert_view(
                ip@,
                enumeration_hit(line@).unwrap(),
            ),
    {
        match find_enumeration(line) {
            Some(hit) => Some(Self::enumeration_alert(ip, hit)),
            None => None,
        }
    }

    /// Takes in a line of the web log read at the moment `now`.
    pub fn analyze_web_line_at(&mut self, line: &str, now: i128) -> (alert: Option<Alert>)
        requires
            old(self).wf(),
        ensures
            final(self).wf(),
            final(self)@ == after_web_line(old(self)@, line@, now),
            alert.is_some() == web_line_alert(line@).is_some(),
            alert matches Some(a) ==> web_line_alert(line@) == Some(a@),
    {
        match Self::extract_ip_from_line(line) {
            Some(ip) => {
                self.track_web_request_at(ip.as_str(), now);
                self.detect_web_enumeration(ip.as_str(), line)
            },
            None => None,
        }
    }

    /// Takes in a line of the web log at the present moment.
    pub fn analyze_web_line(&mut self, line: &str) -> (alert: Option<Alert>)
        requires
            old(self).wf(),
        ensures
            final(self).wf(),
            exists|now: i128|
                0 <= now && final(self)@ == #[trigger] after_web_line(old(self)@, line@, now),
            alert.is_some() == web_line_alert(line@).is_some(),
            alert matches Some(a) ==> web_line_alert(line@) == Some(a@),
    {
        let now = self.now();
        self.analyze_web_line_at(line, now)
    }

    /// Takes in a line of the SSH log read at the moment `now`.
    pub fn analyze_ssh_line_at(&mut self, line: &str, now: i128) -> (alerts: Vec<Alert>)
        requires
            old(self).wf(),
        ensures
            final(self).wf(),
            final(self)@ == after_ssh_line(old(self)@, line@, now),
            alert_views(alerts@) == ssh_line_alerts(old(self)@, line@, now),
    {
        let mut alerts: Vec<Alert> = Vec::new();
        assert(alert_views(alerts@) =~= Seq::<AlertView>::empty());
        let failed = matches_failed_auth(line);
        let scan = matches_ssh_scan(line);
        if failed || scan {
            if let Some(ip) = Self::extract_ip_from_line(line) {
                if failed {
                    let alert = self.track_ssh_attempt_at(ip.as_str(), now);
                    push_alert(&mut alerts, alert);
                }
                if scan {
                    let alert = self.detect_port_scan(ip.as_str(), SSH_PORT);
                    push_alert(&mut alerts, alert);
                } else {
                    assert(alert_views(alerts@) + Seq::<AlertView>::empty() =~= alert_views(
                        alerts@,
                    ));
                }
            }
        }
        assert(alert_views(alerts@) =~= ssh_line_alerts(old(self)@, line@, now));
        alerts
    }

    /// Takes in a line of the SSH log at the present moment.
    pub fn analyze_ssh_line(&mut self, line: &str) -> (alerts: Vec<Alert>)
        requires
            old(self).wf(),
        ensures
            final(self).wf(),
            exists|now: i128|
                {
                    &&& 0 <= now
                    &&& final(self)@ == #[trigger] after_ssh_line(old(self)@, line@, now)
                    &&& alert_views(alerts@) == ssh_line_alerts(old(self)@, line@, now)
                },
    {
        let now = self.now();
        self.analyze_ssh_line_at(line, now)
    }

    /// The sweep at the moment `now`.
    pub fn cleanup_old_entries_at(&mut self, now: i128)
        requires
            old(self).wf(),
        ensures
            final(self).wf(),
            final(self)@ == after_cleanup(old(self)@, now),
    {
        self.ssh_attempts.evict_all(now, SSH_WINDOW);
        self.web_requests.evict_all(now, WEB_WINDOW);
        self.port_scans.drop_empty();
    }

    /// The sweep at the present moment.
    pub fn cleanup_old_entries(&mut self)
        requires
            old(self).wf(),
        ensures
            final(self).wf(),
            exists|now: i128|
                0 <= now && final(self)@ == #[trigger] after_cleanup(old(self)@, now),
    {
        let now = self.now();
        self.cleanup_old_entries_at(now)
    }
}

} // verus!
