//! Following the two log files.  The caller opens and reads; what it found
//! comes in as a `TailEvent`, and the detector decides what the pass does.
use vstd::prelude::*;
use vstd::slice::slice_subrange;
use vstd::utf8::{decode_utf8, valid_utf8};
use std::str::Utf8Error;
use crate::alert::{alert_views, push_alert, Alert, AlertView};
use crate::config::{SSH_LOG_PATH, WEB_LOG_PATH};
use crate::detector::{
    after_ssh_line, after_web_line, ssh_line_alerts, web_line_alert, Detector, DetectorView,
};

verus! {

/// The two logs that the engine follows.
#[derive(Debug, Clone, Copy, PartialEq, Eq, Structural)]
pub enum LogKind {
    /// The log of SSH authentication events.
    Ssh,
    /// The web server's access log.
    Web,
}

/// What the caller is to do with a log file in this pass.
#[derive(Debug, Clone, Copy, PartialEq, Eq, Structural)]
pub enum TailPlan {
    /// The file has not been seen: report its size, read nothing.
    SeekEnd,
    /// Read from this offset to the end of the file.
    ReadFrom(u64),
}

/// What the caller found when it did as the plan said.
#[derive(Debug)]
pub enum TailEvent {
    /// The file could not be opened, or the seek failed.
    Unavailable,
    /// The size of a file that is seen for the first time.
    AtEnd(u64),
    /// The bytes from the stored offset to the end of the file.
    Data(Vec<u8>),
}

/// What a pass over the bytes of a log has done so far.
pub ghost struct PassView {
    pub state: DetectorView,
    pub alerts: Seq<AlertView>,
    pub consumed: int,
}

/// The path of a log.
pub open spec fn log_path(kind: LogKind) -> Seq<char> {
    match kind {
        LogKind::Ssh => SSH_LOG_PATH@,
        LogKind::Web => WEB_LOG_PATH@,
    }
}

/// How far the file at `path` has been read; zero for a file not yet seen.
pub open spec fn position_of(positions: Map<Seq<char>, u64>, path: Seq<char>) -> u64 {
    if positions.contains_key(path) {
        positions[path]
    } else {
        0
    }
}

/// What to do with the file at `path`: a file that has not been seen, or
/// whose stored offset is zero, is not read.
pub open spec fn plan_for(d: DetectorView, path: Seq<char>) -> TailPlan {
    if position_of(d.last_positions, path) == 0 {
        TailPlan::SeekEnd
    } else {
        TailPlan::ReadFrom(position_of(d.last_positions, path))
    }
}

/// The state after one line of a log read at `now`.
pub open spec fn after_line(kind: LogKind, d: DetectorView, line: Seq<char>, now: i128)
    -> DetectorView {
    match kind {
        LogKind::Ssh => after_ssh_line(d, line, now),
        LogKind::Web => after_web_line(d, line, now),
    }
}

/// The alerts that one line of a log read at `now` raises.
pub open spec fn line_alerts(kind: LogKind, d: DetectorView, line: Seq<char>, now: i128) -> Seq<
    AlertView,
> {
    match kind {
        LogKind::Ssh => ssh_line_alerts(d, line, now),
        LogKind::Web => match web_line_alert(line) {
            Some(alert) => seq![alert],
            None => Seq::empty(),
        },
    }
}

/// The pass after the line `line`, which is valid UTF-8, has been taken in.
pub open spec fn take_line(kind: LogKind, pass: PassView, line: Seq<u8>, now: i128) -> PassView {
    PassView {
        state: after_line(kind, pass.state, decode_utf8(line), now),
        alerts: pass.alerts + line_alerts(kind, pass.state, decode_utf8(line), now),
        consumed: pass.consumed + line.len(),
    }
}

/// The pass over `data` from the state `pass`, where the line being read
/// starts at `start` and has been scanned up to `i`.  A line ends with its
/// line feed, which belongs to it, or with the data.  Each line is taken in
/// as it ends; the pass stops before the first line that is not valid UTF-8.
pub open spec fn scan(kind: LogKind, pass: PassView, data: Seq<u8>, start: int, i: int, now: i128)
    -> PassView
    decreases data.len() - i,
{
    if i >= data.len() {
        if start < data.len() && valid_utf8(data.subrange(start, data.len() as int)) {
            take_line(kind, pass, data.subrange(start, data.len() as int), now)
        } else {
            pass
        }
    } else if data[i] == 10 {
        if valid_utf8(data.subrange(start, i + 1)) {
            scan(kind, take_line(kind, pass, data.subrange(start, i + 1), now), data, i + 1, i + 1, now)
        } else {
            pass
        }
    } else {
        scan(kind, pass, data, start, i + 1, now)
    }
}

/// The pass over all of `data` from the state `d`.
pub open spec fn pass_over(kind: LogKind, d: DetectorView, data: Seq<u8>, now: i128) -> PassView {
    scan(kind, PassView { state: d, alerts: Seq::empty(), consumed: 0 }, data, 0, 0, now)
}

/// The bytes can lie behind the offset in a file.
pub open spec fn fits_behind(offset: u64, data: Seq<u8>) -> bool {
    offset + data.len() <= u64::MAX
}

/// The state after a pass at `now` in which the caller found `event`.
///
/// A file that could not be read changes nothing.  A file seen for the
/// first time has its size stored as its offset, and nothing of it is
/// taken in.  Otherwise the lines of the data are taken in and the offset
/// moves on by the bytes of those lines.  An event that does not answer the
/// plan for the file changes nothing.
pub open spec fn after_tail(kind: LogKind, d: DetectorView, event: TailEvent, now: i128)
    -> DetectorView {
    let path = log_path(kind);
    let offset = position_of(d.last_positions, path);
    match event {
        TailEvent::Unavailable => d,
        TailEvent::AtEnd(size) => if offset == 0 {
            DetectorView { last_positions: d.last_positions.insert(path, size), ..d }
        } else {
            d
        },
        TailEvent::Data(data) => if offset != 0 && fits_behind(offset, data@) {
            let pass = pass_over(kind, d, data@, now);
            DetectorView {
                last_positions: pass.state.last_positions.insert(
                    path,
                    (offset + pass.consumed) as u64,
                ),
                ..pass.state
            }
        } else {
            d
        },
    }
}

/// The alerts of a pass at `now` in which the caller found `event`.
pub open spec fn tail_alerts(kind: LogKind, d: DetectorView, event: TailEvent, now: i128) -> Seq<
    AlertView,
> {
    match event {
        TailEvent::Data(data) => if position_of(d.last_positions, log_path(kind)) != 0
            && fits_behind(position_of(d.last_positions, log_path(kind)), data@) {
            pass_over(kind, d, data@, now).alerts
        } else {
            Seq::empty()
        },
        _ => Seq::empty(),
    }
}

/// The size of the file as the caller saw it: the size it reported, or the
/// stored offset and the bytes it read behind it.
pub open spec fn size_seen(d: DetectorView, kind: LogKind, event: TailEvent) -> int {
    match event {
        TailEvent::Unavailable => 0,
        TailEvent::AtEnd(size) => size as int,
        TailEvent::Data(data) => position_of(d.last_positions, log_path(kind)) + data@.len(),
    }
}

/// The error of reading bytes that are not valid UTF-8 as text.
#[verifier::external_type_specification]
#[verifier::external_body]
pub struct ExUtf8Error(Utf8Error);

/// `std::str::from_utf8` gives the text that the bytes encode, if they are
/// valid UTF-8, and an error if they are not.
pub assume_specification[ std::str::from_utf8 ](bytes: &[u8]) -> (text: Result<&str, Utf8Error>)
    ensures
        text.is_ok() == valid_utf8(bytes@),
        text matches Ok(t) ==> t@ == decode_utf8(bytes@),
;

/// A pass never takes in more than the data holds, and leaves the log
/// offsets as they are.
pub proof fn lemma_scan_bounds(
    kind: LogKind,
    pass: PassView,
    data: Seq<u8>,
    start: int,
    i: int,
    now: i128,
)
    requires
        0 <= start <= i <= data.len(),
        pass.consumed == start,
    ensures
        start <= scan(kind, pass, data, start, i, now).consumed <= data.len(),
        scan(kind, pass, data, start, i, now).state.last_positions == pass.state.last_positions,
    decreases data.len() - i,
{
    if i >= data.len() {
    } else if data[i] == 10 {
        if valid_utf8(data.subrange(start, i + 1)) {
            lemma_scan_bounds(
                kind,
                take_line(kind, pass, data.subrange(start, i + 1), now),
                data,
                i + 1,
                i + 1,
                now,
            );
        }
    } else {
        lemma_scan_bounds(kind, pass, data, start, i + 1, now);
    }
}

impl Detector {
    /// What the caller is to do with the file at `path` in this pass.
    pub fn tail_plan(&self, path: &str) -> (plan: TailPlan)
        requires
            self.wf(),
        ensures
            plan == plan_for(self@, path@),
    {
        match self.last_positions.get(path) {
            Some(offset) => if *offset == 0 {
                TailPlan::SeekEnd
            } else {
                TailPlan::ReadFrom(*offset)
            },
            None => TailPlan::SeekEnd,
        }
    }

    /// Takes in one line of a log, given as bytes, if it is valid UTF-8.
    fn take_in(&mut self, kind: LogKind, line: &[u8], now: i128, alerts: &mut Vec<Alert>) -> (taken:
        bool)
        requires
            old(self).wf(),
        ensures
            final(self).wf(),
            taken == valid_utf8(line@),
            taken ==> final(self)@ == after_line(kind, old(self)@, decode_utf8(line@), now)
                && alert_views(final(alerts)@) == alert_views(old(alerts)@) + line_alerts(
                kind,
                old(self)@,
                decode_utf8(line@),
                now,
            ),
            !taken ==> final(self)@ == old(self)@ && final(alerts)@ == old(alerts)@,
    {
        match std::str::from_utf8(line) {
            Ok(text) => {
                match kind {
                    LogKind::Ssh => {
                        let mut raised = self.analyze_ssh_line_at(text, now);
                        let ghost before = alerts@;
                        let ghost added = raised@;
                        alerts.append(&mut raised);
                        assert(alert_views(alerts@) =~= alert_views(before) + alert_views(added));
                    },
                    LogKind::Web => {
                        let raised = self.analyze_web_line_at(text, now);
                        push_alert(alerts, raised);
                    },
                }
                true
            },
            Err(_) => false,
        }
    }

    /// Takes in the lines of `data` at the moment `now` and returns the
    /// number of bytes taken in, with the alerts raised.
    fn take_lines(&mut self, kind: LogKind, data: &[u8], now: i128) -> (done: (usize, Vec<Alert>))
        requires
            old(self).wf(),
        ensures
            final(self).wf(),
            final(self)@ == pass_over(kind, old(self)@, data@, now).state,
            alert_views(done.1@) == pass_over(kind, old(self)@, data@, now).alerts,
            done.0 == pass_over(kind, old(self)@, data@, now).consumed,
            done.0 <= data@.len(),
            final(self)@.last_positions == old(self)@.last_positions,
    {
        let mut alerts: Vec<Alert> = Vec::new();
        let mut start: usize = 0;
        let mut i: usize = 0;
        let ghost whole = pass_over(kind, self@, data@, now);
        assert(alert_views(alerts@) =~= Seq::<AlertView>::empty());
        proof {
            lemma_scan_bounds(
                kind,
                PassView { state: self@, alerts: Seq::empty(), consumed: 0 },
                data@,
                0,
                0,
                now,
            );
        }
        while i < data.len()
            invariant
                self.wf(),
                start <= i <= data.len(),
                whole == pass_over(kind, old(self)@, data@, now),
                whole.state.last_positions == old(self)@.last_positions,
                whole == scan(
                    kind,
                    PassView {
                        state: self@,
                        alerts: alert_views(alerts@),
                        consumed: start as int,
                    },
                    data@,
                    start as int,
                    i as int,
                    now,
                ),
            decreases data.len() - i,
        {
            if data[i] == 10 {
                let line = slice_subrange(data, start, i + 1);
                if !self.take_in(kind, line, now, &mut alerts) {
                    return (start, alerts);
                }
                start = i + 1;
            }
            i += 1;
        }
        if start < data.len() {
            let line = slice_subrange(data, start, data.len());
            if self.take_in(kind, line, now, &mut alerts) {
                start = data.len();
            }
        }
        (start, alerts)
    }

    /// One pass over a log at the moment `now`, in which the caller found
    /// `event` when it did as `tail_plan` said for the log's path.
    pub fn monitor_log_at(&mut self, kind: LogKind, event: &TailEvent, now: i128) -> (alerts: Vec<
        Alert,
    >)
        requires
            old(self).wf(),
        ensures
            final(self).wf(),
            final(self)@ == after_tail(kind, old(self)@, *event, now),
            alert_views(alerts@) == tail_alerts(kind, old(self)@, *event, now),
            final(self)@.last_positions != old(self)@.last_positions ==> position_of(
                final(self)@.last_positions,
                log_path(kind),
            ) <= size_seen(old(self)@, kind, *event),
            position_of(old(self)@.last_positions, log_path(kind)) == 0 ==> alerts@.len() == 0 && (
            DetectorView { last_positions: old(self)@.last_positions, ..final(self)@ })
                == old(self)@,
    {
        let path = match kind {
            LogKind::Ssh => SSH_LOG_PATH,
            LogKind::Web => WEB_LOG_PATH,
        };
        let offset = match self.last_positions.get(path) {
            Some(offset) => *offset,
            None => 0,
        };
        let mut alerts: Vec<Alert> = Vec::new();
        assert(alert_views(alerts@) =~= Seq::<AlertView>::empty());
        match event {
            TailEvent::Unavailable => {},
            TailEvent::AtEnd(size) => {
                if offset == 0 {
                    self.last_positions.insert(path.to_owned(), *size);
                }
            },
            TailEvent::Data(data) => {
                if offset != 0 && data.len() as u64 <= u64::MAX - offset {
                    let (consumed, raised) = self.take_lines(kind, data.as_slice(), now);
                    self.last_positions.insert(path.to_owned(), offset + consumed as u64);
                    alerts = raised;
                }
            },
        }
        alerts
    }

    /// One pass over the SSH log at the moment `now`.
    pub fn monitor_ssh_logs_at(&mut self, event: &TailEvent, now: i128) -> (alerts: Vec<Alert>)
        requires
            old(self).wf(),
        ensures
            final(self).wf(),
            final(self)@ == after_tail(LogKind::Ssh, old(self)@, *event, now),
            alert_views(alerts@) == tail_alerts(LogKind::Ssh, old(self)@, *event, now),
    {
        self.monitor_log_at(LogKind::Ssh, event, now)
    }

    /// One pass over the web log at the moment `now`.
    pub fn monitor_web_logs_at(&mut self, event: &TailEvent, now: i128) -> (alerts: Vec<Alert>)
        requires
            old(self).wf(),
        ensures
            final(self).wf(),
            final(self)@ == after_tail(LogKind::Web, old(self)@, *event, now),
            alert_views(alerts@) == tail_alerts(LogKind::Web, old(self)@, *event, now),
    {
        self.monitor_log_at(LogKind::Web, event, now)
    }

    /// One pass over the SSH log at the present moment.
    pub fn monitor_ssh_logs(&mut self, event: &TailEvent) -> (alerts: Vec<Alert>)
        requires
            old(self).wf(),
        ensures
            final(self).wf(),
            exists|now: i128|
                {
                    &&& 0 <= now
                    &&& final(self)@ == #[trigger] after_tail(LogKind::Ssh, old(self)@, *event, now)
                    &&& alert_views(alerts@) == tail_alerts(LogKind::Ssh, old(self)@, *event, now)
                },
    {
        let now = self.now();
        self.monitor_log_at(LogKind::Ssh, event, now)
    }

    /// One pass over the web log at the present moment.
    pub fn monitor_web_logs(&mut self, event: &TailEvent) -> (alerts: Vec<Alert>)
        requires
            old(self).wf(),
        ensures
            final(self).wf(),
            exists|now: i128|
                {
                    &&& 0 <= now
                    &&& final(self)@ == #[trigger] after_tail(LogKind::Web, old(self)@, *event, now)
                    &&& alert_views(alerts@) == tail_alerts(LogKind::Web, old(self)@, *event, now)
                },
    {
        let now = self.now();
        self.monitor_log_at(LogKind::Web, event, now)
    }

    /// One pass over both logs at the moment `now`: the SSH log first, then
    /// the web log.
    pub fn monitor_logs_at(&mut self, ssh: &TailEvent, web: &TailEvent, now: i128) -> (alerts: Vec<
        Alert,
    >)
        requires
            old(self).wf(),
        ensures
            final(self).wf(),
            final(self)@ == after_tail(
                LogKind::Web,
                after_tail(LogKind::Ssh, old(self)@, *ssh, now),
                *web,
                now,
            ),
            alert_views(alerts@) == tail_alerts(LogKind::Ssh, old(self)@, *ssh, now) + tail_alerts(
                LogKind::Web,
                after_tail(LogKind::Ssh, old(self)@, *ssh, now),
                *web,
                now,
            ),
    {
        let mut alerts = self.monitor_log_at(LogKind::Ssh, ssh, now);
        let mut more = self.monitor_log_at(LogKind::Web, web, now);
        let ghost first = alerts@;
        let ghost second = more@;
        alerts.append(&mut more);
        assert(alert_views(alerts@) =~= alert_views(first) + alert_views(second));
        alerts
    }

    /// One pass over both logs at the present moment.
    pub fn monitor_logs(&mut self, ssh: &TailEvent, web: &TailEvent) -> (alerts: Vec<Alert>)
        requires
            old(self).wf(),
        ensures
            final(self).wf(),
            exists|now: i128|
                {
                    &&& 0 <= now
                    &&& final(self)@ == after_tail(
                        LogKind::Web,
                        #[trigger] after_tail(LogKind::Ssh, old(self)@, *ssh, now),
                        *web,
                        now,
                    )
                    &&& alert_views(alerts@) == tail_alerts(LogKind::Ssh, old(self)@, *ssh, now)
                        + tail_alerts(
                        LogKind::Web,
                        after_tail(LogKind::Ssh, old(self)@, *ssh, now),
                        *web,
                        now,
                    )
                },
    {
        let now = self.now();
        self.monitor_logs_at(ssh, web, now)
    }
}

} // verus!
