//! What holds of the engine's state transitions, stated over the same
//! functions as the contracts of the detector's methods.
use vstd::prelude::*;
use vstd::utf8::{decode_utf8, valid_utf8};
use crate::alert::AlertView;
use crate::config::{
    PORT_SCAN_THRESHOLD, SSH_ATTEMPTS, SSH_WINDOW, SYN_FLOOD_THRESHOLD, SYN_WINDOW, WEB_WINDOW,
};
use crate::detector::{
    after_cleanup, after_packet, after_port_contact, after_ssh_attempt, after_ssh_line, after_syn,
    after_web_request, is_syn, ports_after, scan_fires, ssh_count, ssh_fires, syn_fires, times_of,
    DetectorView,
};
use crate::packet::{bit_if, flags_byte, parsed, TcpFlags, ACK, CWR, ECE, FIN, PSH, RST, SYN, URG};
use crate::patterns::{extracted_ip, is_failed_auth};
use crate::tail::{
    after_line, after_tail, lemma_scan_bounds, log_path, position_of, scan, size_seen, tail_alerts,
    take_line, LogKind, PassView, TailEvent,
};
use crate::window::{all_within, lemma_survivors, survivors, touched, within};

verus! {

/// Every address of `table` has a last touch recorded in `touch`, and each of
/// its timestamps lies inside the window of `secs` seconds ending at that
/// touch.
pub open spec fn windowed(
    table: Map<Seq<char>, Seq<i128>>,
    touch: Map<Seq<char>, i128>,
    secs: u64,
) -> bool {
    forall|ip: Seq<char>| #[trigger]
        table.contains_key(ip) ==> touch.contains_key(ip) && all_within(table[ip], touch[ip], secs)
}

/// After a touch at `now`, with a window that is not empty, every timestamp
/// of the sequence lies inside the window ending at `now`.
pub proof fn lemma_touched_within(times: Seq<i128>, now: i128, secs: u64)
    requires
        secs > 0,
    ensures
        all_within(touched(times, now, secs), now, secs),
{
    lemma_survivors(times, now, secs);
    let kept = survivors(times, now, secs);
    assert forall|i: int| 0 <= i < touched(times, now, secs).len() implies within(
        now,
        secs,
        #[trigger] touched(times, now, secs)[i],
    ) by {
        if i < kept.len() {
            assert(within(now, secs, kept[i]));
        } else {
            assert(secs * 1_000_000_000 > 0) by (nonlinear_arith)
                requires
                    secs > 0,
            ;
        }
    }
}

/// The timestamps of SSH attempts stay inside the window of their address's
/// last touch: if they did before a failed authentication of `ip` at `now`,
/// they do after it, with `now` as the last touch of `ip`.
pub proof fn law_ssh_attempts_stay_in_window(
    d: DetectorView,
    touch: Map<Seq<char>, i128>,
    ip: Seq<char>,
    now: i128,
)
    requires
        windowed(d.ssh_attempts, touch, SSH_WINDOW),
    ensures
        windowed(after_ssh_attempt(d, ip, now).ssh_attempts, touch.insert(ip, now), SSH_WINDOW),
{
    lemma_touched_within(times_of(d.ssh_attempts, ip), now, SSH_WINDOW);
}

/// A line of the SSH log keeps the timestamps of SSH attempts inside the
/// window of their address's last touch; the line touches the address it
/// names if it reports a failed authentication, and no address otherwise.
pub proof fn law_ssh_line_keeps_window(
    d: DetectorView,
    touch: Map<Seq<char>, i128>,
    line: Seq<char>,
    now: i128,
)
    requires
        windowed(d.ssh_attempts, touch, SSH_WINDOW),
    ensures
        windowed(
            after_ssh_line(d, line, now).ssh_attempts,
            if is_failed_auth(line) && extracted_ip(line).is_some() {
                touch.insert(extracted_ip(line).unwrap(), now)
            } else {
                touch
            },
            SSH_WINDOW,
        ),
{
    if is_failed_auth(line) && extracted_ip(line).is_some() {
        law_ssh_attempts_stay_in_window(d, touch, extracted_ip(line).unwrap(), now);
    }
}

/// The timestamps of web requests stay inside the window of their address's
/// last touch: if they did before a request of `ip` at `now`, they do after
/// it, with `now` as the last touch of `ip`.
pub proof fn law_web_requests_stay_in_window(
    d: DetectorView,
    touch: Map<Seq<char>, i128>,
    ip: Seq<char>,
    now: i128,
)
    requires
        windowed(d.web_requests, touch, WEB_WINDOW),
    ensures
        windowed(after_web_request(d, ip, now).web_requests, touch.insert(ip, now), WEB_WINDOW),
{
    lemma_touched_within(times_of(d.web_requests, ip), now, WEB_WINDOW);
}

/// The timestamps of SYN packets stay inside the window of their address's
/// last touch: if they did before a SYN packet of `ip` at `now`, they do
/// after it, with `now` as the last touch of `ip`.
pub proof fn law_syn_connections_stay_in_window(
    d: DetectorView,
    touch: Map<Seq<char>, i128>,
    ip: Seq<char>,
    now: i128,
)
    requires
        windowed(d.syn_connections, touch, SYN_WINDOW),
    ensures
        windowed(after_syn(d, ip, now).syn_connections, touch.insert(ip, now), SYN_WINDOW),
{
    lemma_touched_within(times_of(d.syn_connections, ip), now, SYN_WINDOW);
}

/// A packet keeps the timestamps of SYN packets inside the window of their
/// address's last touch; it touches its source if it is a TCP packet with
/// the SYN flag, and no address otherwise.
pub proof fn law_packet_keeps_syn_window(
    d: DetectorView,
    touch: Map<Seq<char>, i128>,
    ip: Seq<char>,
    port: u16,
    protocol: Seq<char>,
    flags: u8,
    now: i128,
)
    requires
        windowed(d.syn_connections, touch, SYN_WINDOW),
    ensures
        windowed(
            after_packet(d, ip, port, protocol, flags, now).syn_connections,
            if is_syn(protocol, flags) {
                touch.insert(ip, now)
            } else {
                touch
            },
            SYN_WINDOW,
        ),
{
    if is_syn(protocol, flags) {
        law_syn_connections_stay_in_window(after_port_contact(d, ip, port), touch, ip, now);
    }
}

/// Each address of `table` has its timestamps inside the window ending at
/// `now`, or inside the window ending at its last touch in `touch`.
pub open spec fn windowed_or_touched(
    table: Map<Seq<char>, Seq<i128>>,
    touch: Map<Seq<char>, i128>,
    now: i128,
    secs: u64,
) -> bool {
    forall|ip: Seq<char>| #[trigger]
        table.contains_key(ip) ==> all_within(table[ip], now, secs) || (touch.contains_key(ip)
            && all_within(table[ip], touch[ip], secs))
}

/// One line of a log keeps the SSH attempts inside their windows.
proof fn lemma_line_keeps_ssh_window(
    kind: LogKind,
    d: DetectorView,
    touch: Map<Seq<char>, i128>,
    line: Seq<char>,
    now: i128,
)
    requires
        windowed_or_touched(d.ssh_attempts, touch, now, SSH_WINDOW),
    ensures
        windowed_or_touched(after_line(kind, d, line, now).ssh_attempts, touch, now, SSH_WINDOW),
{
    if kind == LogKind::Ssh && extracted_ip(line).is_some() && is_failed_auth(line) {
        lemma_touched_within(
            times_of(d.ssh_attempts, extracted_ip(line).unwrap()),
            now,
            SSH_WINDOW,
        );
    }
}

/// The lines of a pass keep the SSH attempts inside their windows.
proof fn lemma_scan_keeps_ssh_window(
    kind: LogKind,
    pass: PassView,
    touch: Map<Seq<char>, i128>,
    data: Seq<u8>,
    start: int,
    i: int,
    now: i128,
)
    requires
        0 <= start <= i <= data.len(),
        windowed_or_touched(pass.state.ssh_attempts, touch, now, SSH_WINDOW),
    ensures
        windowed_or_touched(
            scan(kind, pass, data, start, i, now).state.ssh_attempts,
            touch,
            now,
            SSH_WINDOW,
        ),
    decreases data.len() - i,
{
    if i >= data.len() {
        if start < data.len() && valid_utf8(data.subrange(start, data.len() as int)) {
            lemma_line_keeps_ssh_window(
                kind,
                pass.state,
                touch,
                decode_utf8(data.subrange(start, data.len() as int)),
                now,
            );
        }
    } else if data[i] == 10 {
        if valid_utf8(data.subrange(start, i + 1)) {
            lemma_line_keeps_ssh_window(
                kind,
                pass.state,
                touch,
                decode_utf8(data.subrange(start, i + 1)),
                now,
            );
            lemma_scan_keeps_ssh_window(
                kind,
                take_line(kind, pass, data.subrange(start, i + 1), now),
                touch,
                data,
                i + 1,
                i + 1,
                now,
            );
        }
    } else {
        lemma_scan_keeps_ssh_window(kind, pass, touch, data, start, i + 1, now);
    }
}

/// A pass over a log at `now` keeps the timestamps of SSH attempts inside
/// the window of their address's last touch: after it, each address has
/// its timestamps inside the window ending at `now`, if the pass touched
/// it, or inside the window of the touch it had before.
pub proof fn law_pass_keeps_ssh_window(
    kind: LogKind,
    d: DetectorView,
    touch: Map<Seq<char>, i128>,
    event: TailEvent,
    now: i128,
)
    requires
        windowed(d.ssh_attempts, touch, SSH_WINDOW),
    ensures
        windowed_or_touched(
            after_tail(kind, d, event, now).ssh_attempts,
            touch,
            now,
            SSH_WINDOW,
        ),
{
    match event {
        TailEvent::Data(data) => {
            lemma_scan_keeps_ssh_window(
                kind,
                PassView { state: d, alerts: Seq::empty(), consumed: 0 },
                touch,
                data@,
                0,
                0,
                now,
            );
        },
        _ => {},
    }
}

/// The lines of a pass leave the SYN packets as they are.
proof fn lemma_scan_leaves_syn_table(
    kind: LogKind,
    pass: PassView,
    data: Seq<u8>,
    start: int,
    i: int,
    now: i128,
)
    requires
        0 <= start <= i <= data.len(),
    ensures
        scan(kind, pass, data, start, i, now).state.syn_connections == pass.state.syn_connections,
    decreases data.len() - i,
{
    if i >= data.len() {
    } else if data[i] == 10 {
        if valid_utf8(data.subrange(start, i + 1)) {
            lemma_scan_leaves_syn_table(
                kind,
                take_line(kind, pass, data.subrange(start, i + 1), now),
                data,
                i + 1,
                i + 1,
                now,
            );
        }
    } else {
        lemma_scan_leaves_syn_table(kind, pass, data, start, i + 1, now);
    }
}

/// A pass over a log leaves the table of SYN packets as it is.
pub proof fn law_pass_leaves_syn_table(kind: LogKind, d: DetectorView, event: TailEvent, now: i128)
    ensures
        after_tail(kind, d, event, now).syn_connections == d.syn_connections,
{
    match event {
        TailEvent::Data(data) => {
            lemma_scan_leaves_syn_table(
                kind,
                PassView { state: d, alerts: Seq::empty(), consumed: 0 },
                data@,
                0,
                0,
                now,
            );
        },
        _ => {},
    }
}

/// After the sweep at `now`, every timestamp of every SSH attempt and of
/// every web request lies inside its window ending at `now`, and the two
/// tables have the addresses they had.
pub proof fn law_cleanup_leaves_what_is_in_window(d: DetectorView, now: i128)
    ensures
        after_cleanup(d, now).ssh_attempts.dom() == d.ssh_attempts.dom(),
        after_cleanup(d, now).web_requests.dom() == d.web_requests.dom(),
        forall|ip: Seq<char>| #[trigger]
            d.ssh_attempts.contains_key(ip) ==> all_within(
                after_cleanup(d, now).ssh_attempts[ip],
                now,
                SSH_WINDOW,
            ),
        forall|ip: Seq<char>| #[trigger]
            d.web_requests.contains_key(ip) ==> all_within(
                after_cleanup(d, now).web_requests[ip],
                now,
                WEB_WINDOW,
            ),
{
    assert(after_cleanup(d, now).ssh_attempts.dom() =~= d.ssh_attempts.dom());
    assert(after_cleanup(d, now).web_requests.dom() =~= d.web_requests.dom());
    assert forall|ip: Seq<char>| #[trigger] d.ssh_attempts.contains_key(ip) implies all_within(
        after_cleanup(d, now).ssh_attempts[ip],
        now,
        SSH_WINDOW,
    ) by {
        lemma_survivors(d.ssh_attempts[ip], now, SSH_WINDOW);
    }
    assert forall|ip: Seq<char>| #[trigger] d.web_requests.contains_key(ip) implies all_within(
        after_cleanup(d, now).web_requests[ip],
        now,
        WEB_WINDOW,
    ) by {
        lemma_survivors(d.web_requests[ip], now, WEB_WINDOW);
    }
}

/// The brute-force alert is raised exactly when the attempts that are left
/// after eviction, with the new one, reach the threshold; and when it is
/// raised, no attempt of the address is left.
pub proof fn law_ssh_alert_exactly_at_threshold(d: DetectorView, ip: Seq<char>, now: i128)
    ensures
        ssh_fires(d, ip, now) <==> survivors(times_of(d.ssh_attempts, ip), now, SSH_WINDOW).len()
            + 1 >= SSH_ATTEMPTS,
        ssh_fires(d, ip, now) ==> after_ssh_attempt(d, ip, now).ssh_attempts[ip] == Seq::<
            i128,
        >::empty(),
        !ssh_fires(d, ip, now) ==> after_ssh_attempt(d, ip, now).ssh_attempts[ip].len()
            == survivors(times_of(d.ssh_attempts, ip), now, SSH_WINDOW).len() + 1,
{
}

/// The port-scan alert is raised exactly when the distinct ports of the
/// address, with the new one, reach the threshold; and when it is raised,
/// no port of the address is left.
pub proof fn law_port_scan_alert_exactly_at_threshold(d: DetectorView, ip: Seq<char>, port: u16)
    ensures
        scan_fires(d, ip, port) <==> ports_after(d, ip, port).len() >= PORT_SCAN_THRESHOLD,
        scan_fires(d, ip, port) ==> after_port_contact(d, ip, port).port_scans[ip] == Set::<
            u16,
        >::empty(),
        !scan_fires(d, ip, port) ==> after_port_contact(d, ip, port).port_scans[ip] == ports_after(
            d,
            ip,
            port,
        ),
{
}

/// A port that the address has contacted before does not move its count.
pub proof fn law_repeated_port_does_not_count(d: DetectorView, ip: Seq<char>, port: u16)
    requires
        d.port_scans.contains_key(ip),
        d.port_scans[ip].contains(port),
    ensures
        ports_after(d, ip, port) == d.port_scans[ip],
{
    assert(ports_after(d, ip, port) =~= d.port_scans[ip]);
}

/// After a pass over a log, the stored offset is not beyond the size of
/// the file as the caller saw it, unless the pass left the offsets as they
/// were.
pub proof fn law_offset_within_file(kind: LogKind, d: DetectorView, event: TailEvent, now: i128)
    ensures
        after_tail(kind, d, event, now).last_positions == d.last_positions || position_of(
            after_tail(kind, d, event, now).last_positions,
            log_path(kind),
        ) <= size_seen(d, kind, event),
{
    match event {
        TailEvent::Data(data) => {
            lemma_scan_bounds(
                kind,
                PassView { state: d, alerts: Seq::empty(), consumed: 0 },
                data@,
                0,
                0,
                now,
            );
        },
        _ => {},
    }
}

/// The first pass over a file that exists takes nothing in: it raises no
/// alert, leaves the four detection tables as they are, and stores the
/// file's size as its offset.
pub proof fn law_cold_start_reads_nothing(kind: LogKind, d: DetectorView, size: u64, now: i128)
    requires
        position_of(d.last_positions, log_path(kind)) == 0,
    ensures
        tail_alerts(kind, d, TailEvent::AtEnd(size), now) == Seq::<AlertView>::empty(),
        after_tail(kind, d, TailEvent::AtEnd(size), now) == (DetectorView {
            last_positions: d.last_positions.insert(log_path(kind), size),
            ..d
        }),
        position_of(after_tail(kind, d, TailEvent::AtEnd(size), now).last_positions, log_path(kind))
            == size,
{
}

/// While a file has not been seen, data handed in for it is not taken in
/// either.
pub proof fn law_unseen_file_is_not_read(kind: LogKind, d: DetectorView, data: Vec<u8>, now: i128)
    requires
        position_of(d.last_positions, log_path(kind)) == 0,
    ensures
        tail_alerts(kind, d, TailEvent::Data(data), now) == Seq::<AlertView>::empty(),
        after_tail(kind, d, TailEvent::Data(data), now) == d,
{
}

/// Parsing depends on the frame's bytes alone: the same bytes give the same
/// source, port, protocol and flags.
pub proof fn law_parsing_is_a_function_of_the_frame(first: Seq<u8>, second: Seq<u8>)
    requires
        first =~= second,
    ensures
        parsed(first) == parsed(second),
{
}

/// Extraction depends on the line alone: the same line gives the same
/// address.
pub proof fn law_extraction_is_a_function_of_the_line(first: Seq<char>, second: Seq<char>)
    requires
        first =~= second,
    ensures
        extracted_ip(first) == extracted_ip(second),
{
}

/// A packet that is not a TCP packet leaves the table of SYN packets as it
/// is, whatever its flags.
pub proof fn law_only_tcp_touches_syn_table(
    d: DetectorView,
    ip: Seq<char>,
    port: u16,
    protocol: Seq<char>,
    flags: u8,
    now: i128,
)
    requires
        protocol != "TCP"@,
    ensures
        after_packet(d, ip, port, protocol, flags, now).syn_connections == d.syn_connections,
{
}

/// The flags byte of a TCP header has the SYN bit exactly when the header
/// has the SYN flag.
pub proof fn law_syn_bit_is_syn_flag(flags: TcpFlags)
    ensures
        (flags_byte(flags) & 0x02 != 0) <==> flags.syn,
{
    let a = bit_if(flags.fin, FIN);
    let b = bit_if(flags.syn, SYN);
    let c = bit_if(flags.rst, RST);
    let d = bit_if(flags.psh, PSH);
    let e = bit_if(flags.ack, ACK);
    let f = bit_if(flags.urg, URG);
    let g = bit_if(flags.ece, ECE);
    let h = bit_if(flags.cwr, CWR);
    assert(((a | b | c | d | e | f | g | h) & 0x02 != 0) <==> b != 0) by (bit_vector)
        requires
            a == 0 || a == 0x01,
            b == 0 || b == 0x02,
            c == 0 || c == 0x04,
            d == 0 || d == 0x08,
            e == 0 || e == 0x10,
            f == 0 || f == 0x20,
            g == 0 || g == 0x40,
            h == 0 || h == 0x80,
    ;
}

/// The state after failed authentications of `ip` at each moment of
/// `times`, in their order.
pub open spec fn after_attempts(d: DetectorView, ip: Seq<char>, times: Seq<i128>) -> DetectorView
    decreases times.len(),
{
    if times.len() == 0 {
        d
    } else {
        after_ssh_attempt(after_attempts(d, ip, times.drop_last()), ip, times.last())
    }
}

/// One of the failed authentications of `ip` at the moments of `times`
/// raises the alert.
pub open spec fn attempts_fire(d: DetectorView, ip: Seq<char>, times: Seq<i128>) -> bool
    decreases times.len(),
{
    if times.len() == 0 {
        false
    } else {
        attempts_fire(d, ip, times.drop_last()) || ssh_fires(
            after_attempts(d, ip, times.drop_last()),
            ip,
            times.last(),
        )
    }
}

/// Fewer attempts than the threshold, on an address without attempts, raise
/// no alert, and what is recorded of them is a part of them.
proof fn lemma_short_burst(d: DetectorView, ip: Seq<char>, times: Seq<i128>)
    requires
        times_of(d.ssh_attempts, ip).len() == 0,
        times.len() < SSH_ATTEMPTS,
    ensures
        !attempts_fire(d, ip, times),
        times_of(after_attempts(d, ip, times).ssh_attempts, ip).len() <= times.len(),
        forall|i: int|
            0 <= i < times_of(after_attempts(d, ip, times).ssh_attempts, ip).len()
                ==> times.contains(
                #[trigger] times_of(after_attempts(d, ip, times).ssh_attempts, ip)[i],
            ),
    decreases times.len(),
{
    if times.len() > 0 {
        let front = times.drop_last();
        lemma_short_burst(d, ip, front);
        let before = after_attempts(d, ip, front);
        let recorded = times_of(before.ssh_attempts, ip);
        let now = times.last();
        lemma_survivors(recorded, now, SSH_WINDOW);
        let kept = survivors(recorded, now, SSH_WINDOW);
        let after = times_of(after_attempts(d, ip, times).ssh_attempts, ip);
        assert(after == touched(recorded, now, SSH_WINDOW));
        assert forall|i: int| 0 <= i < after.len() implies times.contains(#[trigger] after[i]) by {
            if i < kept.len() {
                lemma_survivor_is_member(recorded, now, SSH_WINDOW, i);
                let j = choose|j: int| 0 <= j < recorded.len() && recorded[j] == kept[i];
                assert(front.contains(recorded[j]));
                let k = choose|k: int| 0 <= k < front.len() && front[k] == recorded[j];
                assert(times[k] == after[i]);
            } else {
                assert(times[times.len() - 1] == after[i]);
            }
        }
    }
}

/// Each timestamp that survives is one of the sequence.
proof fn lemma_survivor_is_member(times: Seq<i128>, now: i128, secs: u64, i: int)
    requires
        0 <= i < survivors(times, now, secs).len(),
    ensures
        exists|j: int| 0 <= j < times.len() && times[j] == survivors(times, now, secs)[i],
    decreases times.len(),
{
    reveal(Seq::filter);
    if times.len() > 0 {
        let front = times.drop_last();
        let kept = survivors(front, now, secs);
        if i < kept.len() {
            lemma_survivor_is_member(front, now, secs, i);
            let j = choose|j: int| 0 <= j < front.len() && front[j] == kept[i];
            assert(times[j] == survivors(times, now, secs)[i]);
        } else {
            assert(times[times.len() - 1] == survivors(times, now, secs)[i]);
        }
    }
}

/// Where no timestamp lies inside the window, none survives.
proof fn lemma_none_survives(times: Seq<i128>, now: i128, secs: u64)
    requires
        forall|i: int| 0 <= i < times.len() ==> !within(now, secs, #[trigger] times[i]),
    ensures
        survivors(times, now, secs).len() == 0,
    decreases times.len(),
{
    reveal(Seq::filter);
    if times.len() > 0 {
        let front = times.drop_last();
        assert forall|i: int| 0 <= i < front.len() implies !within(now, secs, #[trigger] front[i]) by {
            assert(front[i] == times[i]);
        }
        lemma_none_survives(front, now, secs);
        assert(!within(now, secs, times[times.len() - 1]));
    }
}

/// A burst of one attempt less than the threshold, then a pause in which
/// all of the burst leaves the window, then one more attempt: no alert is
/// raised, and the last attempt alone is recorded.
pub proof fn law_burst_then_pause_raises_no_alert(
    d: DetectorView,
    ip: Seq<char>,
    burst: Seq<i128>,
    later: i128,
)
    requires
        times_of(d.ssh_attempts, ip).len() == 0,
        burst.len() == SSH_ATTEMPTS - 1,
        forall|i: int| 0 <= i < burst.len() ==> !within(later, SSH_WINDOW, #[trigger] burst[i]),
    ensures
        !attempts_fire(d, ip, burst),
        !ssh_fires(after_attempts(d, ip, burst), ip, later),
        ssh_count(after_attempts(d, ip, burst), ip, later) == 1,
        after_ssh_attempt(after_attempts(d, ip, burst), ip, later).ssh_attempts[ip] == seq![later],
{
    lemma_short_burst(d, ip, burst);
    let before = after_attempts(d, ip, burst);
    let recorded = times_of(before.ssh_attempts, ip);
    assert forall|i: int| 0 <= i < recorded.len() implies !within(
        later,
        SSH_WINDOW,
        #[trigger] recorded[i],
    ) by {
        assert(burst.contains(recorded[i]));
        let k = choose|k: int| 0 <= k < burst.len() && burst[k] == recorded[i];
        assert(!within(later, SSH_WINDOW, burst[k]));
    }
    lemma_none_survives(recorded, later, SSH_WINDOW);
    assert(survivors(recorded, later, SSH_WINDOW) =~= Seq::<i128>::empty());
    assert(touched(recorded, later, SSH_WINDOW) =~= seq![later]);
}

/// Attempts that all lie inside the window of each later one are all
/// recorded, as long as they are fewer than the threshold.
proof fn lemma_burst_is_recorded(d: DetectorView, ip: Seq<char>, times: Seq<i128>)
    requires
        times_of(d.ssh_attempts, ip).len() == 0,
        times.len() < SSH_ATTEMPTS,
        forall|i: int, j: int|
            0 <= i < j < times.len() ==> within(#[trigger] times[j], SSH_WINDOW, #[trigger] times[i]),
    ensures
        !attempts_fire(d, ip, times),
        times_of(after_attempts(d, ip, times).ssh_attempts, ip) == times,
    decreases times.len(),
{
    if times.len() == 0 {
        assert(times_of(d.ssh_attempts, ip) =~= times);
    } else {
        let front = times.drop_last();
        assert forall|i: int, j: int| 0 <= i < j < front.len() implies within(
            #[trigger] front[j],
            SSH_WINDOW,
            #[trigger] front[i],
        ) by {
            assert(within(times[j], SSH_WINDOW, times[i]));
        }
        lemma_burst_is_recorded(d, ip, front);
        let now = times.last();
        assert forall|i: int| 0 <= i < front.len() implies within(
            now,
            SSH_WINDOW,
            #[trigger] front[i],
        ) by {
            assert(within(times[times.len() - 1], SSH_WINDOW, times[i]));
        }
        lemma_survivors(front, now, SSH_WINDOW);
        assert(touched(front, now, SSH_WINDOW) =~= times);
    }
}

/// As many attempts as the threshold, each inside the window of every
/// later one, on an address without attempts: the last of them raises the
/// alert, none before it does, and no attempt is left recorded.
pub proof fn law_threshold_attempts_in_window_alert(
    d: DetectorView,
    ip: Seq<char>,
    times: Seq<i128>,
)
    requires
        times_of(d.ssh_attempts, ip).len() == 0,
        times.len() == SSH_ATTEMPTS,
        forall|i: int, j: int|
            0 <= i < j < times.len() ==> within(#[trigger] times[j], SSH_WINDOW, #[trigger] times[i]),
    ensures
        !attempts_fire(d, ip, times.drop_last()),
        ssh_fires(after_attempts(d, ip, times.drop_last()), ip, times.last()),
        ssh_count(after_attempts(d, ip, times.drop_last()), ip, times.last()) == SSH_ATTEMPTS,
        attempts_fire(d, ip, times),
        after_attempts(d, ip, times).ssh_attempts[ip] == Seq::<i128>::empty(),
{
    let front = times.drop_last();
    assert forall|i: int, j: int| 0 <= i < j < front.len() implies within(
        #[trigger] front[j],
        SSH_WINDOW,
        #[trigger] front[i],
    ) by {
        assert(within(times[j], SSH_WINDOW, times[i]));
    }
    lemma_burst_is_recorded(d, ip, front);
    let now = times.last();
    assert forall|i: int| 0 <= i < front.len() implies within(now, SSH_WINDOW, #[trigger] front[i]) by {
        assert(within(times[times.len() - 1], SSH_WINDOW, times[i]));
    }
    lemma_survivors(front, now, SSH_WINDOW);
    assert(touched(front, now, SSH_WINDOW) =~= times);
}

/// A SYN packet raises the flood alert exactly when the packets that are
/// left after eviction, with the new one, exceed the threshold; and when it
/// is raised, no packet of the address is left.
pub proof fn law_syn_alert_exactly_beyond_threshold(d: DetectorView, ip: Seq<char>, now: i128)
    ensures
        syn_fires(d, ip, now) <==> survivors(times_of(d.syn_connections, ip), now, SYN_WINDOW).len()
            + 1 > SYN_FLOOD_THRESHOLD,
        syn_fires(d, ip, now) ==> after_syn(d, ip, now).syn_connections[ip] == Seq::<i128>::empty(),
{
}

} // verus!
