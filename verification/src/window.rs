//! Sliding windows over timestamps.
//!
//! A timestamp counts nanoseconds on a monotonic clock.  An event is inside
//! the window at a moment when it is less than the window's length old; an
//! event that lies after that moment counts as having no age.
use vstd::prelude::*;

verus! {

pub const NANOS_PER_SEC: u64 = 1_000_000_000;

/// The length in nanoseconds of a window of `secs` seconds.
pub open spec fn window_nanos(secs: u64) -> int {
    secs * NANOS_PER_SEC
}

/// How old the moment `t` is at the moment `now`; never negative.
pub open spec fn age(now: i128, t: i128) -> int {
    if t < now {
        now - t
    } else {
        0
    }
}

/// The moment `t` lies inside the window of `secs` seconds that ends at `now`.
pub open spec fn within(now: i128, secs: u64, t: i128) -> bool {
    age(now, t) < window_nanos(secs)
}

/// The test that `survivors` applies to each timestamp.
pub open spec fn recent(now: i128, secs: u64) -> spec_fn(i128) -> bool {
    |t: i128| within(now, secs, t)
}

/// The timestamps of `times` that lie inside the window ending at `now`, in
/// their order.
pub open spec fn survivors(times: Seq<i128>, now: i128, secs: u64) -> Seq<i128> {
    times.filter(recent(now, secs))
}

/// The sequence after a touch at `now`: what survives, then `now` itself.
pub open spec fn touched(times: Seq<i128>, now: i128, secs: u64) -> Seq<i128> {
    survivors(times, now, secs).push(now)
}

/// Every timestamp of `times` lies inside the window ending at `now`.
pub open spec fn all_within(times: Seq<i128>, now: i128, secs: u64) -> bool {
    forall|i: int| 0 <= i < times.len() ==> within(now, secs, #[trigger] times[i])
}

/// Whether `t` lies inside the window of `secs` seconds that ends at `now`.
pub fn is_within(now: i128, secs: u64, t: i128) -> (inside: bool)
    ensures
        inside == within(now, secs, t),
{
    assert(secs * NANOS_PER_SEC <= u64::MAX * 1_000_000_000) by (nonlinear_arith)
        requires
            secs <= u64::MAX,
            NANOS_PER_SEC == 1_000_000_000,
    ;
    let length: i128 = (secs as i128) * (NANOS_PER_SEC as i128);
    if t >= now {
        0 < length
    } else {
        match now.checked_sub(t) {
            Some(elapsed) => elapsed < length,
            None => false,
        }
    }
}

/// Extending a sequence by one timestamp extends its survivors by that
/// timestamp if it is inside the window, and leaves them as they are if not.
pub proof fn lemma_survivors_push(times: Seq<i128>, t: i128, now: i128, secs: u64)
    ensures
        survivors(times.push(t), now, secs) == if within(now, secs, t) {
            survivors(times, now, secs).push(t)
        } else {
            survivors(times, now, secs)
        },
{
    reveal(Seq::filter);
    assert(times.push(t).drop_last() =~= times);
}

/// What survives lies inside the window, and is all of the sequence if all of
/// it lay inside.
pub proof fn lemma_survivors(times: Seq<i128>, now: i128, secs: u64)
    ensures
        all_within(survivors(times, now, secs), now, secs),
        survivors(times, now, secs).len() <= times.len(),
        all_within(times, now, secs) ==> survivors(times, now, secs) == times,
    decreases times.len(),
{
    reveal(Seq::filter);
    if times.len() > 0 {
        let front = times.drop_last();
        lemma_survivors(front, now, secs);
        assert(front.push(times.last()) =~= times);
        lemma_survivors_push(front, times.last(), now, secs);
        if all_within(times, now, secs) {
            assert(within(now, secs, times[times.len() - 1]));
            assert forall|i: int| 0 <= i < front.len() implies within(
                now,
                secs,
                #[trigger] front[i],
            ) by {
                assert(front[i] == times[i]);
            }
        }
    }
}

/// The timestamps of `times` that lie inside the window ending at `now`.
pub fn retain_recent(times: &Vec<i128>, now: i128, secs: u64) -> (kept: Vec<i128>)
    ensures
        kept@ == survivors(times@, now, secs),
{
    let mut kept: Vec<i128> = Vec::new();
    let mut i: usize = 0;
    proof {
        reveal(Seq::filter);
        assert(times@.take(0) =~= Seq::<i128>::empty());
    }
    while i < times.len()
        invariant
            i <= times.len(),
            kept@ == survivors(times@.take(i as int), now, secs),
        decreases times.len() - i,
    {
        let t = times[i];
        proof {
            lemma_survivors_push(times@.take(i as int), t, now, secs);
            assert(times@.take(i as int).push(t) =~= times@.take(i + 1));
        }
        if is_within(now, secs, t) {
            kept.push(t);
        }
        i += 1;
    }
    assert(times@.take(times.len() as int) =~= times@);
    kept
}

} // verus!
