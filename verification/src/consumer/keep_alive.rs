//! The keep-alive cadence of a delivered, un-acknowledged message: a
//! progress acknowledgement is issued each time the interval passes, and the
//! interval keeps a safety margin of one tenth (rounded up) below the ack
//! deadline, so that the broker never redelivers while the application is
//! still at work.

use vstd::prelude::*;
use vstd::arithmetic::div_mod::{
    lemma_div_denominator, lemma_div_is_ordered_by_denominator, lemma_div_multiples_vanish,
    lemma_fundamental_div_mod,
};

verus! {

/// The milliseconds between progress acknowledgements: the ack deadline
/// less a safety margin of one tenth of it, rounded up.
pub open spec fn keep_alive_interval(max_ack_ms: int) -> int {
    max_ack_ms - (max_ack_ms + 9) / 10
}

/// How many progress acknowledgements have been issued once `t`
/// milliseconds have passed: one per full interval.
pub open spec fn progress_acks_by(t: int, interval: int) -> int {
    t / interval
}

/// Computes the keep-alive interval. It stays at or below nine tenths of
/// the ack deadline and is never zero, so the acknowledging task neither
/// misses the deadline nor spins.
pub fn keep_alive_interval_ms(max_ack_ms: u64) -> (r: u64)
    requires
        10 <= max_ack_ms,
        max_ack_ms + 9 <= u64::MAX,
    ensures
        r == keep_alive_interval(max_ack_ms as int),
        1 <= r,
        10 * r <= 9 * max_ack_ms,
{
    proof {
        lemma_fundamental_div_mod(max_ack_ms as int + 9, 10);
    }
    max_ack_ms - (max_ack_ms + 9) / 10
}

/// The keep-alive guarantee: a message held un-acknowledged for `t`
/// milliseconds has been sent at least ⌊t / (0.9 × max_ack)⌋ progress
/// acknowledgements, written with the real-number bound as ⌊10·t / (9·max_ack)⌋.
pub proof fn lemma_keep_alive_count(max_ack_ms: int, t: int)
    requires
        10 <= max_ack_ms,
        0 <= t,
    ensures
        progress_acks_by(t, keep_alive_interval(max_ack_ms)) >= (10 * t) / (9 * max_ack_ms),
{
    let iv = keep_alive_interval(max_ack_ms);
    lemma_fundamental_div_mod(max_ack_ms + 9, 10);
    assert(1 <= iv);
    assert(10 * iv <= 9 * max_ack_ms);
    assert(10 * t >= 0) by (nonlinear_arith)
        requires
            t >= 0,
    ;
    lemma_div_is_ordered_by_denominator(10 * t, 10 * iv, 9 * max_ack_ms);
    lemma_div_denominator(10 * t, 10, iv);
    assert((10 * t) / 10 == t) by {
        lemma_div_multiples_vanish(t, 10);
    };
}

} // verus!
