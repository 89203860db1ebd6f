//! Detecting that the system slept: a timer that took far longer than asked
//! must have been suspended along with the machine.

use vstd::prelude::*;

verus! {

/// The seconds that the detector asks its timer for.
pub const SLEEP_TIME: u64 = 5;

/// The seconds beyond which a timer of `SLEEP_TIME` counts as suspended.
pub const SLEEP_THRESHOLD: u64 = 10;

/// The sum of the numbers in `naps`.
pub open spec fn total(naps: Seq<u64>) -> nat
    decreases naps.len(),
{
    if naps.len() == 0 {
        0
    } else {
        total(naps.drop_last()) + naps.last() as nat
    }
}

/// Decides whether the system slept while a timer of `SLEEP_TIME` seconds
/// ran, from the time that in fact went by: `elapsed_secs` whole seconds and
/// `elapsed_nanos` nanoseconds. Where more than `SLEEP_THRESHOLD` seconds
/// went by, the system slept for the whole seconds beyond the timer.
pub fn detect_sleep(elapsed_secs: u64, elapsed_nanos: u32) -> (slept: Option<u64>)
    ensures
        slept == if elapsed_secs > SLEEP_THRESHOLD || (elapsed_secs == SLEEP_THRESHOLD
            && elapsed_nanos > 0) {
            Some((elapsed_secs - SLEEP_TIME) as u64)
        } else {
            None
        },
{
    if elapsed_secs > SLEEP_THRESHOLD || (elapsed_secs == SLEEP_THRESHOLD && elapsed_nanos > 0) {
        Some(elapsed_secs - SLEEP_TIME)
    } else {
        None
    }
}

/// The average of the recorded sleeps in whole seconds, rounded down, or
/// nothing where none was recorded.
pub fn average_sleep(naps: &Vec<u64>) -> (average: Option<u64>)
    ensures
        naps@.len() == 0 ==> average is None,
        naps@.len() > 0 ==> average == Some((total(naps@) / naps@.len()) as u64),
{
    if naps.len() == 0 {
        return None;
    }
    let mut sum: u128 = 0;
    let mut i: usize = 0;
    while i < naps.len()
        invariant
            i <= naps.len(),
            sum == total(naps@.take(i as int)),
            sum <= i * u64::MAX,
        decreases naps.len() - i,
    {
        assert(naps@.take(i + 1).drop_last() == naps@.take(i as int));
        assert(i * u64::MAX + u64::MAX == (i + 1) * u64::MAX) by (nonlinear_arith);
        assert((i + 1) * u64::MAX <= usize::MAX * u64::MAX) by (nonlinear_arith)
            requires
                i + 1 <= usize::MAX,
        ;
        sum = sum + naps[i] as u128;
        i += 1;
    }
    assert(naps@.take(naps@.len() as int) == naps@);
    let count = naps.len() as u128;
    assert(sum / count <= u64::MAX) by (nonlinear_arith)
        requires
            sum <= count * u64::MAX,
            count > 0,
    ;
    Some((sum / count) as u64)
}

} // verus!
