//! Derivation of the prescaler and reload values from a clock rate and a
//! target output frequency.

use vstd::prelude::*;
use crate::convert::{checked_u16, widen_u16};
use vstd::arithmetic::div_mod::{lemma_div_is_ordered, lemma_fundamental_div_mod, lemma_mod_bound};

verus! {

/// Counter length of the prescaler stage: one prescaler step per 2^16 ticks.
pub const PRESCALER_SPAN: u32 = 65536;

/// Errors of PWM configuration.
#[derive(Clone, Copy, Debug, PartialEq, Eq, Structural)]
pub enum PwmError {
    /// The target frequency is zero, above the input clock, or needs a
    /// prescaler or reload value wider than 16 bits.
    FrequencyOutOfRange,
}

/// Prescaler (counter clock = input clock / (psc + 1)) and reload value
/// (period = arr + 1 counter ticks).
#[derive(Clone, Copy, Debug, PartialEq, Eq, Structural)]
pub struct TimerParams {
    pub psc: u16,
    pub arr: u16,
}

/// Input clock cycles per requested output period, truncated.
pub open spec fn ticks_of(clock_hz: int, target_hz: int) -> int {
    clock_hz / target_hz
}

/// The prescaler and reload value for `target_hz` from `clock_hz`, or `None`
/// when the request is out of range.
pub open spec fn timer_params(clock_hz: int, target_hz: int) -> Option<(int, int)> {
    if target_hz < 1 || target_hz > clock_hz {
        None
    } else {
        let ticks = ticks_of(clock_hz, target_hz);
        let psc = ticks / 65536;
        if psc > 0xFFFF {
            None
        } else {
            let arr = ticks / (psc + 1);
            if arr > 0xFFFF {
                None
            } else {
                Some((psc, arr))
            }
        }
    }
}

/// Length of one output period in input clock cycles.
pub open spec fn period_ticks(psc: int, arr: int) -> int {
    (psc + 1) * (arr + 1)
}

/// Computes the prescaler and reload value for `target_hz` from `clock_hz`.
pub fn derive_timer_params(clock_hz: u32, target_hz: u32) -> (r: Result<TimerParams, PwmError>)
    ensures
        match r {
            Ok(p) => timer_params(clock_hz as int, target_hz as int) == Some(
                (p.psc as int, p.arr as int),
            ),
            Err(e) => e == PwmError::FrequencyOutOfRange && timer_params(
                clock_hz as int,
                target_hz as int,
            ) is None,
        },
{
    if target_hz == 0 || target_hz > clock_hz {
        return Err(PwmError::FrequencyOutOfRange);
    }
    let ticks: u32 = clock_hz / target_hz;
    let psc: u16 = match checked_u16(ticks / PRESCALER_SPAN) {
        Ok(v) => v,
        Err(_) => {
            return Err(PwmError::FrequencyOutOfRange);
        },
    };
    let arr: u16 = match checked_u16(ticks / (widen_u16(psc) + 1)) {
        Ok(v) => v,
        Err(_) => {
            return Err(PwmError::FrequencyOutOfRange);
        },
    };
    Ok(TimerParams { psc, arr })
}

/// The reload value approximates the tick count from below at prescaled
/// resolution: `(psc + 1) * arr <= ticks`, while the full period
/// `(psc + 1) * (arr + 1)` exceeds `ticks` by at least one clock cycle and by at
/// most one counter tick (`psc + 1` clock cycles).
pub open spec fn brackets_ticks(clock_hz: int, target_hz: int, psc: int, arr: int) -> bool {
    let ticks = ticks_of(clock_hz, target_hz);
    &&& (psc + 1) * arr <= ticks
    &&& ticks < period_ticks(psc, arr)
    &&& period_ticks(psc, arr) <= ticks + psc + 1
}

/// Every request with `1 <= target_hz <= clock_hz` on a 32-bit clock can be
/// met: the derivation yields a prescaler and a reload value, both within 16
/// bits, whose period brackets the tick count as `brackets_ticks` states.
pub proof fn lemma_params_exist(clock_hz: u32, target_hz: u32)
    requires
        1 <= target_hz <= clock_hz,
    ensures
        timer_params(clock_hz as int, target_hz as int) matches Some((psc, arr))
            && brackets_ticks(clock_hz as int, target_hz as int, psc, arr),
{
    let t = ticks_of(clock_hz as int, target_hz as int);
    assert(0 <= t <= 4294967295) by {
        lemma_div_is_ordered(0, clock_hz as int, target_hz as int);
        lemma_div_is_ordered(clock_hz as int, 4294967295, target_hz as int);
        assert(4294967295int / (target_hz as int) <= 4294967295) by (nonlinear_arith)
            requires target_hz >= 1;
    }
    let psc = t / 65536;
    lemma_div_is_ordered(t, 4294967295, 65536);
    assert(psc <= 0xFFFF);
    lemma_fundamental_div_mod(t, 65536);
    lemma_mod_bound(t, 65536);
    assert(t < 65536 * (psc + 1));
    let arr = t / (psc + 1);
    lemma_fundamental_div_mod(t, psc + 1);
    lemma_mod_bound(t, psc + 1);
    assert((psc + 1) * arr <= t < (psc + 1) * (arr + 1)) by (nonlinear_arith)
        requires
            t == (psc + 1) * arr + t % (psc + 1),
            0 <= t % (psc + 1) < psc + 1,
    ;
    assert(arr <= 0xFFFF) by (nonlinear_arith)
        requires
            (psc + 1) * arr <= t,
            t < 65536 * (psc + 1),
            psc >= 0,
    ;
    assert(period_ticks(psc, arr) <= t + psc + 1) by (nonlinear_arith)
        requires
            t == (psc + 1) * arr + t % (psc + 1),
            0 <= t % (psc + 1) < psc + 1,
    ;
}

/// A request whose tick count needs a prescaler above 16 bits is rejected.
pub proof fn lemma_prescaler_overflow_rejected(clock_hz: int, target_hz: int)
    requires
        1 <= target_hz <= clock_hz,
        ticks_of(clock_hz, target_hz) / 65536 > 0xFFFF,
    ensures
        timer_params(clock_hz, target_hz) is None,
{
}

} // verus!
