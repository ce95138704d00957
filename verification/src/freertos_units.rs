//! Tick-based durations, parameterized over the platform's tick frequency.
//!
//! The kernel measures time in scheduler ticks; callers think in
//! milliseconds. The conversion rounds up, so a requested delay is never
//! shorter than requested.

use vstd::arithmetic::div_mod::{
    lemma_basic_div, lemma_div_nonincreasing, lemma_fundamental_div_mod,
    lemma_fundamental_div_mod_converse, lemma_mod_division_less_than_divisor,
};
use vstd::prelude::*;

verus! {

/// Scheduler tick frequency of the platform, in ticks per second.
#[allow(non_upper_case_globals)]
pub const configTICK_RATE_HZ: u32 = 100;

/// Length of one scheduler tick in milliseconds.
#[allow(non_upper_case_globals)]
pub const portTICK_PERIOD_MS: u32 = 1000 / configTICK_RATE_HZ;

/// The platform constants a duration needs: how long a tick lasts and the
/// tick count that stands for an unbounded wait.
pub trait FreeRtosTimeUnits {
    spec fn spec_tick_period_ms() -> u32;

    spec fn spec_max_wait() -> u32;

    fn get_tick_period_ms() -> (r: u32)
        ensures
            r == Self::spec_tick_period_ms(),
            r >= 1,
    ;

    fn get_max_wait() -> (r: u32)
        ensures
            r == Self::spec_max_wait(),
    ;
}

/// The fixed constants of this target: 10 ms ticks, and an all-ones tick
/// count for an unbounded wait.
#[derive(Copy, Clone, Debug, PartialEq, Eq, Structural)]
pub struct FreeRtosTimeUnitsShimmed;

impl Default for FreeRtosTimeUnitsShimmed {
    fn default() -> (r: Self)
        ensures
            r == FreeRtosTimeUnitsShimmed,
    {
        FreeRtosTimeUnitsShimmed
    }
}

impl FreeRtosTimeUnits for FreeRtosTimeUnitsShimmed {
    open spec fn spec_tick_period_ms() -> u32 {
        portTICK_PERIOD_MS
    }

    open spec fn spec_max_wait() -> u32 {
        u32::MAX
    }

    fn get_tick_period_ms() -> u32 {
        portTICK_PERIOD_MS
    }

    fn get_max_wait() -> u32 {
        u32::MAX
    }
}

/// Anything that can be handed to the kernel as a tick count.
pub trait DurationTicks: Copy + Clone {
    spec fn spec_ticks(&self) -> u32;

    /// Convert to ticks, the internal time measurement unit of FreeRTOS.
    fn to_ticks(&self) -> (r: u32)
        ensures
            r == self.spec_ticks(),
    ;
}

/// Milliseconds turned into ticks, rounding up: the least tick count whose
/// span covers `ms` milliseconds.
pub open spec fn ticks_from_ms(ms: int, period: int) -> int
    recommends
        period >= 1,
{
    (ms + period - 1) / period
}

/// Time unit used by FreeRTOS, passed to the scheduler as ticks.
#[derive(Debug, PartialEq, Eq)]
pub struct DurationImpl<T> {
    ticks: u32,
    _time_units: core::marker::PhantomData<T>,
}

impl<T> Clone for DurationImpl<T> {
    fn clone(&self) -> (r: Self)
        ensures
            r == *self,
    {
        DurationImpl { ticks: self.ticks, _time_units: core::marker::PhantomData }
    }
}

impl<T> Copy for DurationImpl<T> {

}

/// Duration over this target's tick frequency.
pub type Duration = DurationImpl<FreeRtosTimeUnitsShimmed>;

impl<T> DurationImpl<T> where T: FreeRtosTimeUnits + Copy {
    /// Milliseconds constructor; the tick count always rounds up.
    pub fn ms(milliseconds: u32) -> (r: Self)
        ensures
            r.spec_ticks() == ticks_from_ms(
                milliseconds as int,
                T::spec_tick_period_ms() as int,
            ),
    {
        let period = T::get_tick_period_ms();
        if milliseconds == 0 {
            proof {
                lemma_basic_div(period - 1, period as int);
            }
            Self::ticks(0)
        } else {
            proof {
                lemma_div_nonincreasing(milliseconds - 1, period as int);
            }
            let t: u32 = (milliseconds - 1) / period + 1;
            proof {
                let mi = milliseconds as int;
                let pi = period as int;
                let q = (mi - 1) / pi;
                let rem = (mi - 1) % pi;
                lemma_fundamental_div_mod(mi - 1, pi);
                lemma_mod_division_less_than_divisor(mi - 1, pi);
                assert((q + 1) * pi == q * pi + pi) by (nonlinear_arith);
                lemma_fundamental_div_mod_converse(mi + pi - 1, pi, q + 1, rem);
            }
            Self::ticks(t)
        }
    }

    /// A duration of exactly this many ticks.
    pub fn ticks(ticks: u32) -> (r: Self)
        ensures
            r.spec_ticks() == ticks,
    {
        DurationImpl { ticks, _time_units: core::marker::PhantomData }
    }

    /// An infinite duration.
    pub fn infinite() -> (r: Self)
        ensures
            r.spec_ticks() == T::spec_max_wait(),
    {
        Self::ticks(T::get_max_wait())
    }

    /// A duration of zero, for non-blocking calls.
    pub fn zero() -> (r: Self)
        ensures
            r.spec_ticks() == 0,
    {
        Self::ticks(0)
    }

    /// Smallest representable positive duration, one tick.
    pub fn eps() -> (r: Self)
        ensures
            r.spec_ticks() == 1,
    {
        Self::ticks(1)
    }

    /// The span of this duration in milliseconds.
    pub fn to_ms(&self) -> (r: u32)
        requires
            self.spec_ticks() * T::spec_tick_period_ms() <= u32::MAX,
        ensures
            r == self.spec_ticks() * T::spec_tick_period_ms(),
    {
        self.ticks * T::get_tick_period_ms()
    }
}

impl<T> DurationTicks for DurationImpl<T> where T: FreeRtosTimeUnits + Copy {
    closed spec fn spec_ticks(&self) -> u32 {
        self.ticks
    }

    fn to_ticks(&self) -> u32 {
        self.ticks
    }
}

/// The tick count built from `ms` milliseconds is the ceiling of
/// `ms / period`: its span covers the request, one tick fewer would not,
/// and zero milliseconds give zero ticks.
pub proof fn lemma_ticks_from_ms_is_ceil(ms: int, period: int)
    requires
        0 <= ms,
        1 <= period,
    ensures
        ticks_from_ms(ms, period) * period >= ms,
        ms > 0 ==> (ticks_from_ms(ms, period) - 1) * period < ms,
        ticks_from_ms(0, period) == 0,
{
    let q = (ms + period - 1) / period;
    let rem = (ms + period - 1) % period;
    lemma_fundamental_div_mod(ms + period - 1, period);
    lemma_mod_division_less_than_divisor(ms + period - 1, period);
    assert(q * period == period * q) by (nonlinear_arith);
    assert((q - 1) * period == q * period - period) by (nonlinear_arith);
    lemma_basic_div(period - 1, period);
}

} // verus!
