//! The scheduler-facing monotonic clock adapter over the process-wide
//! fused counter singleton.

use vstd::prelude::*;

verus! {

use crate::counter::{FusedTimerCounter, InitError, MonotonicCell};
use crate::hw::{ClockController, PowerManager, Prescaler, TimerRegs, PERIPHERAL_CLOCK_HZ};
use crate::instant::Instant;

/// The fixed tick-to-time conversion fraction: a tick lasts
/// `numerator / denominator` seconds.
#[derive(Clone, Copy, PartialEq, Eq, Structural, Debug)]
pub struct Fraction {
    /// Seconds per tick, numerator.
    pub numerator: u32,
    /// Seconds per tick, denominator.
    pub denominator: u32,
}

/// The monotonic clock the cooperative scheduler consumes, backed by the
/// fused counter published in a `MonotonicCell`.
pub struct Tc4Tc5Counter;

impl Tc4Tc5Counter {
    /// Bring up the fused counter and publish it; a second call is
    /// rejected and changes nothing.
    pub fn initialize(
        tc4: TimerRegs,
        tc5: TimerRegs,
        gclk: &mut ClockController,
        pm: &mut PowerManager,
        top: u32,
        prescaler: Prescaler,
        cell: &mut MonotonicCell,
    ) -> (r: Result<(), InitError>)
        requires
            tc4 == TimerRegs::power_on(),
            tc5 == TimerRegs::power_on(),
        ensures
            r is Ok <==> !old(gclk).tc4_tc5_claimed && !old(cell).is_initialized(),
            r is Err ==> r == Err::<(), InitError>(InitError::AlreadyInitialized)
                && *final(gclk) == *old(gclk)
                && *final(pm) == *old(pm)
                && *final(cell) == *old(cell),
            r is Ok ==> final(gclk).tc4_tc5_claimed
                && final(cell).is_initialized()
                && final(cell).timer_spec().configured(top, prescaler)
                && final(cell).timer_spec().t1.cc0 == top
                && final(cell).timer_spec().t1.wavegen_mfrq == (top != u32::MAX)
                && final(cell).timer_spec().count_spec() == 0
                && !final(cell).timer_spec().ovf_spec(),
    {
        FusedTimerCounter::initialize(tc4, tc5, gclk, pm, top, prescaler, cell)
    }

    /// The tick-to-time ratio of the published counter. It is read back
    /// from the prescaler divider that was actually programmed, so the
    /// reported ratio can never drift from the configured hardware: one
    /// tick lasts `divisor / PERIPHERAL_CLOCK_HZ` seconds.
    pub fn ratio(cell: &MonotonicCell) -> (r: Fraction)
        requires
            cell.is_initialized(),
            cell.timer_spec().wf(),
        ensures
            r.numerator == cell.timer_spec().t1.prescaler.spec_divisor(),
            r.denominator == PERIPHERAL_CLOCK_HZ,
    {
        match &cell.timer {
            Some(t) => Fraction {
                numerator: t.t1.prescaler.divisor(),
                denominator: PERIPHERAL_CLOCK_HZ,
            },
            None => Fraction { numerator: 1, denominator: PERIPHERAL_CLOCK_HZ },
        }
    }

    /// The published counter's instantaneous count, wrapped as an
    /// `Instant`. Calling before initialization is a programming error
    /// and is ruled out.
    pub fn now(cell: &MonotonicCell) -> (r: Instant)
        requires
            cell.is_initialized(),
            cell.timer_spec().wf(),
        ensures
            r == Instant(cell.timer_spec().count_spec()),
    {
        match &cell.timer {
            Some(t) => t.now(),
            None => Instant(0),
        }
    }

    /// Force the published counter back to zero. Privileged: callable
    /// only during the single-threaded scheduler bring-up window, before
    /// any deadline has been computed.
    pub fn reset(cell: &mut MonotonicCell)
        requires
            old(cell).is_initialized(),
            old(cell).timer_spec().wf(),
        ensures
            final(cell).is_initialized(),
            final(cell).timer_spec().wf(),
            final(cell).timer_spec().count_spec() == 0,
            final(cell).timer_spec().t1 == (TimerRegs {
                count: 0,
                ..old(cell).timer_spec().t1
            }),
            final(cell).timer_spec().t2 == old(cell).timer_spec().t2,
    {
        match &mut cell.timer {
            Some(t) => t.reset(),
            None => {},
        }
    }

    /// The scheduler's epoch origin: the instant of tick value zero.
    pub fn zero() -> (r: Instant)
        ensures
            r == Instant(0u32),
    {
        Instant(0)
    }
}

/// The fixed millisecond-to-tick constant and the reported ratio agree
/// for the divide-by-1 prescaler the constant was derived from: the
/// counter gains `MILLIS_TO_CLK * 1000` ticks per second, exactly the
/// tick rate a ratio of `1 / PERIPHERAL_CLOCK_HZ` seconds per tick
/// declares. Deadline math stays sound only while the two move together.
pub proof fn lemma_conversion_matches_ratio()
    ensures
        crate::instant::MILLIS_TO_CLK * 1000 == PERIPHERAL_CLOCK_HZ
            / Prescaler::Div1.spec_divisor(),
{
    assert(crate::instant::MILLIS_TO_CLK == PERIPHERAL_CLOCK_HZ / 1000);
    assert(Prescaler::Div1.spec_divisor() == 1);
}

} // verus!
