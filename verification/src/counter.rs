//! The fused counter driver: the one-time cascade bring-up sequence, the
//! overflow-flag protocol, and the raw tick primitives.

use vstd::prelude::*;

verus! {

use crate::hw::{ClockController, PowerManager, Prescaler, TimerRegs};
use crate::instant::Instant;

/// Why a bring-up attempt was refused.
#[derive(Clone, Copy, PartialEq, Eq, Structural, Debug)]
pub enum InitError {
    /// The timers' peripheral clock was already claimed or the singleton
    /// already holds a counter: an attempted re-initialization.
    AlreadyInitialized,
    /// The slave peripheral never reported the cascade engaged; continuing
    /// would leave a 16-bit counter masquerading as a 32-bit one. The
    /// verified sequence proves this never happens on the register model.
    CascadeFailed,
}

/// Two 16-bit timer/counter peripherals fused into one free-running
/// 32-bit counter. The master's registers carry the live count, the
/// overflow flag and the reset; the slave is only confirmed to sit in
/// cascade mode, never read for data afterwards.
pub struct FusedTimerCounter {
    /// The master peripheral.
    pub t1: TimerRegs,
    /// The slave peripheral.
    pub t2: TimerRegs,
}

/// The process-wide clock singleton: a cell holding at most one fused
/// counter, written exactly once during initialization and read
/// thereafter.
pub struct MonotonicCell {
    /// The published counter, if initialization has run.
    pub timer: Option<FusedTimerCounter>,
}

impl MonotonicCell {
    /// An empty cell: reading time through it is not yet allowed.
    pub fn new() -> (r: MonotonicCell)
        ensures
            r.timer is None,
    {
        MonotonicCell { timer: None }
    }

    /// The singleton has been published.
    pub open spec fn is_initialized(self) -> bool {
        self.timer is Some
    }

    /// The published counter.
    pub open spec fn timer_spec(self) -> FusedTimerCounter {
        self.timer->Some_0
    }
}

impl FusedTimerCounter {
    /// The driver's invariant once constructed: running in 32-bit
    /// cascaded mode, counting up and periodic, live reads coherent, no
    /// reset or synchronization pending, and the cascade confirmed
    /// engaged on the slave.
    pub open spec fn wf(self) -> bool {
        &&& self.t1.bus_clocked
        &&& self.t1.enabled
        &&& self.t1.mode32
        &&& !self.t1.dir_down
        &&& !self.t1.oneshot
        &&& self.t1.read_continuous
        &&& self.t1.swrst_cycles == 0
        &&& self.t1.sync_cycles == 0
        &&& self.t2.bus_clocked
        &&& self.t2.slave
        &&& self.t2.sync_cycles == 0
    }

    /// The driver is well formed and was configured with this wrap point
    /// and this prescaler divider.
    pub open spec fn configured(self, top: u32, prescaler: Prescaler) -> bool {
        &&& self.wf()
        &&& self.t1.wrap_top() == top
        &&& self.t1.prescaler == prescaler
    }

    /// The live 32-bit count.
    pub open spec fn count_spec(self) -> u32 {
        self.t1.count
    }

    /// The latched overflow flag.
    pub open spec fn ovf_spec(self) -> bool {
        self.t1.ovf
    }

    /// Perform the one-time cascade bring-up on two freshly acquired,
    /// previously unconfigured peripherals and publish the counter into
    /// the process-wide singleton.
    ///
    /// The sequence is order-sensitive: claim the peripheral clock once,
    /// open both bus clock gates, disable and software-reset the master
    /// with the mandated synchronization waits, configure direction and
    /// periodic mode, continuous read requests and the wrap point, apply
    /// width, waveform submode, prescaler and enable in one atomic write,
    /// wait for both clock domains to settle, and confirm the cascade
    /// engaged on the slave.
    ///
    /// A second call is rejected and changes nothing; the counter starts
    /// at zero with the overflow flag clear.
    pub fn initialize(
        tc4: TimerRegs,
        tc5: TimerRegs,
        gclk: &mut ClockController,
        pm: &mut PowerManager,
        top: u32,
        prescaler: Prescaler,
        cell: &mut MonotonicCell,
    ) -> (r: Result<(), InitError>)
        requires
            tc4 == TimerRegs::power_on(),
            tc5 == TimerRegs::power_on(),
        ensures
            r is Ok <==> !old(gclk).tc4_tc5_claimed && !old(cell).is_initialized(),
            r is Err ==> r == Err::<(), InitError>(InitError::AlreadyInitialized)
                && *final(gclk) == *old(gclk)
                && *final(pm) == *old(pm)
                && *final(cell) == *old(cell),
            r is Ok ==> final(gclk).tc4_tc5_claimed
                && final(pm).tc4_mask
                && final(pm).tc5_mask
                && final(cell).is_initialized()
                && final(cell).timer_spec().configured(top, prescaler)
                && final(cell).timer_spec().t1.cc0 == top
                && final(cell).timer_spec().t1.wavegen_mfrq == (top != u32::MAX)
                && final(cell).timer_spec().count_spec() == 0
                && !final(cell).timer_spec().ovf_spec(),
    {
        if cell.timer.is_some() {
            return Err(InitError::AlreadyInitialized);
        }
        let claimed = gclk.tc4_tc5();
        if claimed.is_none() {
            return Err(InitError::AlreadyInitialized);
        }

        let mut t1 = tc4;
        let mut t2 = tc5;
        pm.enable_tc4(&mut t1);
        pm.enable_tc5(&mut t2);

        // Disable the counter, then wait for the write to commit before
        // the dependent reset write.
        t1.write_enable(false);
        t1.wait_sync();

        // Software-reset the master; the reset bit's own completion must
        // be polled directly besides the generic busy indicator.
        t1.write_swrst();
        t1.wait_sync();
        t1.wait_swrst();

        // Count up, periodic: wrap and continue rather than halt.
        t1.write_ctrlb(false, false);

        // Coherent live reads without a per-read latch request.
        t1.write_readreq_continuous();

        // The wrap point: free-run over the full range when the top value
        // is the maximum, a compare-driven period otherwise.
        t1.write_cc0(top);
        let mfrq = top != u32::MAX;

        // Width, waveform submode, prescaler and enable, applied together.
        t1.write_ctrla_cascade(&mut t2, mfrq, prescaler);

        // Let the write settle in the master's clock domain, then confirm
        // the cascade crossing settled in the slave's.
        t1.wait_sync();
        t2.wait_sync();

        if !t2.read_slave() {
            return Err(InitError::CascadeFailed);
        }

        cell.timer = Some(FusedTimerCounter { t1, t2 });
        Ok(())
    }

    /// Whether the counter has passed its wrap point since the flag was
    /// last cleared; non-destructive.
    pub fn overflowed(&self) -> (r: bool)
        requires
            self.wf(),
        ensures
            r == self.ovf_spec(),
    {
        self.t1.read_ovf()
    }

    /// Clear the latched overflow flag; until the next wrap,
    /// `overflowed` then reports false. Nothing else changes.
    pub fn reset_ovf_flag(&mut self)
        requires
            old(self).wf(),
        ensures
            final(self).wf(),
            !final(self).ovf_spec(),
            final(self).count_spec() == old(self).count_spec(),
            final(self).t1 == (TimerRegs { ovf: false, ..old(self).t1 }),
            final(self).t2 == old(self).t2,
    {
        self.t1.clear_ovf();
    }

    /// The instantaneous count as an `Instant`.
    pub fn now(&self) -> (r: Instant)
        requires
            self.wf(),
        ensures
            r == Instant(self.count_spec()),
    {
        Instant(self.now_u32())
    }

    /// The instantaneous raw 32-bit count; returns immediately.
    pub fn now_u32(&self) -> (r: u32)
        requires
            self.wf(),
        ensures
            r == self.count_spec(),
    {
        self.t1.read_count()
    }

    /// Force the live count back to zero; used only during scheduler
    /// bring-up. Configuration and the overflow flag are untouched.
    pub fn reset(&mut self)
        requires
            old(self).wf(),
        ensures
            final(self).wf(),
            final(self).count_spec() == 0,
            final(self).t1 == (TimerRegs { count: 0, ..old(self).t1 }),
            final(self).t2 == old(self).t2,
    {
        self.t1.reset_count();
    }

    /// Let the fused counter count `ticks` further increments: the count
    /// advances modulo the configured wrap point and the overflow flag
    /// latches on every pass over it.
    pub fn advance(&mut self, ticks: u32)
        requires
            old(self).wf(),
        ensures
            final(self).wf(),
            final(self).count_spec() == old(self).t1.advanced_count(ticks),
            final(self).ovf_spec() == old(self).t1.advanced_ovf(ticks),
            final(self).t1 == (TimerRegs {
                count: old(self).t1.advanced_count(ticks),
                ovf: old(self).t1.advanced_ovf(ticks),
                ..old(self).t1
            }),
            final(self).t2 == old(self).t2,
    {
        self.t1.advance(ticks);
    }
}

} // verus!
