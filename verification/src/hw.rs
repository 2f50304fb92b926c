//! Register-level model of one 16-bit timer/counter peripheral and of the
//! two collaborators the driver consumes: the clock-source controller and
//! the peripheral clock-gating controller.
//!
//! Each peripheral's hardware-visible state is held as plain values. A
//! register write that must cross the peripheral's asynchronous clock
//! domain leaves a synchronization-busy countdown behind; the hardware
//! guarantees the crossing settles in bounded time, so the countdown
//! strictly falls at every poll and the spin-waits are bounded.

use vstd::prelude::*;

verus! {

use vstd::arithmetic::div_mod::lemma_small_mod;

/// Nominal frequency, in Hz, of the peripheral clock routed to the two
/// timer peripherals by the upstream clock tree.
pub const PERIPHERAL_CLOCK_HZ: u32 = 48_000_000;

/// Polls needed before a synchronized register write is visible.
pub const SYNC_DELAY: u32 = 2;

/// Polls needed before a software reset completes; the reset bit clears
/// later than the generic synchronization-busy indicator.
pub const RESET_DELAY: u32 = 3;

/// The clock prescaler dividers the counter hardware offers.
#[derive(Clone, Copy, PartialEq, Eq, Structural, Debug)]
pub enum Prescaler {
    Div1,
    Div2,
    Div4,
    Div8,
    Div16,
    Div64,
    Div256,
    Div1024,
}

impl Prescaler {
    /// The division factor this prescaler applies to the peripheral clock.
    pub open spec fn spec_divisor(self) -> u32 {
        match self {
            Prescaler::Div1 => 1,
            Prescaler::Div2 => 2,
            Prescaler::Div4 => 4,
            Prescaler::Div8 => 8,
            Prescaler::Div16 => 16,
            Prescaler::Div64 => 64,
            Prescaler::Div256 => 256,
            Prescaler::Div1024 => 1024,
        }
    }

    #[verifier::when_used_as_spec(spec_divisor)]
    pub fn divisor(self) -> (d: u32)
        ensures
            d == self.spec_divisor(),
    {
        match self {
            Prescaler::Div1 => 1,
            Prescaler::Div2 => 2,
            Prescaler::Div4 => 4,
            Prescaler::Div8 => 8,
            Prescaler::Div16 => 16,
            Prescaler::Div64 => 64,
            Prescaler::Div256 => 256,
            Prescaler::Div1024 => 1024,
        }
    }
}

/// The hardware-visible state of one timer/counter peripheral.
#[derive(Clone, Copy, PartialEq, Eq, Structural, Debug)]
pub struct TimerRegs {
    /// The bus clock gate for this peripheral is open; no register access
    /// takes effect before it is.
    pub bus_clocked: bool,
    /// Counting is enabled.
    pub enabled: bool,
    /// Remaining polls until an issued software reset has completed.
    pub swrst_cycles: u32,
    /// Remaining polls until the last synchronized write has committed.
    pub sync_cycles: u32,
    /// The counter is in 32-bit cascaded width.
    pub mode32: bool,
    /// Count direction: down when set, up when clear.
    pub dir_down: bool,
    /// One-shot mode: halt at the wrap point instead of continuing.
    pub oneshot: bool,
    /// Waveform submode: wrap at the compare value instead of free-running
    /// over the full range.
    pub wavegen_mfrq: bool,
    /// The configured clock prescaler divider.
    pub prescaler: Prescaler,
    /// Keep running in standby.
    pub run_standby: bool,
    /// Continuous read-request mode: live count reads are coherent without
    /// an explicit latch request per read.
    pub read_continuous: bool,
    /// The compare ("top") value that defines the wrap point in the
    /// compare-driven waveform submode.
    pub cc0: u32,
    /// The live count value.
    pub count: u32,
    /// The overflow interrupt flag; latched on wrap, write-one-to-clear.
    pub ovf: bool,
    /// This peripheral is the subordinate half of an engaged cascade.
    pub slave: bool,
}

impl TimerRegs {
    /// The state of a freshly powered, never configured peripheral.
    pub open spec fn power_on() -> TimerRegs {
        TimerRegs {
            bus_clocked: false,
            enabled: false,
            swrst_cycles: 0,
            sync_cycles: 0,
            mode32: false,
            dir_down: false,
            oneshot: false,
            wavegen_mfrq: false,
            prescaler: Prescaler::Div1,
            run_standby: false,
            read_continuous: false,
            cc0: 0,
            count: 0,
            ovf: false,
            slave: false,
        }
    }

    /// A fresh, previously unconfigured peripheral.
    pub fn new() -> (r: TimerRegs)
        ensures
            r == TimerRegs::power_on(),
    {
        TimerRegs {
            bus_clocked: false,
            enabled: false,
            swrst_cycles: 0,
            sync_cycles: 0,
            mode32: false,
            dir_down: false,
            oneshot: false,
            wavegen_mfrq: false,
            prescaler: Prescaler::Div1,
            run_standby: false,
            read_continuous: false,
            cc0: 0,
            count: 0,
            ovf: false,
            slave: false,
        }
    }

    /// The count value at which the counter wraps back to zero: the
    /// compare value in the compare-driven submode, the full 32-bit range
    /// otherwise.
    pub open spec fn wrap_top(self) -> u32 {
        if self.wavegen_mfrq {
            self.cc0
        } else {
            u32::MAX
        }
    }

    /// The counter's modulus: one more than the wrap point.
    pub open spec fn period(self) -> int {
        self.wrap_top() + 1
    }

    /// The count after `ticks` further counter increments.
    pub open spec fn advanced_count(self, ticks: u32) -> u32 {
        (((self.count + ticks) % self.period()) as u32)
    }

    /// The overflow flag after `ticks` further counter increments: it
    /// latches as soon as the counter passes its wrap point and stays set
    /// until explicitly cleared.
    pub open spec fn advanced_ovf(self, ticks: u32) -> bool {
        self.ovf || self.count + ticks > self.wrap_top()
    }

    /// Write the count-enable control bit; the write must cross the clock
    /// domain before a dependent write may follow.
    pub fn write_enable(&mut self, on: bool)
        requires
            old(self).bus_clocked,
            old(self).sync_cycles == 0,
            old(self).swrst_cycles == 0,
        ensures
            *final(self) == (TimerRegs { enabled: on, sync_cycles: SYNC_DELAY, ..*old(self) }),
    {
        self.enabled = on;
        self.sync_cycles = SYNC_DELAY;
    }

    /// Read the synchronization-busy indicator.
    pub fn syncbusy(&self) -> (r: bool)
        requires
            self.bus_clocked,
        ensures
            r == (self.sync_cycles > 0),
    {
        self.sync_cycles > 0
    }

    /// Spin until the synchronization-busy indicator clears. Each poll
    /// observes the hardware one step closer to settled, so the wait is
    /// bounded.
    pub fn wait_sync(&mut self)
        requires
            old(self).bus_clocked,
        ensures
            *final(self) == (TimerRegs { sync_cycles: 0, ..*old(self) }),
    {
        let ghost orig = *self;
        while self.syncbusy()
            invariant
                *self == (TimerRegs { sync_cycles: self.sync_cycles, ..orig }),
                orig.bus_clocked,
            decreases self.sync_cycles,
        {
            self.sync_cycles = self.sync_cycles - 1;
        }
    }

    /// Issue a software reset: every register returns to its power-on
    /// value, the reset-in-progress bit stays readable until the reset
    /// completes, and the write itself synchronizes like any other.
    pub fn write_swrst(&mut self)
        requires
            old(self).bus_clocked,
            old(self).sync_cycles == 0,
        ensures
            *final(self) == (TimerRegs {
                bus_clocked: true,
                swrst_cycles: RESET_DELAY,
                sync_cycles: SYNC_DELAY,
                ..TimerRegs::power_on()
            }),
    {
        *self = TimerRegs {
            bus_clocked: true,
            swrst_cycles: RESET_DELAY,
            sync_cycles: SYNC_DELAY,
            mode32: false,
            enabled: false,
            dir_down: false,
            oneshot: false,
            wavegen_mfrq: false,
            prescaler: Prescaler::Div1,
            run_standby: false,
            read_continuous: false,
            cc0: 0,
            count: 0,
            ovf: false,
            slave: false,
        };
    }

    /// Read the reset-in-progress bit; its completion is not reliably
    /// reflected by the generic synchronization-busy indicator, so it must
    /// be polled directly.
    pub fn swrst_pending(&self) -> (r: bool)
        requires
            self.bus_clocked,
        ensures
            r == (self.swrst_cycles > 0),
    {
        self.swrst_cycles > 0
    }

    /// Spin until the software reset has completed; bounded like
    /// `wait_sync`.
    pub fn wait_swrst(&mut self)
        requires
            old(self).bus_clocked,
        ensures
            *final(self) == (TimerRegs { swrst_cycles: 0, ..*old(self) }),
    {
        let ghost orig = *self;
        while self.swrst_pending()
            invariant
                *self == (TimerRegs { swrst_cycles: self.swrst_cycles, ..orig }),
                orig.bus_clocked,
            decreases self.swrst_cycles,
        {
            self.swrst_cycles = self.swrst_cycles - 1;
        }
    }

    /// Write the direction and one-shot control bits.
    pub fn write_ctrlb(&mut self, dir_down: bool, oneshot: bool)
        requires
            old(self).bus_clocked,
            old(self).sync_cycles == 0,
            old(self).swrst_cycles == 0,
        ensures
            *final(self) == (TimerRegs { dir_down, oneshot, ..*old(self) }),
    {
        self.dir_down = dir_down;
        self.oneshot = oneshot;
    }

    /// Enable continuous read requests so later live count reads return a
    /// coherent value without a per-read latch request.
    pub fn write_readreq_continuous(&mut self)
        requires
            old(self).bus_clocked,
            old(self).sync_cycles == 0,
            old(self).swrst_cycles == 0,
        ensures
            *final(self) == (TimerRegs { read_continuous: true, ..*old(self) }),
    {
        self.read_continuous = true;
    }

    /// Program the compare ("top") value that defines the wrap point.
    pub fn write_cc0(&mut self, top: u32)
        requires
            old(self).bus_clocked,
            old(self).sync_cycles == 0,
            old(self).swrst_cycles == 0,
        ensures
            *final(self) == (TimerRegs { cc0: top, ..*old(self) }),
    {
        self.cc0 = top;
    }

    /// One atomic control-register write that sets the 32-bit cascaded
    /// width, the waveform submode, the prescaler and the enable bit
    /// together, as the hardware requires. Programming the cascaded width
    /// on this (master) peripheral makes the hardware pull its paired
    /// peripheral into slave mode, and the mode change crosses both
    /// peripherals' clock domains.
    pub fn write_ctrla_cascade(&mut self, paired: &mut TimerRegs, mfrq: bool, prescaler: Prescaler)
        requires
            old(self).bus_clocked,
            old(self).sync_cycles == 0,
            old(self).swrst_cycles == 0,
            !old(self).enabled,
            old(paired).bus_clocked,
            old(paired).swrst_cycles == 0,
        ensures
            *final(self) == (TimerRegs {
                mode32: true,
                wavegen_mfrq: mfrq,
                prescaler,
                run_standby: true,
                enabled: true,
                sync_cycles: SYNC_DELAY,
                ..*old(self)
            }),
            *final(paired) == (TimerRegs {
                slave: true,
                mode32: true,
                sync_cycles: SYNC_DELAY,
                ..*old(paired)
            }),
    {
        self.mode32 = true;
        self.wavegen_mfrq = mfrq;
        self.prescaler = prescaler;
        self.run_standby = true;
        self.enabled = true;
        self.sync_cycles = SYNC_DELAY;
        paired.slave = true;
        paired.mode32 = true;
        paired.sync_cycles = SYNC_DELAY;
    }

    /// Read the is-subordinate-in-cascade status bit; meaningful only once
    /// the clock-domain crossing has settled.
    pub fn read_slave(&self) -> (r: bool)
        requires
            self.bus_clocked,
            self.sync_cycles == 0,
        ensures
            r == self.slave,
    {
        self.slave
    }

    /// Read the live count value; coherent because continuous read
    /// requests were configured.
    pub fn read_count(&self) -> (r: u32)
        requires
            self.bus_clocked,
            self.read_continuous,
        ensures
            r == self.count,
    {
        self.count
    }

    /// Force the live count value back to zero.
    pub fn reset_count(&mut self)
        requires
            old(self).bus_clocked,
        ensures
            *final(self) == (TimerRegs { count: 0, ..*old(self) }),
    {
        self.count = 0;
    }

    /// Read the overflow interrupt flag; non-destructive.
    pub fn read_ovf(&self) -> (r: bool)
        requires
            self.bus_clocked,
        ensures
            r == self.ovf,
    {
        self.ovf
    }

    /// Clear the overflow interrupt flag by writing it
    /// (write-one-to-clear).
    pub fn clear_ovf(&mut self)
        requires
            old(self).bus_clocked,
        ensures
            *final(self) == (TimerRegs { ovf: false, ..*old(self) }),
    {
        self.ovf = false;
    }

    /// Let the counter hardware count `ticks` further increments: the
    /// count advances modulo the wrap point and the overflow flag latches
    /// on every pass over it.
    pub fn advance(&mut self, ticks: u32)
        requires
            old(self).enabled,
            old(self).mode32,
        ensures
            *final(self) == (TimerRegs {
                count: old(self).advanced_count(ticks),
                ovf: old(self).advanced_ovf(ticks),
                ..*old(self)
            }),
    {
        let top: u32 = if self.wavegen_mfrq {
            self.cc0
        } else {
            u32::MAX
        };
        let total: u64 = (self.count as u64) + (ticks as u64);
        if total > top as u64 {
            let modulus: u64 = (top as u64) + 1;
            let rem: u64 = total % modulus;
            proof {
                assert(rem < modulus);
            }
            self.count = rem as u32;
            self.ovf = true;
        } else {
            proof {
                lemma_small_mod(total as nat, self.period() as nat);
            }
            self.count = total as u32;
        }
    }
}

/// Ownership token for the peripheral-clock line routed to the two timer
/// peripherals; handed out at most once.
pub struct Tc4Tc5Clock;

/// Model of the upstream clock-tree controller: the only part the driver
/// consumes is the one-time claim of the timers' peripheral clock.
pub struct ClockController {
    /// The timers' peripheral clock has already been claimed.
    pub tc4_tc5_claimed: bool,
}

impl ClockController {
    /// An upstream clock tree whose timer peripheral clock is still
    /// unclaimed.
    pub fn new() -> (r: ClockController)
        ensures
            !r.tc4_tc5_claimed,
    {
        ClockController { tc4_tc5_claimed: false }
    }

    /// Claim the peripheral clock routed to the two timers. The claim
    /// succeeds exactly once; a second request signals an attempted
    /// re-initialization.
    pub fn tc4_tc5(&mut self) -> (r: Option<Tc4Tc5Clock>)
        ensures
            old(self).tc4_tc5_claimed ==> r is None && *final(self) == *old(self),
            !old(self).tc4_tc5_claimed ==> r is Some && final(self).tc4_tc5_claimed,
    {
        if self.tc4_tc5_claimed {
            None
        } else {
            self.tc4_tc5_claimed = true;
            Some(Tc4Tc5Clock)
        }
    }
}

/// Model of the peripheral clock-gating controller: one idempotent
/// enable-clock operation per peripheral.
pub struct PowerManager {
    /// The bus clock gate bit for the master timer peripheral.
    pub tc4_mask: bool,
    /// The bus clock gate bit for the slave timer peripheral.
    pub tc5_mask: bool,
}

impl PowerManager {
    /// A gating controller with both timer gates still closed.
    pub fn new() -> (r: PowerManager)
        ensures
            !r.tc4_mask,
            !r.tc5_mask,
    {
        PowerManager { tc4_mask: false, tc5_mask: false }
    }

    /// Open the bus clock gate for the master timer peripheral.
    pub fn enable_tc4(&mut self, regs: &mut TimerRegs)
        ensures
            *final(self) == (PowerManager { tc4_mask: true, ..*old(self) }),
            *final(regs) == (TimerRegs { bus_clocked: true, ..*old(regs) }),
    {
        self.tc4_mask = true;
        regs.bus_clocked = true;
    }

    /// Open the bus clock gate for the slave timer peripheral.
    pub fn enable_tc5(&mut self, regs: &mut TimerRegs)
        ensures
            *final(self) == (PowerManager { tc5_mask: true, ..*old(self) }),
            *final(regs) == (TimerRegs { bus_clocked: true, ..*old(regs) }),
    {
        self.tc5_mask = true;
        regs.bus_clocked = true;
    }
}


/// Monotonicity below the wrap point: as long as the counter does not
/// pass its wrap point, advancing only increases the count, and the
/// overflow flag is untouched.
pub proof fn lemma_advance_monotonic(t: TimerRegs, ticks: u32)
    requires
        t.count + ticks <= t.wrap_top(),
    ensures
        t.advanced_count(ticks) == t.count + ticks,
        t.advanced_ovf(ticks) == t.ovf,
{
    lemma_small_mod((t.count + ticks) as nat, t.period() as nat);
}

/// The overflow flag latches: once set, no amount of further counting
/// clears it; only the explicit write-one-to-clear does.
pub proof fn lemma_overflow_flag_latches(t: TimerRegs, ticks: u32)
    requires
        t.ovf,
    ensures
        t.advanced_ovf(ticks),
{
}

} // verus!
