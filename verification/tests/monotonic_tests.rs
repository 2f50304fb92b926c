use fused_timer::counter::MonotonicCell;
use fused_timer::hw::{ClockController, PowerManager, Prescaler, TimerRegs, PERIPHERAL_CLOCK_HZ};
use fused_timer::instant::Instant;
use fused_timer::monotonic::{Fraction, Tc4Tc5Counter};

fn adapter_bring_up(top: u32, prescaler: Prescaler) -> MonotonicCell {
    let mut gclk = ClockController::new();
    let mut pm = PowerManager::new();
    let mut cell = MonotonicCell::new();
    let r = Tc4Tc5Counter::initialize(
        TimerRegs::new(),
        TimerRegs::new(),
        &mut gclk,
        &mut pm,
        top,
        prescaler,
        &mut cell,
    );
    assert_eq!(r, Ok(()));
    cell
}

#[test]
fn zero_is_the_epoch_origin() {
    assert_eq!(Tc4Tc5Counter::zero(), Instant(0));
}

#[test]
fn ratio_reports_the_programmed_divider() {
    let cell = adapter_bring_up(u32::MAX, Prescaler::Div1);
    assert_eq!(
        Tc4Tc5Counter::ratio(&cell),
        Fraction { numerator: 1, denominator: PERIPHERAL_CLOCK_HZ }
    );
}

#[test]
fn adapter_reset_rewinds_now() {
    let mut cell = adapter_bring_up(u32::MAX, Prescaler::Div1);
    cell.timer.as_mut().unwrap().advance(5_000);
    assert_eq!(Tc4Tc5Counter::now(&cell), Instant(5_000));
    Tc4Tc5Counter::reset(&mut cell);
    assert_eq!(Tc4Tc5Counter::now(&cell), Instant(0));
}

#[test]
fn end_to_end_scenario() {
    // Free-run to the full 32-bit range, prescaler divide-by-1024, at the
    // nominal 48 MHz peripheral clock.
    let mut cell = adapter_bring_up(u32::MAX, Prescaler::Div1024);

    // One tick lasts 1024 / 48_000_000 s, about 21.33 microseconds.
    assert_eq!(
        Tc4Tc5Counter::ratio(&cell),
        Fraction { numerator: 1024, denominator: 48_000_000 }
    );

    // now() increases monotonically as time elapses...
    let mut last = Tc4Tc5Counter::now(&cell);
    assert_eq!(last, Instant(0));
    for elapsed in [1u32, 10, 1_000, 1_000_000, 500_000_000] {
        cell.timer.as_mut().unwrap().advance(elapsed);
        let now = Tc4Tc5Counter::now(&cell);
        assert!(now.0 >= last.0);
        assert_eq!(now.sub(last), Instant(elapsed));
        last = now;
    }
    assert!(!cell.timer.as_ref().unwrap().overflowed());

    // ...and dips below a prior reading only across a full wraparound.
    let before_wrap = Tc4Tc5Counter::now(&cell);
    cell.timer.as_mut().unwrap().advance(u32::MAX);
    cell.timer.as_mut().unwrap().advance(1);
    let after_wrap = Tc4Tc5Counter::now(&cell);
    assert_eq!(after_wrap, before_wrap);
    assert!(cell.timer.as_ref().unwrap().overflowed());
}
