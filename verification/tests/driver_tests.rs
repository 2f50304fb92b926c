use fused_timer::counter::{FusedTimerCounter, InitError, MonotonicCell};
use fused_timer::hw::{ClockController, PowerManager, Prescaler, TimerRegs};
use fused_timer::instant::Instant;

fn bring_up(top: u32, prescaler: Prescaler) -> MonotonicCell {
    let mut gclk = ClockController::new();
    let mut pm = PowerManager::new();
    let mut cell = MonotonicCell::new();
    let r = FusedTimerCounter::initialize(
        TimerRegs::new(),
        TimerRegs::new(),
        &mut gclk,
        &mut pm,
        top,
        prescaler,
        &mut cell,
    );
    assert_eq!(r, Ok(()));
    cell
}

#[test]
fn initialize_starts_at_zero_with_flag_clear() {
    let cell = bring_up(u32::MAX, Prescaler::Div1);
    let timer = cell.timer.as_ref().unwrap();
    assert_eq!(timer.now_u32(), 0);
    assert_eq!(timer.now(), Instant(0));
    assert!(!timer.overflowed());
}

#[test]
fn double_initialization_is_rejected() {
    let mut gclk = ClockController::new();
    let mut pm = PowerManager::new();
    let mut cell = MonotonicCell::new();
    let first = FusedTimerCounter::initialize(
        TimerRegs::new(),
        TimerRegs::new(),
        &mut gclk,
        &mut pm,
        u32::MAX,
        Prescaler::Div1,
        &mut cell,
    );
    assert_eq!(first, Ok(()));
    cell.timer.as_mut().unwrap().advance(77);

    let second = FusedTimerCounter::initialize(
        TimerRegs::new(),
        TimerRegs::new(),
        &mut gclk,
        &mut pm,
        u32::MAX,
        Prescaler::Div1,
        &mut cell,
    );
    assert_eq!(second, Err(InitError::AlreadyInitialized));
    // The first configured instance was not replaced.
    assert_eq!(cell.timer.as_ref().unwrap().now_u32(), 77);
}

#[test]
fn claimed_clock_rejects_even_with_fresh_cell() {
    let mut gclk = ClockController::new();
    let mut pm = PowerManager::new();
    let mut cell = MonotonicCell::new();
    let _ = gclk.tc4_tc5();
    let r = FusedTimerCounter::initialize(
        TimerRegs::new(),
        TimerRegs::new(),
        &mut gclk,
        &mut pm,
        u32::MAX,
        Prescaler::Div1,
        &mut cell,
    );
    assert_eq!(r, Err(InitError::AlreadyInitialized));
    assert!(cell.timer.is_none());
}

#[test]
fn overflow_flag_latches_until_cleared() {
    // A short compare-driven period: the counter wraps past 999.
    let mut cell = bring_up(999, Prescaler::Div1);
    let timer = cell.timer.as_mut().unwrap();
    timer.advance(999);
    assert_eq!(timer.now_u32(), 999);
    assert!(!timer.overflowed());

    timer.advance(1);
    assert_eq!(timer.now_u32(), 0);
    assert!(timer.overflowed());

    // Latched: further counting does not clear it.
    timer.advance(10);
    assert!(timer.overflowed());

    timer.reset_ovf_flag();
    assert!(!timer.overflowed());
    assert_eq!(timer.now_u32(), 10);

    // Set again on the next wrap.
    timer.advance(990);
    assert_eq!(timer.now_u32(), 0);
    assert!(timer.overflowed());
}

#[test]
fn free_running_counter_wraps_at_full_range() {
    let mut cell = bring_up(u32::MAX, Prescaler::Div1);
    let timer = cell.timer.as_mut().unwrap();
    timer.advance(u32::MAX);
    assert_eq!(timer.now_u32(), u32::MAX);
    assert!(!timer.overflowed());
    timer.advance(1);
    assert_eq!(timer.now_u32(), 0);
    assert!(timer.overflowed());
}

#[test]
fn reset_forces_count_to_zero() {
    let mut cell = bring_up(u32::MAX, Prescaler::Div1);
    let timer = cell.timer.as_mut().unwrap();
    timer.advance(123_456);
    assert_eq!(timer.now_u32(), 123_456);
    timer.reset();
    assert_eq!(timer.now_u32(), 0);
    assert!(!timer.overflowed());
}
