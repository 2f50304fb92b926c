use fused_timer::instant::{Instant, Milliseconds, MILLIS_TO_CLK};

#[test]
fn wraparound_subtraction_law() {
    assert_eq!(Instant(100).sub(Instant(40)), Instant(60));
    assert_eq!(Instant(40).sub(Instant(40)), Instant(0));
    assert_eq!(Instant(u32::MAX).sub(Instant(0)), Instant(u32::MAX));
    assert_eq!(Instant(1_000_000).sub(Instant(999_999)), Instant(1));
}

#[test]
fn epoch_wraparound_subtraction() {
    // 5 - 0xFFFF_FFF0 wraps: 5 + 0x10 = 0x15 elapsed ticks.
    assert_eq!(Instant(5).sub(Instant(0xFFFF_FFF0)), Instant(0x15));
    assert_eq!(Instant(0).sub(Instant(u32::MAX)), Instant(1));
}

#[test]
fn millis_to_tick_conversion_exact() {
    assert_eq!(MILLIS_TO_CLK, 48_000);
    let deadline = Instant(0).add(Milliseconds(1000));
    assert_eq!(deadline.0, MILLIS_TO_CLK * 1000);
    assert_eq!(Instant(7).add(Milliseconds(0)), Instant(7));
    assert_eq!(Instant(2).add(Milliseconds(1)), Instant(2 + 48_000));
}

#[test]
fn millis_addition_chains_without_drift() {
    let mut chained = Instant(123_456);
    for _ in 0..1000 {
        chained = chained.add(Milliseconds(1));
    }
    let at_once = Instant(123_456).add(Milliseconds(1000));
    assert_eq!(chained, at_once);
}

#[test]
fn millis_addition_wraps() {
    // One millisecond past the top of the range wraps around.
    let near_top = Instant(u32::MAX);
    assert_eq!(near_top.add(Milliseconds(1)).0, MILLIS_TO_CLK - 1);
}

#[test]
fn instant_try_into_ticks() {
    let r: Result<u32, core::convert::Infallible> = Instant(42).try_into();
    assert_eq!(r, Ok(42));
}
