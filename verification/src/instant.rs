//! The monotonic timestamp type and its wrapping tick arithmetic.

use vstd::prelude::*;

verus! {

use vstd::arithmetic::div_mod::{lemma_add_mod_noop, lemma_mod_multiples_vanish, lemma_small_mod};
use vstd::arithmetic::mul::lemma_mul_is_distributive_add_other_way;
use vstd::wrapping::u32_specs;

/// Number of counter ticks in one millisecond for the build's fixed
/// conversion policy: the peripheral clock divided down by the
/// divide-by-one prescaler. Whoever initializes the fused counter with a
/// different prescaler must not mix that instance with millisecond
/// arithmetic on `Instant`: the two constants must move together.
pub const MILLIS_TO_CLK: u32 = crate::hw::PERIPHERAL_CLOCK_HZ / 1000;

/// A duration expressed in whole milliseconds.
#[derive(Clone, Copy, PartialEq, Eq, Structural, Debug)]
pub struct Milliseconds(pub u32);

/// An opaque monotonic timestamp: a 32-bit tick count since an arbitrary
/// epoch. Instants are meaningful to compare or subtract only within one
/// full 2^32-tick wraparound epoch.
#[derive(Clone, Copy, PartialEq, Eq, PartialOrd, Ord, Structural, Debug)]
pub struct Instant(pub u32);

impl Instant {
    /// What `sub` returns: elapsed ticks under unsigned wraparound.
    pub open spec fn spec_sub(self, other: Instant) -> Instant {
        Instant(u32_specs::wrapping_sub(self.0, other.0))
    }

    /// What `add` returns: the instant `other` milliseconds later, with
    /// the millisecond count converted to ticks by the fixed
    /// `MILLIS_TO_CLK` factor, both steps wrapping.
    pub open spec fn spec_add(self, other: Milliseconds) -> Instant {
        Instant(u32_specs::wrapping_add(self.0, u32_specs::wrapping_mul(other.0, MILLIS_TO_CLK)))
    }

    /// Elapsed duration in ticks from `other` to `self`, as wraparound
    /// subtraction; a true elapsed time only when `self` occurred at or
    /// after `other` within one epoch.
    pub fn sub(self, other: Instant) -> (r: Instant)
        ensures
            r == self.spec_sub(other),
    {
        Instant(self.0.wrapping_sub(other.0))
    }

    /// The instant `other` milliseconds after `self`, computed with
    /// wrapping multiplication and addition.
    pub fn add(self, other: Milliseconds) -> (r: Instant)
        ensures
            r == self.spec_add(other),
    {
        let counter_cycles = other.0.wrapping_mul(MILLIS_TO_CLK);
        Instant(self.0.wrapping_add(counter_cycles))
    }

    /// The raw tick count; the conversion cannot fail.
    pub fn try_into(self) -> (r: Result<u32, core::convert::Infallible>)
        ensures
            r == Ok::<u32, core::convert::Infallible>(self.0),
    {
        Ok(self.0)
    }
}

/// Subtraction law within one epoch: when `a`'s tick count is at least
/// `b`'s, `a - b` is exactly the plain difference of the tick counts.
pub proof fn lemma_sub_within_epoch(a: Instant, b: Instant)
    requires
        a.0 >= b.0,
    ensures
        a.spec_sub(b).0 == a.0 - b.0,
{
}

/// `wrapping_add` is addition modulo 2^32.
proof fn lemma_wrapping_add_is_mod(x: u32, y: u32)
    ensures
        u32_specs::wrapping_add(x, y) as int == (x + y) % 0x1_0000_0000,
{
    if x + y > u32::MAX {
        lemma_mod_multiples_vanish(1, x + y - 0x1_0000_0000, 0x1_0000_0000);
        lemma_small_mod((x + y - 0x1_0000_0000) as nat, 0x1_0000_0000);
    } else {
        lemma_small_mod((x + y) as nat, 0x1_0000_0000);
    }
}

/// Chained millisecond addition has no drift: adding `m1` milliseconds and
/// then `m2` milliseconds reaches the same instant as adding `m1 + m2`
/// milliseconds at once. The conversion multiplies once per call, so no
/// per-call truncation accumulates.
pub proof fn lemma_add_millis_chain(i: Instant, m1: u32, m2: u32)
    requires
        m1 + m2 <= u32::MAX,
    ensures
        i.spec_add(Milliseconds(m1)).spec_add(Milliseconds(m2)) == i.spec_add(
            Milliseconds((m1 + m2) as u32),
        ),
{
    let m: int = 0x1_0000_0000;
    let k: int = MILLIS_TO_CLK as int;
    let a: int = i.0 as int;
    let c1: int = m1 * k;
    let c2: int = m2 * k;
    assert((m1 + m2) * k == c1 + c2) by {
        lemma_mul_is_distributive_add_other_way(k, m1 as int, m2 as int);
    }
    assert(u32_specs::wrapping_mul(m1, MILLIS_TO_CLK) as int == c1 % m);
    assert(u32_specs::wrapping_mul(m2, MILLIS_TO_CLK) as int == c2 % m);
    assert(u32_specs::wrapping_mul((m1 + m2) as u32, MILLIS_TO_CLK) as int == (c1 + c2) % m);

    let mid = i.spec_add(Milliseconds(m1));
    let lhs = mid.spec_add(Milliseconds(m2));
    let rhs = i.spec_add(Milliseconds((m1 + m2) as u32));

    lemma_wrapping_add_is_mod(i.0, u32_specs::wrapping_mul(m1, MILLIS_TO_CLK));
    lemma_wrapping_add_is_mod(mid.0, u32_specs::wrapping_mul(m2, MILLIS_TO_CLK));
    lemma_wrapping_add_is_mod(i.0, u32_specs::wrapping_mul((m1 + m2) as u32, MILLIS_TO_CLK));
    lemma_small_mod(a as nat, m as nat);
    lemma_small_mod(mid.0 as nat, m as nat);

    lemma_add_mod_noop(a, c1, m);
    assert(mid.0 as int == (a + c1) % m);
    lemma_add_mod_noop(a + c1, c2, m);
    assert(lhs.0 as int == (a + c1 + c2) % m);
    lemma_add_mod_noop(a, c1 + c2, m);
    assert(rhs.0 as int == (a + c1 + c2) % m);
    assert(lhs.0 == rhs.0);
}

} // verus!
