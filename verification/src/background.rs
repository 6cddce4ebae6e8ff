//! What the background pass draws: diagonal stripes that scroll with time.
//!
//! A point of the screen is given by its two coordinates, both normalized
//! by the viewport height. Its stripe phase is the vertical coordinate, plus
//! an eighth of the elapsed seconds, minus the horizontal coordinate (the
//! slope is `tan(pi/4)`, which is one). Eight stripes span one unit of
//! phase; the even ones are opaque gray and the odd ones fully transparent.
//!
//! All of it is exact arithmetic on whole numbers: a normalized coordinate
//! is a numerator over a common denominator, and time is in nanoseconds.

use crate::clock::{Elapsed, NANOS_PER_SEC};
use crate::color::Rgba;
use vstd::arithmetic::div_mod::{
    lemma_div_is_ordered, lemma_fundamental_div_mod, lemma_fundamental_div_mod_converse,
};
use vstd::prelude::*;

verus! {

/// The gray of the even stripes: a quarter of full intensity, to the nearest
/// step of a channel.
pub const STRIPE_GRAY: u8 = 64;

/// The two kinds of stripe.
#[derive(Copy, Clone, Debug, PartialEq, Eq, Structural)]
pub enum StripeClass {
    /// Drawn in opaque gray.
    Even,
    /// Left fully transparent.
    Odd,
}

/// The number of the stripe that holds the point with the normalized
/// coordinates `x / den` and `y / den` after `time_ns` nanoseconds: the
/// floor of eight times the phase `y / den + seconds / 8 - x / den`.
pub open spec fn stripe_index(x: int, y: int, den: int, time_ns: int) -> int {
    (8 * NANOS_PER_SEC * (y - x) + time_ns * den) / (NANOS_PER_SEC * den)
}

/// The kind of the stripe that holds the point: even or odd by its number.
pub open spec fn stripe_class_at(x: int, y: int, den: int, time_ns: int) -> StripeClass {
    if stripe_index(x, y, den, time_ns) % 2 == 0 {
        StripeClass::Even
    } else {
        StripeClass::Odd
    }
}

/// The colour that the background pass outputs for a stripe of kind `class`.
pub open spec fn stripe_color(class: StripeClass) -> Rgba {
    match class {
        StripeClass::Even => Rgba { r: STRIPE_GRAY, g: STRIPE_GRAY, b: STRIPE_GRAY, a: 255 },
        StripeClass::Odd => Rgba { r: 0, g: 0, b: 0, a: 0 },
    }
}

/// The colour that the background pass outputs at the pixel `(x, y)` of a
/// viewport `height` pixels high, `time` after the start.
pub open spec fn background_color(x: int, y: int, height: int, time: Elapsed) -> Rgba {
    stripe_color(stripe_class_at(x, y, height, time.total_nanos()))
}

/// Adding `j` whole denominators to a numerator adds `j` to the quotient.
proof fn lemma_div_shift(n: int, d: int, j: int)
    requires
        d > 0,
    ensures
        (n + j * d) / d == n / d + j,
{
    lemma_fundamental_div_mod(n, d);
    let q = n / d;
    let r = n % d;
    assert(n + j * d == (q + j) * d + r) by (nonlinear_arith)
        requires
            n == d * q + r,
    ;
    lemma_fundamental_div_mod_converse(n + j * d, d, q + j, r);
}

/// Scaling numerator and denominator by a positive factor keeps the
/// quotient, for a numerator of either sign.
proof fn lemma_div_scale(n: int, d: int, k: int)
    requires
        d > 0,
        k > 0,
    ensures
        (k * n) / (k * d) == n / d,
{
    lemma_fundamental_div_mod(n, d);
    let q = n / d;
    let r = n % d;
    assert(k * n == q * (k * d) + k * r) by (nonlinear_arith)
        requires
            n == d * q + r,
    ;
    assert(0 <= k * r < k * d) by (nonlinear_arith)
        requires
            0 <= r < d,
            k > 0,
    ;
    lemma_fundamental_div_mod_converse(k * n, k * d, q, k * r);
}

/// The stripe number does not change when numerators and denominator of
/// the normalized coordinates are scaled alike.
pub proof fn lemma_stripe_index_scale(x: int, y: int, den: int, time_ns: int, k: int)
    requires
        den > 0,
        k > 0,
    ensures
        stripe_index(k * x, k * y, k * den, time_ns) == stripe_index(x, y, den, time_ns),
{
    let n = 8 * NANOS_PER_SEC * (y - x) + time_ns * den;
    let d = NANOS_PER_SEC * den;
    assert(8 * NANOS_PER_SEC * (k * y - k * x) + time_ns * (k * den) == k * n)
        by (nonlinear_arith)
        requires
            n == 8 * NANOS_PER_SEC * (y - x) + time_ns * den,
    ;
    assert(NANOS_PER_SEC * (k * den) == k * d) by (nonlinear_arith)
        requires
            d == NANOS_PER_SEC * den,
    ;
    lemma_div_scale(n, d, k);
}

/// The slope: the stripe number depends on the two coordinates only through
/// their difference, so moving a point by the same amount along both axes
/// keeps it in its stripe.
pub proof fn lemma_stripe_follows_slope(x: int, y: int, den: int, time_ns: int, along: int)
    ensures
        stripe_index(x + along, y + along, den, time_ns) == stripe_index(x, y, den, time_ns),
        stripe_class_at(x + along, y + along, den, time_ns) == stripe_class_at(x, y, den, time_ns),
{
    assert((y + along) - (x + along) == y - x);
}

/// Going up never goes back a stripe: the stripe number does not fall when
/// the vertical coordinate grows.
pub proof fn lemma_stripe_index_monotone(x: int, lower: int, upper: int, den: int, time_ns: int)
    requires
        den > 0,
        lower <= upper,
    ensures
        stripe_index(x, lower, den, time_ns) <= stripe_index(x, upper, den, time_ns),
{
    let d = NANOS_PER_SEC * den;
    assert(d > 0) by (nonlinear_arith)
        requires
            d == NANOS_PER_SEC * den,
            den > 0,
    ;
    assert(8 * NANOS_PER_SEC * (lower - x) <= 8 * NANOS_PER_SEC * (upper - x))
        by (nonlinear_arith)
        requires
            lower <= upper,
    ;
    lemma_div_is_ordered(
        8 * NANOS_PER_SEC * (lower - x) + time_ns * den,
        8 * NANOS_PER_SEC * (upper - x) + time_ns * den,
        d,
    );
}

/// Stripes are periodic in the vertical coordinate. When the normalized
/// vertical coordinate `y / den` grows by `up / (8 * den)`, which is at most
/// one eighth, the stripe number stays or grows by one; when it grows by
/// exactly one eighth, the number grows by exactly one. As the number never
/// falls on the way up, the kind of stripe flips exactly once over one
/// eighth, at any time and at any horizontal coordinate.
pub proof fn lemma_stripe_period(x: int, y: int, den: int, time_ns: int, up: int)
    requires
        den > 0,
        0 <= up <= den,
    ensures
        stripe_index(x, y, den, time_ns) <= stripe_index(8 * x, 8 * y + up, 8 * den, time_ns)
            <= stripe_index(x, y, den, time_ns) + 1,
        up == den ==> stripe_index(8 * x, 8 * y + up, 8 * den, time_ns) == stripe_index(
            x,
            y,
            den,
            time_ns,
        ) + 1,
        up == den ==> stripe_class_at(8 * x, 8 * y + up, 8 * den, time_ns) != stripe_class_at(
            x,
            y,
            den,
            time_ns,
        ),
{
    lemma_stripe_index_scale(x, y, den, time_ns, 8);
    lemma_stripe_index_monotone(8 * x, 8 * y, 8 * y + up, 8 * den, time_ns);
    lemma_stripe_index_monotone(8 * x, 8 * y + up, 8 * y + den, 8 * den, time_ns);
    // The whole step adds one denominator to the numerator.
    let n = 8 * NANOS_PER_SEC * (8 * y - 8 * x) + time_ns * (8 * den);
    let d = NANOS_PER_SEC * (8 * den);
    assert(d > 0) by (nonlinear_arith)
        requires
            d == NANOS_PER_SEC * (8 * den),
            den > 0,
    ;
    assert(8 * NANOS_PER_SEC * ((8 * y + den) - 8 * x) + time_ns * (8 * den) == n + 1 * d)
        by (nonlinear_arith)
        requires
            n == 8 * NANOS_PER_SEC * (8 * y - 8 * x) + time_ns * (8 * den),
            d == NANOS_PER_SEC * (8 * den),
    ;
    lemma_div_shift(n, d, 1);
}

/// In a viewport whose height is a multiple of eight, the pixel one eighth
/// of the height further up lies in the next stripe, which is of the other
/// kind.
pub proof fn lemma_stripe_period_in_pixels(x: int, y: int, height: int, time_ns: int)
    requires
        height > 0,
        height % 8 == 0,
    ensures
        stripe_index(x, y + height / 8, height, time_ns) == stripe_index(x, y, height, time_ns)
            + 1,
        stripe_class_at(x, y + height / 8, height, time_ns) != stripe_class_at(
            x,
            y,
            height,
            time_ns,
        ),
{
    let step = height / 8;
    assert(8 * step == height);
    lemma_stripe_index_scale(x, y + step, height, time_ns, 8);
    assert(8 * (y + step) == 8 * y + height);
    lemma_stripe_period(x, y, height, time_ns, height);
}

/// The kind of the stripe that holds the point `(x, y)` of a viewport
/// `height` high, `time` after the start. The three lengths are in one unit:
/// pixels, or halves of a pixel to address the centre of one.
pub fn stripe_class(x: u32, y: u32, height: u32, time: Elapsed) -> (class: StripeClass)
    requires
        height > 0,
    ensures
        class == stripe_class_at(x as int, y as int, height as int, time.total_nanos()),
{
    let h: u128 = height as u128;
    let nanos: u128 = NANOS_PER_SEC as u128;
    proof {
        assert(time.secs * NANOS_PER_SEC <= 0xffff_ffff_ffff_ffff * 1_000_000_000)
            by (nonlinear_arith)
            requires
                time.secs <= 0xffff_ffff_ffff_ffff,
        ;
    }
    let time_ns: u128 = time.secs as u128 * nanos + time.subsec_nanos as u128;
    // Whole turns of two stripes that lift the numerator above zero.
    let turns: u128 = 4 * (x as u128) / h + 1;
    proof {
        lemma_fundamental_div_mod(4 * x, height as int);
        assert(h * turns <= 4 * x + h) by (nonlinear_arith)
            requires
                4 * x == h * ((4 * x) / (h as int)) + (4 * x) % (h as int),
                0 <= (4 * x) % (h as int),
                turns == (4 * x) / (h as int) + 1,
        ;
        assert(h * turns > 4 * x) by (nonlinear_arith)
            requires
                4 * x == h * ((4 * x) / (h as int)) + (4 * x) % (h as int),
                (4 * x) % (h as int) < h,
                turns == (4 * x) / (h as int) + 1,
        ;
        assert(8 * nanos * y <= 8 * 1_000_000_000 * 0xffff_ffff) by (nonlinear_arith)
            requires
                nanos == 1_000_000_000,
                y <= 0xffff_ffff,
        ;
        assert(time_ns * h <= 0x1_0000_0000_0000_0000_0000_0000 * 0xffff_ffff) by (nonlinear_arith)
            requires
                time_ns <= 0x1_0000_0000_0000_0000_0000_0000,
                h <= 0xffff_ffff,
        ;
    }
    let lift: u128 = 2 * nanos * (h * turns - 4 * (x as u128));
    let numerator: u128 = 8 * nanos * (y as u128) + time_ns * h + lift;
    let denominator: u128 = nanos * h;
    let index: u128 = numerator / denominator;
    proof {
        let n = 8 * NANOS_PER_SEC * (y - x) + time.total_nanos() * height;
        let d = NANOS_PER_SEC * height;
        assert(denominator == d);
        assert(numerator == n + (2 * turns) * d) by (nonlinear_arith)
            requires
                numerator == 8 * nanos * y + time_ns * h + lift,
                lift == 2 * nanos * (h * turns - 4 * x),
                n == 8 * nanos * (y - x) + time_ns * h,
                d == nanos * h,
        ;
        lemma_div_shift(n, d, 2 * turns as int);
        assert(index == n / d + 2 * turns);
        assert(n / d == stripe_index(x as int, y as int, height as int, time.total_nanos()));
    }
    if index % 2 == 0 {
        StripeClass::Even
    } else {
        StripeClass::Odd
    }
}

impl StripeClass {
    /// The colour that the background pass outputs for a stripe of this
    /// kind: opaque gray for an even one, nothing for an odd one.
    pub fn color(self) -> (c: Rgba)
        ensures
            c == stripe_color(self),
    {
        match self {
            StripeClass::Even => Rgba { r: STRIPE_GRAY, g: STRIPE_GRAY, b: STRIPE_GRAY, a: 255 },
            StripeClass::Odd => Rgba { r: 0, g: 0, b: 0, a: 0 },
        }
    }
}

} // verus!
