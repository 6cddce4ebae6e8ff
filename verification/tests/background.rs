use frame_harness::background::{stripe_class, StripeClass, STRIPE_GRAY};
use frame_harness::clock::Elapsed;
use frame_harness::color::Rgba;

fn at(secs: u64, subsec_nanos: u32) -> Elapsed {
    Elapsed { secs, subsec_nanos }
}

#[test]
fn stripe_colors_are_gray_and_transparent() {
    assert_eq!(STRIPE_GRAY, 64);
    assert_eq!(StripeClass::Even.color(), Rgba::new(64, 64, 64, 255));
    assert_eq!(StripeClass::Odd.color(), Rgba::new(0, 0, 0, 0));
    // A quarter of full intensity, to the nearest step.
    assert_eq!((0.25f32 * 255.0).round() as u8, STRIPE_GRAY);
}

#[test]
fn top_left_pixel_at_time_zero_is_in_an_even_stripe() {
    assert_eq!(stripe_class(0, 0, 234, at(0, 0)), StripeClass::Even);
}

#[test]
fn stripes_change_where_eight_times_the_phase_passes_a_whole_number() {
    // 8 * 29 / 234 is below one, 8 * 30 / 234 is above.
    assert_eq!(stripe_class(0, 29, 234, at(0, 0)), StripeClass::Even);
    assert_eq!(stripe_class(0, 30, 234, at(0, 0)), StripeClass::Odd);
    // 8 * 58 / 234 is below two, 8 * 59 / 234 is above.
    assert_eq!(stripe_class(0, 58, 234, at(0, 0)), StripeClass::Odd);
    assert_eq!(stripe_class(0, 59, 234, at(0, 0)), StripeClass::Even);
}

#[test]
fn phase_below_zero_is_floored_downwards() {
    // -8 * 29 / 234 floors to -1, -8 * 30 / 234 floors to -2, -800 / 234 to -4.
    assert_eq!(stripe_class(29, 0, 234, at(0, 0)), StripeClass::Odd);
    assert_eq!(stripe_class(30, 0, 234, at(0, 0)), StripeClass::Even);
    assert_eq!(stripe_class(100, 0, 234, at(0, 0)), StripeClass::Even);
    assert_eq!(stripe_class(1, 0, 234, at(0, 0)), StripeClass::Odd);
}

#[test]
fn one_eighth_up_flips_the_stripe() {
    // With a height of 240 an eighth of the height is 30 pixels.
    for x in [0u32, 7, 100, 319].iter() {
        for y in [0u32, 1, 29, 30, 100, 209].iter() {
            for time in [at(0, 0), at(0, 400_000_000), at(3, 999_999_999)].iter() {
                let here = stripe_class(*x, *y, 240, *time);
                let above = stripe_class(*x, *y + 30, 240, *time);
                let two_above = stripe_class(*x, *y + 60, 240, *time);
                assert_ne!(here, above);
                assert_eq!(here, two_above);
            }
        }
    }
}

#[test]
fn stripe_flips_once_on_the_way_up_one_eighth() {
    for y in 0u32..210 {
        let mut flips = 0;
        for step in 0u32..30 {
            if stripe_class(40, y + step, 240, at(1, 250_000_000))
                != stripe_class(40, y + step + 1, 240, at(1, 250_000_000))
            {
                flips += 1;
            }
        }
        assert_eq!(flips, 1);
    }
}

#[test]
fn moving_along_the_slope_keeps_the_stripe() {
    for along in [0u32, 1, 17, 200].iter() {
        for time in [at(0, 0), at(5, 123_456_789)].iter() {
            assert_eq!(
                stripe_class(3 + *along, 11 + *along, 234, *time),
                stripe_class(3, 11, 234, *time)
            );
        }
    }
}

#[test]
fn stripes_scroll_by_one_each_second() {
    assert_eq!(stripe_class(0, 0, 234, at(0, 999_999_999)), StripeClass::Even);
    assert_eq!(stripe_class(0, 0, 234, at(1, 0)), StripeClass::Odd);
    assert_eq!(stripe_class(0, 0, 234, at(1, 999_999_999)), StripeClass::Odd);
    assert_eq!(stripe_class(0, 0, 234, at(2, 0)), StripeClass::Even);
    // 8 * 29 / 234 = 0.9914..., so nine milliseconds more reach the next stripe.
    assert_eq!(stripe_class(0, 29, 234, at(0, 8_000_000)), StripeClass::Even);
    assert_eq!(stripe_class(0, 29, 234, at(0, 9_000_000)), StripeClass::Odd);
}

#[test]
fn largest_inputs_are_computed_without_overflow() {
    let late = at(u64::MAX, u32::MAX);
    // 8 * (y - x) / height is zero here, so the stripe number is the whole
    // seconds of (u64::MAX * 10^9 + u32::MAX) nanoseconds: u64::MAX + 4, odd.
    assert_eq!(stripe_class(u32::MAX, u32::MAX, u32::MAX, late), StripeClass::Odd);
    assert_eq!(stripe_class(u32::MAX, 0, 1, at(0, 0)), StripeClass::Even);
    assert_eq!(stripe_class(0, u32::MAX, 1, at(0, 0)), StripeClass::Even);
}
