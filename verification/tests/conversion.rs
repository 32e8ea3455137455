//! Tests for the numeric conversion utility and the button mapping.

use doppler_radar::lcd::LCDButtons;
use doppler_radar::utilities::bin_to_bcd;

#[test]
fn bcd_of_zero_is_zero() {
    assert_eq!(bin_to_bcd(0), Ok(0x00));
}

#[test]
fn bcd_of_nine_keeps_low_nibble() {
    assert_eq!(bin_to_bcd(9), Ok(0x09));
}

#[test]
fn bcd_of_ten_moves_to_high_nibble() {
    assert_eq!(bin_to_bcd(10), Ok(0x10));
}

#[test]
fn bcd_of_ninety_nine_fills_both_nibbles() {
    assert_eq!(bin_to_bcd(99), Ok(0x99));
}

#[test]
fn bcd_of_one_hundred_is_an_error() {
    assert_eq!(bin_to_bcd(100), Err(()));
}

#[test]
fn bcd_matches_digit_split_for_every_two_digit_number() {
    for n in 0u8..=99 {
        let expected = (n / 10) * 16 + n % 10;
        assert_eq!(bin_to_bcd(n), Ok(expected), "input {}", n);
    }
}

#[test]
fn bcd_rejects_every_three_digit_number() {
    for n in 100u8..=255 {
        assert_eq!(bin_to_bcd(n), Err(()), "input {}", n);
    }
}

#[test]
fn button_ranges_are_inclusive_on_both_ends() {
    assert_eq!(LCDButtons::new(0), Some(LCDButtons::RIGHT));
    assert_eq!(LCDButtons::new(500), Some(LCDButtons::RIGHT));
    assert_eq!(LCDButtons::new(501), Some(LCDButtons::UP));
    assert_eq!(LCDButtons::new(1000), Some(LCDButtons::UP));
    assert_eq!(LCDButtons::new(1001), Some(LCDButtons::DOWN));
    assert_eq!(LCDButtons::new(2500), Some(LCDButtons::DOWN));
    assert_eq!(LCDButtons::new(2501), Some(LCDButtons::LEFT));
    assert_eq!(LCDButtons::new(4000), Some(LCDButtons::LEFT));
    assert_eq!(LCDButtons::new(4001), Some(LCDButtons::SELECT));
    assert_eq!(LCDButtons::new(4096), Some(LCDButtons::SELECT));
}

#[test]
fn button_reading_above_range_is_invalid() {
    assert_eq!(LCDButtons::new(4097), None);
    assert_eq!(LCDButtons::new(u16::MAX), None);
}
