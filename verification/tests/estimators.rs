//! Tests for the two frequency estimators.

use doppler_radar::adc::{peak_bin, AdcHandle, DmaChannel, SampleBuffer, ADC, SPECTRUM_BINS, TRANSFORM_SIZE};
use doppler_radar::comparator::Comparator;

fn flat_spectrum() -> Vec<u64> {
    vec![0u64; SPECTRUM_BINS]
}

fn spectrum_with_peak(bin: usize, height: u64) -> Vec<u64> {
    let mut s = vec![1u64; SPECTRUM_BINS];
    s[bin] = height;
    s
}

#[test]
fn comparator_starts_with_cleared_counters() {
    let c = Comparator::new(16000);
    assert_eq!(c.ticks(), 0);
    assert_eq!(c.clock_ticks(), 0);
    assert!(!c.is_running());
}

#[test]
fn comparator_frequency_is_absent_before_any_tick() {
    let c = Comparator::new(16000);
    assert_eq!(c.calculate_frequency(), None);
}

#[test]
fn comparator_counts_only_level_transitions() {
    let mut c = Comparator::new(16000);
    c.start(0);
    c.handle_callback(0);
    c.handle_callback(1);
    c.handle_callback(1);
    c.handle_callback(0);
    assert_eq!(c.ticks(), 2);
    assert_eq!(c.clock_ticks(), 4);
}

#[test]
fn comparator_frequency_matches_the_ratio_formula() {
    // 8 transitions over 8 ticks at 16 kHz: 16000 * 8 / 8 / 2 Hz, in
    // millihertz.
    let mut c = Comparator::new(16000);
    c.start(0);
    for i in 0..8u8 {
        c.handle_callback(1 - (i % 2));
    }
    assert_eq!(c.ticks(), 8);
    assert_eq!(c.clock_ticks(), 8);
    assert_eq!(c.calculate_frequency(), Some(8_000_000));

    // 3 transitions over 10 ticks: 16000 * 3 * 1000 / (10 * 2).
    let mut c2 = Comparator::new(16000);
    c2.start(0);
    let levels = [1, 1, 0, 0, 0, 0, 1, 1, 1, 1];
    for level in levels {
        c2.handle_callback(level);
    }
    assert_eq!(c2.ticks(), 3);
    assert_eq!(c2.clock_ticks(), 10);
    assert_eq!(c2.calculate_frequency(), Some(16000 * 3 * 1000 / 20));
}

#[test]
fn comparator_counters_reset_after_crossing_the_guard() {
    let mut c = Comparator::new(16000);
    c.start(0);
    for _ in 0..65536 {
        c.handle_callback(0);
    }
    assert_eq!(c.ticks(), 0);
    assert_eq!(c.clock_ticks(), 65536);

    // The tick counter has run past the guard: this callback resets both
    // counters before counting, so afterwards the window holds exactly the
    // one fresh tick (and the one transition it observed).
    c.handle_callback(1);
    assert_eq!(c.ticks(), 1);
    assert_eq!(c.clock_ticks(), 1);

    // The very next tick counts from the reset baseline.
    c.handle_callback(1);
    assert_eq!(c.ticks(), 1);
    assert_eq!(c.clock_ticks(), 2);
}

#[test]
fn adc_frequency_is_absent_before_any_capture_completes() {
    let mut adc = ADC::new(AdcHandle, SampleBuffer::new(), DmaChannel, 3906);
    assert!(!adc.data_ready());
    assert_eq!(adc.calculate_frequency(&spectrum_with_peak(9, 50), false), None);

    // Even a started capture yields nothing until its completion callback.
    adc.start();
    assert!(adc.is_capturing());
    assert_eq!(adc.calculate_frequency(&spectrum_with_peak(9, 50), false), None);
}

#[test]
fn adc_frequency_is_bin_index_times_resolution() {
    let mut adc = ADC::new(AdcHandle, SampleBuffer::new(), DmaChannel, 3906);
    adc.start();
    adc.handle_callback(vec![7u16; TRANSFORM_SIZE]);
    assert!(adc.data_ready());
    assert!(!adc.is_capturing());
    assert_eq!(adc.calculate_frequency(&spectrum_with_peak(128, 40), false), Some(128 * 3906));
}

#[test]
fn adc_measurement_is_one_shot() {
    let mut adc = ADC::new(AdcHandle, SampleBuffer::new(), DmaChannel, 3906);
    adc.start();
    adc.handle_callback(vec![0u16; TRANSFORM_SIZE]);
    assert_eq!(adc.calculate_frequency(&spectrum_with_peak(5, 40), false), Some(5 * 3906));
    // The data-ready flag was consumed: no stale re-use.
    assert!(!adc.data_ready());
    assert_eq!(adc.calculate_frequency(&spectrum_with_peak(5, 40), false), None);
}

#[test]
fn adc_restart_begins_the_next_capture_at_once() {
    let mut adc = ADC::new(AdcHandle, SampleBuffer::new(), DmaChannel, 3906);
    adc.start();
    adc.handle_callback(vec![0u16; TRANSFORM_SIZE]);
    assert!(!adc.is_capturing());
    assert_eq!(adc.calculate_frequency(&spectrum_with_peak(2, 40), true), Some(2 * 3906));
    assert!(adc.is_capturing());
}

#[test]
fn adc_stop_clears_the_data_ready_flag() {
    let mut adc = ADC::new(AdcHandle, SampleBuffer::new(), DmaChannel, 3906);
    adc.handle_callback(vec![0u16; TRANSFORM_SIZE]);
    assert!(adc.data_ready());
    adc.stop();
    assert!(!adc.data_ready());
    assert_eq!(adc.calculate_frequency(&spectrum_with_peak(2, 40), false), None);
}

#[test]
fn adc_start_is_a_no_op_while_capturing() {
    let mut adc = ADC::new(AdcHandle, SampleBuffer::new(), DmaChannel, 3906);
    adc.start();
    adc.start();
    assert!(adc.is_capturing());
    adc.stop();
    assert!(!adc.is_capturing());
}

#[test]
fn peak_bin_selects_the_maximum() {
    assert_eq!(peak_bin(&vec![0, 4, 17, 3]), 2);
    assert_eq!(peak_bin(&vec![42]), 0);
    assert_eq!(peak_bin(&vec![9, 1, 2]), 0);
}

#[test]
fn peak_bin_resolves_ties_to_the_lowest_index() {
    assert_eq!(peak_bin(&vec![3, 9, 9, 1]), 1);
    assert_eq!(peak_bin(&vec![5, 5, 5]), 0);
    assert_eq!(peak_bin(&flat_spectrum()), 0);
}
