//! End-to-end test of the spectral path against the real transform routine:
//! captured block in, squared magnitudes out, dominant bin selected by the
//! library.
//!
//! The squared magnitudes are non-negative finite floats; their IEEE bit
//! patterns compare in the same order as their values, so handing the bit
//! patterns to the library preserves the peak selection exactly.

use doppler_radar::adc::{AdcHandle, DmaChannel, SampleBuffer, ADC, TRANSFORM_SIZE};

const FREQ_BIN_MILLIHERTZ: u32 = 3906;

/// The read-out path of the foreground loop: transform the block, clear the
/// Nyquist-rate coefficient packed into the DC bin's imaginary part, square
/// the magnitudes, and encode them order-preservingly.
fn squared_magnitudes(block: &mut [f32; TRANSFORM_SIZE]) -> Vec<u64> {
    let spectrum = microfft::real::rfft_4096(block);
    spectrum[0].im = 0.0;
    spectrum.iter().map(|c| c.norm_sqr().to_bits() as u64).collect()
}

#[test]
fn unsigned_capture_blocks_put_their_offset_in_the_dc_bin() {
    // A raw capture block is non-negative, so its mean (the DC component)
    // dominates every oscillating bin: the selected bin is 0. This mirrors
    // what the device measures on an unprocessed block.
    let mut samples: Vec<u16> = Vec::with_capacity(TRANSFORM_SIZE);
    for i in 0..TRANSFORM_SIZE {
        let phase = 2.0 * std::f32::consts::PI * 128.0 * (i as f32) / (TRANSFORM_SIZE as f32);
        samples.push((2048.0 + 1000.0 * phase.sin()) as u16);
    }
    let mut block = [0.0f32; TRANSFORM_SIZE];
    for i in 0..TRANSFORM_SIZE {
        block[i] = samples[i] as f32;
    }
    let magnitudes = squared_magnitudes(&mut block);

    let mut adc = ADC::new(AdcHandle, SampleBuffer::new(), DmaChannel, FREQ_BIN_MILLIHERTZ);
    adc.start();
    adc.handle_callback(samples);
    assert_eq!(adc.calculate_frequency(&magnitudes, false), Some(0));
}

#[test]
fn zero_mean_tone_is_located_at_its_bin() {
    // A zero-mean tone with a whole number of cycles per block lands in
    // exactly one bin; the library must report that bin's frequency.
    let mut block = [0.0f32; TRANSFORM_SIZE];
    for i in 0..TRANSFORM_SIZE {
        let phase = 2.0 * std::f32::consts::PI * 128.0 * (i as f32) / (TRANSFORM_SIZE as f32);
        block[i] = 1000.0 * phase.sin();
    }
    let magnitudes = squared_magnitudes(&mut block);

    let mut adc = ADC::new(AdcHandle, SampleBuffer::new(), DmaChannel, FREQ_BIN_MILLIHERTZ);
    adc.start();
    adc.handle_callback(vec![0u16; TRANSFORM_SIZE]);
    assert_eq!(
        adc.calculate_frequency(&magnitudes, true),
        Some(128 * FREQ_BIN_MILLIHERTZ as u64)
    );
    assert!(adc.is_capturing());
}

#[test]
fn clearing_the_dc_bins_imaginary_part_unmasks_the_true_peak() {
    // A signal at the Nyquist rate packs its coefficient into the imaginary
    // part of the DC bin. With the clearing step the small tone at bin 5
    // wins; without it the packed coefficient would masquerade as a huge DC
    // magnitude and bin 0 would win.
    let mut block = [0.0f32; TRANSFORM_SIZE];
    for i in 0..TRANSFORM_SIZE {
        let nyquist = if i % 2 == 0 { 100.0 } else { -100.0 };
        let phase = 2.0 * std::f32::consts::PI * 5.0 * (i as f32) / (TRANSFORM_SIZE as f32);
        block[i] = nyquist + 1.0 * phase.sin();
    }

    let mut with_clearing = block;
    let magnitudes = squared_magnitudes(&mut with_clearing);

    let mut without_clearing = block;
    let raw_spectrum = microfft::real::rfft_4096(&mut without_clearing);
    let magnitudes_without: Vec<u64> =
        raw_spectrum.iter().map(|c| c.norm_sqr().to_bits() as u64).collect();

    let mut adc = ADC::new(AdcHandle, SampleBuffer::new(), DmaChannel, FREQ_BIN_MILLIHERTZ);
    adc.handle_callback(vec![0u16; TRANSFORM_SIZE]);
    assert_eq!(
        adc.calculate_frequency(&magnitudes, false),
        Some(5 * FREQ_BIN_MILLIHERTZ as u64)
    );

    adc.handle_callback(vec![0u16; TRANSFORM_SIZE]);
    assert_eq!(adc.calculate_frequency(&magnitudes_without, false), Some(0));
}
