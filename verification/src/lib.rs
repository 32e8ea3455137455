//! Frequency measurement for a Doppler motion-sensing device.
//!
//! Two alternative acquisition strategies measure the frequency of the
//! reflected signal: block sampling followed by spectral peak detection
//! ([`adc::ADC`]), and zero-crossing counting against a reference clock
//! ([`comparator::Comparator`]). A mode controller
//! ([`controller::ModeController`]) owns both estimators, keeps exactly one
//! of them running, and pulls the active measurement each polling cycle.
//!
//! All hardware access (peripheral registers, the DMA engine, the spectral
//! transform routine) lives outside this crate; the estimators here hold the
//! resource-ownership state, the counters and the selection logic, with
//! contracts on every public function.

pub mod adc;
pub mod comparator;
pub mod controller;
pub mod lcd;
pub mod utilities;

pub use adc::ADC;
pub use comparator::Comparator;
pub use lcd::LCDButtons;
