//! Acquisition mode control: the foreground loop's decision logic.
//!
//! The controller owns both frequency estimators and keeps exactly one of
//! them running. Once per polling cycle the foreground loop hands it the
//! latest button reading (and the comparator's current output level, needed
//! as the edge-detection baseline when edge counting starts); the controller
//! switches estimators or the unit system accordingly. It then pulls the
//! measurement from whichever estimator is active. Reading the buttons,
//! running the spectral transform, converting the frequency to a speed and
//! driving the display are the loop's own business, outside this crate.

use vstd::prelude::*;

use crate::adc::ADC;
use crate::adc::AdcView;
use crate::adc::SPECTRUM_BINS;
use crate::adc::TRANSFORM_SIZE;
use crate::adc::spec_after_calculate;
use crate::adc::spec_spectral_frequency;
use crate::comparator::CompView;
use crate::comparator::Comparator;
use crate::comparator::counters_bounded;
use crate::comparator::spec_callback;
use crate::comparator::spec_frequency_millihertz;
use crate::lcd::LCDButtons;

verus! {

/// Which estimator currently drives measurement. Transitions happen only on
/// an explicit button request, never automatically.
#[derive(Debug, PartialEq, Eq, Structural, Clone, Copy)]
pub enum AcquisitionMode {
    /// The edge-counting estimator is running.
    EdgeCounting,
    /// The spectral estimator is running.
    Spectral,
}

/// Which unit system the speed conversion applies; independent of the
/// acquisition mode.
#[derive(Debug, PartialEq, Eq, Structural, Clone, Copy)]
pub enum UnitMode {
    /// Kilometres per hour.
    Metric,
    /// Miles per hour.
    Imperial,
}

/// Abstract state of the controller: the two mode selections and the two
/// estimators' states.
#[verifier::ext_equal]
pub struct ControllerView {
    /// Which estimator drives measurement.
    pub acquisition: AcquisitionMode,
    /// Which unit system the displayed speed uses.
    pub units: UnitMode,
    /// State of the edge-counting estimator.
    pub comparator: CompView,
    /// State of the spectral estimator.
    pub adc: AdcView,
}

/// Owns the two estimators and the mode selections, and applies one button
/// request per polling cycle.
pub struct ModeController {
    comparator: Comparator,
    adc: ADC,
    acquisition: AcquisitionMode,
    units: UnitMode,
}

impl View for ModeController {
    type V = ControllerView;

    closed spec fn view(&self) -> ControllerView {
        ControllerView {
            acquisition: self.acquisition,
            units: self.units,
            comparator: self.comparator@,
            adc: self.adc@,
        }
    }
}

/// Controller state after one button request.
///
/// A request to switch to a mode already selected changes nothing; a request
/// to switch acquisition modes starts one estimator and stops the other
/// (recording `level` as the new edge-detection baseline when edge counting
/// starts); a unit request changes the unit selection only; any other
/// reading — including an invalid one, handed in as `None` — leaves the
/// state as it is.
pub open spec fn spec_step(
    s: ControllerView,
    button: Option<LCDButtons>,
    level: u8,
) -> ControllerView {
    match button {
        Some(LCDButtons::DOWN) => if s.acquisition != AcquisitionMode::EdgeCounting {
            ControllerView {
                acquisition: AcquisitionMode::EdgeCounting,
                comparator: CompView { running: true, baseline: level, ..s.comparator },
                adc: AdcView { capturing: false, data_ready: false, ..s.adc },
                ..s
            }
        } else {
            s
        },
        Some(LCDButtons::UP) => if s.acquisition != AcquisitionMode::Spectral {
            ControllerView {
                acquisition: AcquisitionMode::Spectral,
                comparator: CompView { running: false, ..s.comparator },
                adc: AdcView { capturing: true, ..s.adc },
                ..s
            }
        } else {
            s
        },
        Some(LCDButtons::RIGHT) => ControllerView { units: UnitMode::Metric, ..s },
        Some(LCDButtons::LEFT) => ControllerView { units: UnitMode::Imperial, ..s },
        _ => s,
    }
}

/// Law: a mode-switch request is idempotent. Issuing the same button request
/// twice in a row — whatever baseline levels accompany the two requests —
/// changes the controller's state only on the first occurrence.
pub proof fn lemma_button_idempotent(
    s: ControllerView,
    button: Option<LCDButtons>,
    level1: u8,
    level2: u8,
)
    ensures
        spec_step(spec_step(s, button, level1), button, level2) == spec_step(s, button, level1),
{
    let s1 = spec_step(s, button, level1);
    assert(spec_step(s1, button, level2) =~= s1);
}

impl ModeController {
    /// The estimators' own invariants hold, and exactly the estimator the
    /// acquisition mode names is running.
    pub closed spec fn wf(&self) -> bool {
        &&& self.adc.wf()
        &&& counters_bounded(self@.comparator)
        &&& (self@.acquisition == AcquisitionMode::EdgeCounting <==> self@.comparator.running)
    }

    /// Creates the controller in its initial state — edge counting, metric
    /// units — starting the edge-counting estimator with `level` as its
    /// baseline and making sure no capture is in flight.
    pub fn new(comparator: Comparator, adc: ADC, level: u8) -> (c: ModeController)
        requires
            adc.wf(),
            counters_bounded(comparator@),
        ensures
            c.wf(),
            c@ == (ControllerView {
                acquisition: AcquisitionMode::EdgeCounting,
                units: UnitMode::Metric,
                comparator: CompView { running: true, baseline: level, ..comparator@ },
                adc: AdcView { capturing: false, data_ready: false, ..adc@ },
            }),
    {
        let mut comparator = comparator;
        let mut adc = adc;
        comparator.start(level);
        adc.stop();
        ModeController {
            comparator,
            adc,
            acquisition: AcquisitionMode::EdgeCounting,
            units: UnitMode::Metric,
        }
    }

    /// Applies one button request, switching the running estimator or the
    /// unit system exactly as [`spec_step`] says. `level` is the
    /// comparator's current output level, recorded as the edge-detection
    /// baseline when edge counting starts.
    pub fn handle_button(&mut self, button: Option<LCDButtons>, level: u8)
        requires
            old(self).wf(),
        ensures
            final(self).wf(),
            final(self)@ == spec_step(old(self)@, button, level),
    {
        match button {
            Some(LCDButtons::DOWN) => {
                if self.acquisition != AcquisitionMode::EdgeCounting {
                    self.comparator.start(level);
                    self.adc.stop();
                    self.acquisition = AcquisitionMode::EdgeCounting;
                }
            },
            Some(LCDButtons::UP) => {
                if self.acquisition != AcquisitionMode::Spectral {
                    self.comparator.stop();
                    self.adc.start();
                    self.acquisition = AcquisitionMode::Spectral;
                }
            },
            Some(LCDButtons::RIGHT) => {
                self.units = UnitMode::Metric;
            },
            Some(LCDButtons::LEFT) => {
                self.units = UnitMode::Imperial;
            },
            _ => {},
        }
    }

    /// Delivers one reference-timer tick from interrupt context, handing the
    /// comparator's current output level to the edge-counting estimator.
    /// Acknowledging the tick interrupt itself is the handler's own step,
    /// outside this crate.
    pub fn tick(&mut self, level: u8)
        requires
            old(self).wf(),
        ensures
            final(self).wf(),
            final(self)@ == (ControllerView {
                comparator: spec_callback(old(self)@.comparator, level),
                ..old(self)@
            }),
    {
        self.comparator.handle_callback(level);
    }

    /// Delivers the capture-complete event from interrupt context, handing
    /// the captured block to the spectral estimator.
    pub fn capture_complete(&mut self, samples: Vec<u16>)
        requires
            old(self).wf(),
            samples@.len() == TRANSFORM_SIZE,
        ensures
            final(self).wf(),
            final(self)@ == (ControllerView {
                adc: AdcView {
                    capturing: false,
                    data_ready: true,
                    buffer: samples@,
                    ..old(self)@.adc
                },
                ..old(self)@
            }),
    {
        self.adc.handle_callback(samples);
    }

    /// Pulls the current measurement, in millihertz, from whichever
    /// estimator is active.
    ///
    /// In edge-counting mode this reads the transition ratio and changes
    /// nothing; in spectral mode it reads out the last capture's measurement
    /// for `spectrum` — one squared magnitude per bin, computed outside this
    /// crate from the captured block — and restarts the capture at once, so
    /// measurement stays continuous.
    pub fn measure(&mut self, spectrum: &Vec<u64>) -> (r: Option<u64>)
        requires
            old(self).wf(),
            spectrum@.len() == SPECTRUM_BINS,
        ensures
            final(self).wf(),
            old(self)@.acquisition == AcquisitionMode::EdgeCounting ==> {
                &&& r == spec_frequency_millihertz(old(self)@.comparator)
                &&& final(self)@ == old(self)@
            },
            old(self)@.acquisition == AcquisitionMode::Spectral ==> {
                &&& r == spec_spectral_frequency(old(self)@.adc, spectrum@)
                &&& final(self)@ == (ControllerView {
                    adc: spec_after_calculate(old(self)@.adc, true),
                    ..old(self)@
                })
            },
    {
        match self.acquisition {
            AcquisitionMode::EdgeCounting => self.comparator.calculate_frequency(),
            AcquisitionMode::Spectral => self.adc.calculate_frequency(spectrum, true),
        }
    }

    /// Which estimator currently drives measurement.
    pub fn acquisition(&self) -> (m: AcquisitionMode)
        ensures
            m == self@.acquisition,
    {
        self.acquisition
    }

    /// Which unit system the displayed speed uses.
    pub fn units(&self) -> (u: UnitMode)
        ensures
            u == self@.units,
    {
        self.units
    }

    /// The edge-counting estimator, for inspection.
    pub fn comparator(&self) -> (c: &Comparator)
        ensures
            c@ == self@.comparator,
    {
        &self.comparator
    }

    /// The spectral estimator, for inspection.
    pub fn adc(&self) -> (a: &ADC)
        ensures
            a@ == self@.adc,
    {
        &self.adc
    }
}

} // verus!
