//! Frequency sampling by block capture and spectral peak detection.
//!
//! The capture hardware — the analog-to-digital converter and the one-shot
//! transfer channel that fills a sample block behind the processor's back —
//! stays outside this crate, as does the spectral transform routine that
//! turns a captured block into per-bin squared magnitudes. What this module
//! owns, and what is verified, is the estimator's life cycle: the exclusive
//! hand-off of the capture resources between resting and in-flight storage,
//! the data-ready flag that rules out stale measurements, and the selection
//! of the dominant spectral bin.

use vstd::prelude::*;

verus! {

/// Number of samples in one capture block, and the size of the spectral
/// transform applied to it.
pub const TRANSFORM_SIZE: usize = 4096;

/// Number of frequency bins a real-valued transform of [`TRANSFORM_SIZE`]
/// samples produces.
pub const SPECTRUM_BINS: usize = TRANSFORM_SIZE / 2;

/// Ownership token for the capture peripheral. Exactly one exists per
/// estimator; it is either resting in the estimator or lent to an in-flight
/// capture session, never both.
pub struct AdcHandle;

/// Ownership token for the one-shot transfer channel, handed back and forth
/// together with [`AdcHandle`].
pub struct DmaChannel;

/// A fixed-length block of unsigned integer samples, exchanged by value
/// between resting storage and an in-flight capture.
pub struct SampleBuffer {
    samples: Vec<u16>,
}

impl View for SampleBuffer {
    type V = Seq<u16>;

    closed spec fn view(&self) -> Seq<u16> {
        self.samples@
    }
}

impl SampleBuffer {
    /// Creates a zero-filled block of [`TRANSFORM_SIZE`] samples.
    pub fn new() -> (b: SampleBuffer)
        ensures
            b@.len() == TRANSFORM_SIZE,
            forall|i: int| 0 <= i < b@.len() ==> b@[i] == 0u16,
    {
        let mut samples: Vec<u16> = Vec::new();
        let mut i: usize = 0;
        while i < TRANSFORM_SIZE
            invariant
                i <= TRANSFORM_SIZE,
                samples@.len() == i,
                forall|j: int| 0 <= j < samples@.len() ==> samples@[j] == 0u16,
            decreases TRANSFORM_SIZE - i,
        {
            samples.push(0);
            i = i + 1;
        }
        SampleBuffer { samples }
    }

    /// Wraps a captured block of exactly [`TRANSFORM_SIZE`] samples.
    pub fn from_samples(samples: Vec<u16>) -> (b: SampleBuffer)
        requires
            samples@.len() == TRANSFORM_SIZE,
        ensures
            b@ == samples@,
    {
        SampleBuffer { samples }
    }

    /// The samples held in the block.
    pub fn data(&self) -> (s: &Vec<u16>)
        ensures
            s@ == self@,
    {
        &self.samples
    }
}

/// An in-progress block acquisition: the capture hardware, the transfer
/// channel and the sample block it is filling, all owned by the session
/// until it completes or is stopped.
struct CaptureSession {
    hadc: AdcHandle,
    hdma: DmaChannel,
    buf: SampleBuffer,
}

/// Abstract state of a spectral estimator: whether a capture is in flight,
/// whether a completed block awaits processing, the samples of the block,
/// and the width of one spectral bin.
#[verifier::ext_equal]
pub struct AdcView {
    /// Whether the capture resources are lent to an in-flight session.
    pub capturing: bool,
    /// Whether a completed capture awaits its one-shot read-out.
    pub data_ready: bool,
    /// The samples of the block, wherever it currently rests.
    pub buffer: Seq<u16>,
    /// Frequency represented by one spectral bin, in millihertz
    /// (sampling rate over transform size).
    pub freq_bin: u32,
}

/// Measures the frequency of a signal by capturing a block of samples and
/// selecting the dominant bin of its spectrum.
pub struct ADC {
    hadc: Option<AdcHandle>,
    adc_buf: Option<SampleBuffer>,
    transfer: Option<CaptureSession>,
    hdma: Option<DmaChannel>,
    flag: bool,
    freq_bin: u32,
}

impl View for ADC {
    type V = AdcView;

    closed spec fn view(&self) -> AdcView {
        AdcView {
            capturing: self.transfer is Some,
            data_ready: self.flag,
            buffer: match self.transfer {
                Some(session) => session.buf@,
                None => match self.adc_buf {
                    Some(buf) => buf@,
                    None => Seq::empty(),
                },
            },
            freq_bin: self.freq_bin,
        }
    }
}

/// Index of the greatest element of a spectrum, ties resolved to the lowest
/// index: the bin selected as the dominant frequency.
pub open spec fn peak_index(s: Seq<u64>) -> int
    decreases s.len(),
{
    if s.len() <= 1 {
        0
    } else {
        let prev = peak_index(s.drop_last());
        if s.last() > s[prev] {
            s.len() - 1
        } else {
            prev
        }
    }
}

/// The measurement a read-out returns: absent unless a capture has completed
/// and not yet been read out; otherwise exactly the dominant bin's index
/// times the per-bin frequency.
pub open spec fn spec_spectral_frequency(s: AdcView, spectrum: Seq<u64>) -> Option<u64> {
    if s.data_ready {
        Some((s.freq_bin as int * peak_index(spectrum)) as u64)
    } else {
        None
    }
}

/// Estimator state after a read-out: a completed capture is consumed (the
/// data-ready flag falls), and a new capture starts at once when the caller
/// asked for a restart.
pub open spec fn spec_after_calculate(s: AdcView, restart: bool) -> AdcView {
    if s.data_ready {
        AdcView { data_ready: false, capturing: s.capturing || restart, ..s }
    } else {
        s
    }
}

impl ADC {
    /// All capture resources are accounted for: either every one rests in
    /// the estimator, or every one is lent to the in-flight session —
    /// never split, never duplicated — and the sample block keeps its fixed
    /// length.
    pub open spec fn wf(&self) -> bool {
        self.resources_consistent() && self@.buffer.len() == TRANSFORM_SIZE
    }

    /// Exactly one of resting and in-flight storage owns the resources.
    pub closed spec fn resources_consistent(&self) -> bool {
        match self.transfer {
            Some(_) => self.hadc is None && self.hdma is None && self.adc_buf is None,
            None => self.hadc is Some && self.hdma is Some && self.adc_buf is Some,
        }
    }

    /// Creates an estimator owning its capture hardware, transfer channel
    /// and sample block, with `freq_bin` millihertz represented by one
    /// spectral bin. No capture is in flight and no data is ready.
    pub fn new(hadc: AdcHandle, adc_buf: SampleBuffer, hdma: DmaChannel, freq_bin: u32) -> (adc:
        ADC)
        requires
            adc_buf@.len() == TRANSFORM_SIZE,
        ensures
            adc.wf(),
            adc@ == (AdcView {
                capturing: false,
                data_ready: false,
                buffer: adc_buf@,
                freq_bin,
            }),
    {
        ADC {
            hadc: Some(hadc),
            adc_buf: Some(adc_buf),
            transfer: None,
            hdma: Some(hdma),
            flag: false,
            freq_bin,
        }
    }

    /// Begins a one-shot block capture by lending the capture hardware, the
    /// transfer channel and the sample block to a new in-flight session. If
    /// the resources are already checked out — a capture is in flight — this
    /// is a no-op.
    pub fn start(&mut self)
        requires
            old(self).wf(),
        ensures
            final(self).wf(),
            final(self)@ == (AdcView { capturing: true, ..old(self)@ }),
    {
        if self.hadc.is_some() && self.hdma.is_some() && self.adc_buf.is_some() {
            let hadc = self.hadc.take().unwrap();
            let hdma = self.hdma.take().unwrap();
            let buf = self.adc_buf.take().unwrap();
            self.transfer = Some(CaptureSession { hadc, hdma, buf });
        }
    }

    /// Stops measuring: waits out any in-flight transfer, reclaims the
    /// sample block, the transfer channel and the capture hardware, and
    /// clears the data-ready flag. Idempotent.
    pub fn stop(&mut self)
        requires
            old(self).wf(),
        ensures
            final(self).wf(),
            final(self)@ == (AdcView { capturing: false, data_ready: false, ..old(self)@ }),
    {
        self.flag = false;
        if let Some(session) = self.transfer.take() {
            let CaptureSession { hadc, hdma, buf } = session;
            self.hadc = Some(hadc);
            self.hdma = Some(hdma);
            self.adc_buf = Some(buf);
        }
    }

    /// Handles the capture-complete interrupt: reclaims the resources from
    /// the finished session, stores the captured block, and raises the
    /// data-ready flag. Does not restart the capture.
    pub fn handle_callback(&mut self, samples: Vec<u16>)
        requires
            old(self).wf(),
            samples@.len() == TRANSFORM_SIZE,
        ensures
            final(self).wf(),
            final(self)@ == (AdcView {
                capturing: false,
                data_ready: true,
                buffer: samples@,
                ..old(self)@
            }),
    {
        self.stop();
        self.adc_buf = Some(SampleBuffer::from_samples(samples));
        self.flag = true;
    }

    /// Reads out the measurement for the spectrum of the last captured
    /// block, handed in as one squared magnitude per bin (the transform
    /// itself runs outside this crate; any encoding that preserves the
    /// magnitudes' order serves).
    ///
    /// If no capture has completed since the last read-out, the measurement
    /// is absent and nothing changes. Otherwise the data-ready flag is
    /// consumed and the result is exactly the dominant bin's index times the
    /// per-bin frequency; with `restart`, a new capture starts before the
    /// call returns, so the next window begins without a gap.
    pub fn calculate_frequency(&mut self, spectrum: &Vec<u64>, restart: bool) -> (r: Option<u64>)
        requires
            old(self).wf(),
            spectrum@.len() == SPECTRUM_BINS,
        ensures
            final(self).wf(),
            r == spec_spectral_frequency(old(self)@, spectrum@),
            final(self)@ == spec_after_calculate(old(self)@, restart),
    {
        if self.flag {
            self.flag = false;
            let idx = peak_bin(spectrum);
            if restart {
                self.start();
            }
            proof {
                lemma_peak_index_selects_max(spectrum@);
                assert(self.freq_bin as int * peak_index(spectrum@) <= 0xffff_ffff * 0x800int)
                    by (nonlinear_arith)
                    requires
                        0 <= self.freq_bin as int <= 0xffff_ffff,
                        0 <= peak_index(spectrum@) < 0x800,
                ;
                assert(self.freq_bin as int * idx as int >= 0) by (nonlinear_arith)
                    requires
                        0 <= self.freq_bin as int,
                        0 <= idx as int,
                ;
            }
            Some(self.freq_bin as u64 * idx as u64)
        } else {
            None
        }
    }

    /// The captured block, readable while it rests in the estimator — no
    /// capture in flight. The read-out path turns it into the spectrum that
    /// [`ADC::calculate_frequency`] selects from.
    pub fn samples(&self) -> (r: Option<&Vec<u16>>)
        requires
            self.wf(),
        ensures
            self@.capturing ==> r is None,
            !self@.capturing ==> (r matches Some(s) && s@ == self@.buffer),
    {
        match &self.adc_buf {
            Some(buf) => Some(buf.data()),
            None => None,
        }
    }

    /// Whether a completed capture awaits its read-out.
    pub fn data_ready(&self) -> (b: bool)
        ensures
            b == self@.data_ready,
    {
        self.flag
    }

    /// Whether the capture resources are lent to an in-flight session.
    pub fn is_capturing(&self) -> (b: bool)
        ensures
            b == self@.capturing,
    {
        self.transfer.is_some()
    }
}

/// Selects the dominant bin of a spectrum: the index holding the strictly
/// greatest squared magnitude, with ties resolved to the lowest index.
pub fn peak_bin(spectrum: &Vec<u64>) -> (idx: usize)
    requires
        spectrum@.len() > 0,
    ensures
        idx as int == peak_index(spectrum@),
{
    let mut max_idx: usize = 0;
    let mut i: usize = 1;
    while i < spectrum.len()
        invariant
            1 <= i <= spectrum@.len(),
            max_idx < i,
            max_idx as int == peak_index(spectrum@.take(i as int)),
        decreases spectrum@.len() - i,
    {
        proof {
            let prefix = spectrum@.take(i + 1);
            assert(prefix.drop_last() =~= spectrum@.take(i as int));
            assert(prefix.last() == spectrum@[i as int]);
            lemma_peak_index_selects_max(spectrum@.take(i as int));
            assert(prefix[peak_index(prefix.drop_last())] == spectrum@[peak_index(
                spectrum@.take(i as int),
            )]);
        }
        if spectrum[i] > spectrum[max_idx] {
            max_idx = i;
        }
        i = i + 1;
    }
    proof {
        assert(spectrum@.take(spectrum@.len() as int) =~= spectrum@);
    }
    max_idx
}

/// The dominant bin [`peak_index`] selects holds the maximum of the
/// spectrum, and every earlier bin holds strictly less: ties resolve to the
/// lowest index encountered.
pub proof fn lemma_peak_index_selects_max(s: Seq<u64>)
    requires
        s.len() > 0,
    ensures
        0 <= peak_index(s) < s.len(),
        forall|j: int| 0 <= j < s.len() ==> #[trigger] s[j] <= s[peak_index(s)],
        forall|j: int| 0 <= j < peak_index(s) ==> #[trigger] s[j] < s[peak_index(s)],
    decreases s.len(),
{
    if s.len() > 1 {
        let rest = s.drop_last();
        lemma_peak_index_selects_max(rest);
        assert(forall|j: int| 0 <= j < rest.len() ==> rest[j] == s[j]);
    }
}

} // verus!
