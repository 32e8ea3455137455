//! Frequency sampling by edge counting on a comparator output.
//!
//! The hardware collaborators — the analog comparator producing a binary
//! output level, and a reference timer that fires at a fixed rate — stay
//! outside this crate. Each timer tick, the interrupt handler hands the
//! comparator's current output level to [`Comparator::handle_callback`],
//! which counts level transitions and elapsed ticks; the frequency is the
//! transition rate over the tick window, halved because a full signal cycle
//! produces two transitions.

use vstd::prelude::*;

verus! {

/// Once the elapsed tick counter exceeds this guard, both counters are reset
/// before counting continues, so the transitions-per-tick ratio stays over a
/// bounded window (a 16-bit wraparound guard).
pub const TICK_OVERFLOW_GUARD: u64 = 65535;

/// Abstract state of an edge-counting estimator: the reference timer's rate,
/// the last observed output level, the two counters, and whether the
/// comparator and tick interrupts are armed.
#[verifier::ext_equal]
pub struct CompView {
    /// Tick rate of the reference timer, in ticks per second.
    pub rate: u32,
    /// Output level observed on the previous tick, the baseline for edge
    /// detection.
    pub baseline: u8,
    /// Level transitions observed in the current window.
    pub ticks: int,
    /// Timer ticks elapsed in the current window.
    pub clock_ticks: int,
    /// Whether the estimator is armed and counting.
    pub running: bool,
}

/// Measures the frequency of a signal by counting output-level transitions
/// of a comparator over a tick-counted time window.
pub struct Comparator {
    timer_frequency: u32,
    current_comp_val: u8,
    ticks: u64,
    clock_ticks: u64,
    running: bool,
}

impl View for Comparator {
    type V = CompView;

    closed spec fn view(&self) -> CompView {
        CompView {
            rate: self.timer_frequency,
            baseline: self.current_comp_val,
            ticks: self.ticks as int,
            clock_ticks: self.clock_ticks as int,
            running: self.running,
        }
    }
}

/// The counters stay inside the guarded window: transitions never outnumber
/// elapsed ticks, and elapsed ticks never run past the overflow guard by
/// more than the one tick that triggers the reset.
pub open spec fn counters_bounded(s: CompView) -> bool {
    0 <= s.ticks <= s.clock_ticks <= TICK_OVERFLOW_GUARD as int + 1
}

/// State after one tick callback delivering output level `level`: counters
/// reset once the tick counter has run past the overflow guard, then a
/// transition is counted if the level changed, and a tick is counted
/// unconditionally.
pub open spec fn spec_callback(s: CompView, level: u8) -> CompView {
    let reset = if s.clock_ticks > TICK_OVERFLOW_GUARD as int {
        CompView { ticks: 0, clock_ticks: 0, ..s }
    } else {
        s
    };
    let counted = if reset.baseline != level {
        CompView { ticks: reset.ticks + 1, baseline: level, ..reset }
    } else {
        reset
    };
    CompView { clock_ticks: counted.clock_ticks + 1, ..counted }
}

/// The frequency measured over the current window, in millihertz:
/// `rate * transitions / elapsed_ticks / 2`, scaled by 1000. The division by
/// two accounts for the two transitions (rising and falling) per full signal
/// cycle. Before any tick has elapsed the ratio is undefined and the
/// measurement is absent.
pub open spec fn spec_frequency_millihertz(s: CompView) -> Option<u64> {
    if s.clock_ticks == 0 {
        None
    } else {
        Some((s.rate as int * s.ticks * 1000 / (s.clock_ticks * 2)) as u64)
    }
}

impl Comparator {
    /// Creates an estimator for a reference timer ticking `timer_frequency`
    /// times per second. The estimator starts disarmed, with cleared
    /// counters and a low baseline level.
    pub fn new(timer_frequency: u32) -> (c: Comparator)
        ensures
            c@ == (CompView {
                rate: timer_frequency,
                baseline: 0,
                ticks: 0,
                clock_ticks: 0,
                running: false,
            }),
    {
        Comparator {
            timer_frequency,
            current_comp_val: 0,
            ticks: 0,
            clock_ticks: 0,
            running: false,
        }
    }

    /// Arms the comparator and the tick interrupt, recording the
    /// comparator's current output level as the baseline for edge detection.
    pub fn start(&mut self, level: u8)
        ensures
            final(self)@ == (CompView { running: true, baseline: level, ..old(self)@ }),
    {
        self.running = true;
        self.current_comp_val = level;
    }

    /// Disarms the comparator and the tick interrupt. Counters keep their
    /// values; only arming changes.
    pub fn stop(&mut self)
        ensures
            final(self)@ == (CompView { running: false, ..old(self)@ }),
    {
        self.running = false;
    }

    /// Handles one timer tick from interrupt context, given the comparator's
    /// current output level.
    ///
    /// If the tick counter has run past [`TICK_OVERFLOW_GUARD`], both
    /// counters reset to zero first, discarding the window's history to keep
    /// the ratio bounded. A transition is counted when the level differs
    /// from the stored baseline; the tick counter advances unconditionally,
    /// so right after a reset it reads exactly one.
    pub fn handle_callback(&mut self, level: u8)
        requires
            counters_bounded(old(self)@),
        ensures
            counters_bounded(final(self)@),
            final(self)@ == spec_callback(old(self)@, level),
            old(self)@.clock_ticks > TICK_OVERFLOW_GUARD as int ==> {
                &&& final(self)@.clock_ticks == 1
                &&& final(self)@.ticks == (if old(self)@.baseline != level { 1int } else { 0int })
            },
    {
        if self.clock_ticks > TICK_OVERFLOW_GUARD {
            self.ticks = 0;
            self.clock_ticks = 0;
        }

        if self.current_comp_val != level {
            self.ticks = self.ticks + 1;
            self.current_comp_val = level;
        }
        self.clock_ticks = self.clock_ticks + 1;
    }

    /// Calculates the frequency measured over the current window, in
    /// millihertz. Returns `None` before any tick has elapsed, when the
    /// transitions-per-tick ratio is not yet defined.
    pub fn calculate_frequency(&self) -> (r: Option<u64>)
        requires
            counters_bounded(self@),
        ensures
            r == spec_frequency_millihertz(self@),
    {
        if self.clock_ticks == 0 {
            None
        } else {
            proof {
                lemma_frequency_fits(self@);
            }
            Some(self.timer_frequency as u64 * self.ticks * 1000 / (self.clock_ticks * 2))
        }
    }

    /// Level transitions observed in the current window.
    pub fn ticks(&self) -> (t: u64)
        ensures
            t as int == self@.ticks,
    {
        self.ticks
    }

    /// Timer ticks elapsed in the current window.
    pub fn clock_ticks(&self) -> (t: u64)
        ensures
            t as int == self@.clock_ticks,
    {
        self.clock_ticks
    }

    /// Whether the estimator is armed and counting.
    pub fn is_running(&self) -> (b: bool)
        ensures
            b == self@.running,
    {
        self.running
    }
}

/// Within the guarded window the scaled ratio stays well below the 64-bit
/// limit.
proof fn lemma_frequency_fits(s: CompView)
    requires
        counters_bounded(s),
    ensures
        0 <= s.rate as int * s.ticks <= 0x1_0000_0000_0000,
        0 <= s.rate as int * s.ticks * 1000 <= 0x3_e800_0000_0000_0000,
{
    let r = s.rate as int;
    let t = s.ticks;
    assert(r * t <= 0x1_0000_0000_0000) by (nonlinear_arith)
        requires
            0 <= r,
            r < 0x1_0000_0000,
            0 <= t,
            t <= 0x1_0000,
    ;
    assert(r * t >= 0) by (nonlinear_arith)
        requires
            0 <= r,
            0 <= t,
    ;
}

} // verus!
