//! Running statistics over a reporting window, and the trend they show.
//!
//! A window is the run of samples between two reports. Over it the
//! aggregator keeps the first reading, the highest, the lowest and the
//! latest. Positive zero doubles as "not set yet" for the first, highest and
//! lowest reading, so a reading of exactly zero cannot be told from no
//! reading at all: see [`lemma_zero_reading_counts_as_unset`].

use vstd::prelude::*;
use vstd::arithmetic::div_mod::lemma_small_mod;
use crate::period::lemma_successor_mod;
use crate::reading::{
    f64_checked,
    f64_is_clean,
    f64_is_positive,
    f64_less,
    f64_position,
    f64_positive,
    lemma_zero_is_not_normal,
    validate_f64,
};

verus! {

/// Direction of the pressure over a window.
#[derive(Debug, Clone, Copy, PartialEq, Eq, Structural)]
pub enum Trend {
    Rising,
    Falling,
}

impl Trend {
    /// The trend shown by a change of `delta`: rising when the change is
    /// greater than zero, falling otherwise. No change at all is falling.
    pub open spec fn from_change(delta: u64) -> Trend {
        if f64_is_positive(delta) {
            Trend::Rising
        } else {
            Trend::Falling
        }
    }

    /// The word a trend is reported by.
    pub open spec fn name(self) -> Seq<char> {
        match self {
            Trend::Rising => "rising"@,
            Trend::Falling => "falling"@,
        }
    }

    /// Classifies a change in pressure, given as the bit pattern of the
    /// latest reading minus the first.
    pub fn of_delta(delta: u64) -> (r: Trend)
        ensures
            r == Trend::from_change(delta),
    {
        if f64_positive(delta) {
            Trend::Rising
        } else {
            Trend::Falling
        }
    }

    /// The word a trend is reported by.
    pub fn word(self) -> (r: &'static str)
        ensures
            r@ == self.name(),
    {
        match self {
            Trend::Rising => "rising",
            Trend::Falling => "falling",
        }
    }
}

/// A change of zero, of either sign, is falling.
pub proof fn lemma_no_change_is_falling()
    ensures
        Trend::from_change(0) == Trend::Falling,
        Trend::from_change(0x8000_0000_0000_0000) == Trend::Falling,
{
    assert(0x8000_0000_0000_0000u64 & 0x8000_0000_0000_0000u64 != 0) by (bit_vector);
}

/// The statistics of the current window. A `first`, `high` or `low` of zero
/// stands for "not set".
#[derive(Debug, Clone, Copy, PartialEq, Eq, Structural)]
pub struct TrendState {
    pub first: u64,
    pub high: u64,
    pub low: u64,
    pub previous: u64,
    pub count: i32,
}

/// What a completed window showed.
#[derive(Debug, Clone, Copy, PartialEq, Eq, Structural)]
pub struct Window {
    pub first: u64,
    pub current: u64,
    pub high: u64,
    pub low: u64,
}

impl TrendState {
    /// The state before any sample: nothing set, nothing counted.
    pub open spec fn unset() -> TrendState {
        TrendState { first: 0, high: 0, low: 0, previous: 0, count: 0 }
    }

    /// Every reading held is a normal number or positive zero, and the count
    /// is not negative.
    pub open spec fn clean(self) -> bool {
        &&& f64_is_clean(self.first)
        &&& f64_is_clean(self.high)
        &&& f64_is_clean(self.low)
        &&& f64_is_clean(self.previous)
        &&& self.count >= 0
    }

    /// The state after one more sample. The reading is checked first. It
    /// becomes the first reading if none is set, the highest if it lies above
    /// the highest so far, the lowest if none is set or it lies below the
    /// lowest so far, and the latest in any case.
    pub open spec fn folded(self, reading: u64) -> TrendState
        recommends
            self.count < i32::MAX,
    {
        let pressure = f64_checked(reading);
        TrendState {
            first: if self.first == 0 {
                pressure
            } else {
                self.first
            },
            high: if f64_position(self.high) < f64_position(pressure) {
                pressure
            } else {
                self.high
            },
            low: if self.low == 0 || f64_position(pressure) < f64_position(self.low) {
                pressure
            } else {
                self.low
            },
            previous: pressure,
            count: (self.count + 1) as i32,
        }
    }

    /// The state after a report: first, highest and lowest reading unset
    /// and the count back at zero. The latest reading stays.
    pub open spec fn cleared(self) -> TrendState {
        TrendState { first: 0, high: 0, low: 0, previous: self.previous, count: 0 }
    }

    /// What the window shows at this point.
    pub open spec fn window(self) -> Window {
        Window { first: self.first, current: self.previous, high: self.high, low: self.low }
    }
}

/// A reading of zero leaves no trace in the window's first, highest and
/// lowest reading.
///
/// After a first reading of zero the window still counts as having no first
/// and no lowest reading, so the next reading takes both places, also where
/// it lies above zero. And a window of readings at or below zero has a
/// highest reading of zero, whether or not zero was among them.
pub proof fn lemma_zero_reading_counts_as_unset(reading: u64)
    ensures
        TrendState::unset().folded(0).first == 0,
        TrendState::unset().folded(0).high == 0,
        TrendState::unset().folded(0).low == 0,
        TrendState::unset().folded(0).folded(reading).first == f64_checked(reading),
        TrendState::unset().folded(0).folded(reading).low == f64_checked(reading),
        f64_position(f64_checked(reading)) <= 0 ==> TrendState::unset().folded(reading).high == 0,
{
    lemma_zero_is_not_normal();
    assert(0u64 & 0x8000_0000_0000_0000u64 == 0) by (bit_vector);
}

/// Tracks the statistics of the current window and closes the window after
/// a set number of samples.
pub struct TrendAggregator {
    state: TrendState,
    report_every: i32,
}

/// An aggregator as plain values.
pub struct TrendView {
    pub state: TrendState,
    pub report_every: i32,
}

impl TrendView {
    /// Whether the sample that makes `state` completes a window.
    pub open spec fn completes(self, state: TrendState) -> bool {
        state.count >= self.report_every
    }

    /// The aggregator after one more sample: the sample is folded in, and
    /// where that completes the window the statistics are cleared.
    pub open spec fn observe(self, reading: u64) -> TrendView {
        let state = self.state.folded(reading);
        TrendView {
            state: if self.completes(state) {
                state.cleared()
            } else {
                state
            },
            report_every: self.report_every,
        }
    }

    /// What the sample reports: the window it completed, if it did.
    pub open spec fn report(self, reading: u64) -> Option<Window> {
        let state = self.state.folded(reading);
        if self.completes(state) {
            Some(state.window())
        } else {
            None
        }
    }

    /// The aggregator after these samples, first to last.
    pub open spec fn after(self, readings: Seq<u64>) -> TrendView
        decreases readings.len(),
    {
        if readings.len() == 0 {
            self
        } else {
            self.after(readings.drop_last()).observe(readings.last())
        }
    }
}

/// A fresh aggregator reports on every sample whose number is a multiple of
/// `report_every`, and on no other: after any run of samples the current
/// window holds as many as the remainder says, and the last sample of the
/// run completed a window exactly if their number is a multiple.
pub proof fn lemma_report_every_so_many_samples(report_every: i32, readings: Seq<u64>)
    requires
        report_every >= 1,
    ensures
        (TrendView { state: TrendState::unset(), report_every }).after(readings).report_every
            == report_every,
        (TrendView { state: TrendState::unset(), report_every }).after(readings).state.count
            == readings.len() % (report_every as nat),
        readings.len() > 0 ==> ((TrendView { state: TrendState::unset(), report_every }).after(
            readings.drop_last(),
        ).report(readings.last()) is Some <==> readings.len() % (report_every as nat) == 0),
    decreases readings.len(),
{
    if readings.len() == 0 {
        lemma_small_mod(0, report_every as nat);
    } else {
        lemma_report_every_so_many_samples(report_every, readings.drop_last());
        lemma_successor_mod(readings.len() - 1, report_every as int);
    }
}

impl View for TrendAggregator {
    type V = TrendView;

    closed spec fn view(&self) -> TrendView {
        TrendView { state: self.state, report_every: self.report_every }
    }
}

impl TrendAggregator {
    #[verifier::type_invariant]
    spec fn well_formed(self) -> bool {
        &&& self.state.clean()
        &&& (self.state.count == 0 || self.state.count < self.report_every)
    }

    /// An aggregator that closes its window after `report_every` samples. A
    /// count below one closes it after every sample.
    pub fn new(report_every: i32) -> (r: Self)
        ensures
            r@ == (TrendView { state: TrendState::unset(), report_every }),
    {
        TrendAggregator {
            state: TrendState { first: 0, high: 0, low: 0, previous: 0, count: 0 },
            report_every,
        }
    }

    /// The statistics of the current window.
    pub fn state(&self) -> (r: TrendState)
        ensures
            r == self@.state,
            r.clean(),
    {
        proof {
            use_type_invariant(self);
        }
        self.state
    }

    /// Takes one sample into the window. Returns the window's statistics if
    /// this sample completed it, and then starts the next window.
    pub fn observe(&mut self, reading: u64) -> (r: Option<Window>)
        ensures
            final(self)@ == old(self)@.observe(reading),
            r == old(self)@.report(reading),
    {
        proof {
            use_type_invariant(&*self);
        }
        let pressure = validate_f64(reading);
        let old_state = self.state;
        let state = TrendState {
            first: if old_state.first == 0 {
                pressure
            } else {
                old_state.first
            },
            high: if f64_less(old_state.high, pressure) {
                pressure
            } else {
                old_state.high
            },
            low: if old_state.low == 0 || f64_less(pressure, old_state.low) {
                pressure
            } else {
                old_state.low
            },
            previous: pressure,
            count: old_state.count + 1,
        };
        if state.count >= self.report_every {
            self.state = TrendState { first: 0, high: 0, low: 0, previous: pressure, count: 0 };
            Some(Window { first: state.first, current: pressure, high: state.high, low: state.low })
        } else {
            self.state = state;
            None
        }
    }
}

} // verus!
