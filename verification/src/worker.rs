//! The sensor worker: what it does next, given what just happened.
//!
//! A worker runs one loop. Each pass starts with a wake-up, which counts as
//! one tick. Every so many ticks the worker takes a sample; a sample that
//! completes a reporting window is followed by a notification. Then the
//! worker looks for commands, answers each with a dump of its history, and
//! sleeps for one period.
//!
//! The worker itself reads no sensor, sends nothing and never sleeps. It is
//! told what happened as a [`WorkerEvent`] and answers with the
//! [`WorkerAction`] to carry out next.

use vstd::prelude::*;
use vstd::arithmetic::div_mod::lemma_small_mod;
use crate::history::{Ring, StateBuffer};
use crate::period::lemma_successor_mod;
use crate::text::texts;
use crate::trend::{TrendAggregator, TrendState, TrendView, Window};

verus! {

/// Seconds a worker sleeps between two ticks.
pub const PERIOD: u64 = 5;

/// Samples in a reporting window: with a sample every five minutes, an hour.
pub const NUM_MEASUREMENTS: i32 = 12;

/// Ticks between two samples: with a tick every five seconds, five minutes.
pub const NUM_RUNS: i32 = 60;

/// Counts ticks towards the next sample.
pub struct Schedule {
    every: i32,
    elapsed: i32,
}

/// A schedule as plain values: a sample is due every `every` ticks, and
/// `elapsed` ticks have passed since the last one.
pub struct ScheduleView {
    pub every: i32,
    pub elapsed: i32,
}

impl ScheduleView {
    /// Whether the next tick brings a sample.
    pub open spec fn due(self) -> bool {
        self.elapsed + 1 >= self.every
    }

    /// The schedule after the next tick.
    pub open spec fn tick(self) -> ScheduleView {
        ScheduleView {
            every: self.every,
            elapsed: if self.due() {
                0
            } else {
                (self.elapsed + 1) as i32
            },
        }
    }

    /// The schedule after so many ticks.
    pub open spec fn after(self, ticks: nat) -> ScheduleView
        decreases ticks,
    {
        if ticks == 0 {
            self
        } else {
            self.after((ticks - 1) as nat).tick()
        }
    }
}

/// A fresh schedule brings a sample on every tick whose number is a multiple
/// of `every`, and on no other: after `ticks` ticks, `ticks % every` of them
/// have passed since the last sample, and the next tick brings one exactly
/// if it is tick number `every`, twice `every`, and so on.
pub proof fn lemma_sample_every_so_many_ticks(every: i32, ticks: nat)
    requires
        every >= 1,
    ensures
        (ScheduleView { every, elapsed: 0 }).after(ticks).every == every,
        (ScheduleView { every, elapsed: 0 }).after(ticks).elapsed == ticks % (every as nat),
        (ScheduleView { every, elapsed: 0 }).after(ticks).due() <==> (ticks + 1) % (every as nat)
            == 0,
    decreases ticks,
{
    if ticks == 0 {
        lemma_small_mod(0, every as nat);
    } else {
        lemma_sample_every_so_many_ticks(every, (ticks - 1) as nat);
        lemma_successor_mod(ticks - 1, every as int);
    }
    lemma_successor_mod(ticks as int, every as int);
}

impl View for Schedule {
    type V = ScheduleView;

    closed spec fn view(&self) -> ScheduleView {
        ScheduleView { every: self.every, elapsed: self.elapsed }
    }
}

impl Schedule {
    #[verifier::type_invariant]
    spec fn well_formed(self) -> bool {
        self.elapsed == 0 || 0 < self.elapsed < self.every
    }

    /// A schedule with a sample every `every` ticks. A count below one gives
    /// a sample on every tick.
    pub fn new(every: i32) -> (r: Self)
        ensures
            r@ == (ScheduleView { every, elapsed: 0 }),
    {
        Schedule { every, elapsed: 0 }
    }

    /// Counts one tick and tells whether a sample is due on it.
    pub fn tick(&mut self) -> (due: bool)
        ensures
            due == old(self)@.due(),
            final(self)@ == old(self)@.tick(),
    {
        proof {
            use_type_invariant(&*self);
        }
        if self.elapsed + 1 >= self.every {
            self.elapsed = 0;
            true
        } else {
            self.elapsed = self.elapsed + 1;
            false
        }
    }
}

/// Where a worker stands in its loop.
#[derive(Debug, Clone, Copy, PartialEq, Eq, Structural)]
pub enum Phase {
    /// Not started yet.
    Idle,
    /// Waiting for the sample it asked for.
    Sampling,
    /// Waiting for the notification it asked for to be over.
    Reporting,
    /// Waiting to hear whether a command has come in.
    CommandCheck,
    /// Asleep until the next tick.
    Sleep,
}

/// What happened since the worker's last action.
pub enum WorkerEvent {
    /// The loop starts, or the sleep is over.
    Woke,
    /// The sensor was read: the pressure, and the record written for it.
    Sampled { pressure: u64, record: String },
    /// The notification was dealt with, whether or not it got through.
    Notified,
    /// A command came in. Whatever it says, it asks for a dump, and `header`
    /// is the line to put first.
    Command { header: String },
    /// No command is waiting.
    NoCommand,
}

/// What the worker wants done next.
pub enum WorkerAction {
    /// Read the sensor and answer with `Sampled`. `previous` is the reading
    /// before this one.
    ReadSensor { previous: u64 },
    /// Report this window and answer with `Notified`.
    Notify(Window),
    /// Look for a command without waiting; answer with `Command` or
    /// `NoCommand`.
    PollCommand,
    /// Send these lines, in this order, then look for the next command.
    Reply(Vec<String>),
    /// Sleep for so many seconds and answer with `Woke`.
    Sleep { seconds: u64 },
}

/// The answer to an event that does not fit the worker's phase.
#[derive(Debug, Clone, Copy, PartialEq, Eq, Structural)]
pub struct OutOfTurn {
    pub phase: Phase,
}

/// An event as plain values.
pub enum EventView {
    Woke,
    Sampled { pressure: u64, record: Seq<char> },
    Notified,
    Command { header: Seq<char> },
    NoCommand,
}

/// An action as plain values.
pub enum ActionView {
    ReadSensor { previous: u64 },
    Notify(Window),
    PollCommand,
    Reply(Seq<Seq<char>>),
    Sleep { seconds: u64 },
}

impl View for WorkerEvent {
    type V = EventView;

    open spec fn view(&self) -> EventView {
        match self {
            WorkerEvent::Woke => EventView::Woke,
            WorkerEvent::Sampled { pressure, record } => EventView::Sampled {
                pressure: *pressure,
                record: record@,
            },
            WorkerEvent::Notified => EventView::Notified,
            WorkerEvent::Command { header } => EventView::Command { header: header@ },
            WorkerEvent::NoCommand => EventView::NoCommand,
        }
    }
}

impl View for WorkerAction {
    type V = ActionView;

    open spec fn view(&self) -> ActionView {
        match self {
            WorkerAction::ReadSensor { previous } => ActionView::ReadSensor { previous: *previous },
            WorkerAction::Notify(window) => ActionView::Notify(*window),
            WorkerAction::PollCommand => ActionView::PollCommand,
            WorkerAction::Reply(lines) => ActionView::Reply(texts(lines@)),
            WorkerAction::Sleep { seconds } => ActionView::Sleep { seconds: *seconds },
        }
    }
}

/// A worker as plain values.
pub struct WorkerView {
    pub phase: Phase,
    pub schedule: ScheduleView,
    pub trend: TrendView,
    pub history: Ring,
}

impl WorkerView {
    /// The answer to a command: the header, then every retained record in
    /// slot order.
    pub open spec fn dump(self, header: Seq<char>) -> Seq<Seq<char>> {
        seq![header] + self.history.entries
    }

    /// The worker after `event`, and the action it answers with; `None`
    /// where the event does not fit the phase.
    ///
    /// A wake-up, before the first pass or out of a sleep, counts a tick and
    /// leads to a sample if one is due, to the command check if not. A
    /// sample goes into the trend statistics and the history, and leads to a
    /// notification if it completed a window, to the command check if not.
    /// The end of a notification leads to the command check. There, each
    /// command is answered with a dump, and the lack of one leads to sleep.
    pub open spec fn step(self, event: EventView) -> Option<(WorkerView, ActionView)> {
        match (self.phase, event) {
            (Phase::Idle, EventView::Woke) | (Phase::Sleep, EventView::Woke) => {
                let schedule = self.schedule.tick();
                if self.schedule.due() {
                    Some(
                        (
                            WorkerView { phase: Phase::Sampling, schedule, ..self },
                            ActionView::ReadSensor { previous: self.trend.state.previous },
                        ),
                    )
                } else {
                    Some(
                        (
                            WorkerView { phase: Phase::CommandCheck, schedule, ..self },
                            ActionView::PollCommand,
                        ),
                    )
                }
            },
            (Phase::Sampling, EventView::Sampled { pressure, record }) => {
                let trend = self.trend.observe(pressure);
                let history = self.history.add(record);
                match self.trend.report(pressure) {
                    Some(window) => Some(
                        (
                            WorkerView { phase: Phase::Reporting, trend, history, ..self },
                            ActionView::Notify(window),
                        ),
                    ),
                    None => Some(
                        (
                            WorkerView { phase: Phase::CommandCheck, trend, history, ..self },
                            ActionView::PollCommand,
                        ),
                    ),
                }
            },
            (Phase::Reporting, EventView::Notified) => Some(
                (WorkerView { phase: Phase::CommandCheck, ..self }, ActionView::PollCommand),
            ),
            (Phase::CommandCheck, EventView::Command { header }) => Some(
                (self, ActionView::Reply(self.dump(header))),
            ),
            (Phase::CommandCheck, EventView::NoCommand) => Some(
                (WorkerView { phase: Phase::Sleep, ..self }, ActionView::Sleep { seconds: PERIOD }),
            ),
            _ => None,
        }
    }

    /// The worker after `event`: as [`step`](Self::step) gives it, and
    /// unchanged where the event does not fit.
    pub open spec fn after(self, event: EventView) -> WorkerView {
        match self.step(event) {
            Some((worker, _)) => worker,
            None => self,
        }
    }

    /// The answer to `event`: the action that [`step`](Self::step) gives, or
    /// the phase that the event did not fit.
    pub open spec fn answer(self, event: EventView) -> Result<ActionView, OutOfTurn> {
        match self.step(event) {
            Some((_, action)) => Ok(action),
            None => Err(OutOfTurn { phase: self.phase }),
        }
    }
}

/// The plain-value form of an answer.
pub open spec fn answer_view(r: Result<WorkerAction, OutOfTurn>) -> Result<ActionView, OutOfTurn> {
    match r {
        Ok(action) => Ok(action@),
        Err(e) => Err(e),
    }
}

/// A command is answered with exactly one header line followed by every
/// retained record in slot order, and answering changes nothing: a second
/// command right after the first gets the same records again, under its own
/// header.
pub proof fn lemma_dump_is_repeatable(worker: WorkerView, first: Seq<char>, second: Seq<char>)
    requires
        worker.phase == Phase::CommandCheck,
    ensures
        worker.step(EventView::Command { header: first }) == Some(
            (worker, ActionView::Reply(worker.dump(first))),
        ),
        worker.step(EventView::Command { header: second }) == Some(
            (worker, ActionView::Reply(worker.dump(second))),
        ),
        worker.dump(first).len() == 1 + worker.history.entries.len(),
        worker.dump(first)[0] == first,
        worker.dump(first).skip(1) == worker.history.entries,
        worker.dump(second).skip(1) == worker.dump(first).skip(1),
{
    assert(worker.dump(first).skip(1) =~= worker.history.entries);
    assert(worker.dump(second).skip(1) =~= worker.history.entries);
}

/// Only a sample changes the history: after any other event a dump carries
/// the same records as before it.
pub proof fn lemma_history_changes_by_samples_only(worker: WorkerView, event: EventView)
    requires
        !(event is Sampled),
    ensures
        worker.step(event) matches Some((after, _)) ==> after.history == worker.history,
{
}

/// One sensor's worker: its place in the loop, its tick count, the trend
/// statistics of the current window and the history of its samples.
pub struct SensorWorker {
    phase: Phase,
    schedule: Schedule,
    trend: TrendAggregator,
    history: StateBuffer,
}

impl View for SensorWorker {
    type V = WorkerView;

    closed spec fn view(&self) -> WorkerView {
        WorkerView {
            phase: self.phase,
            schedule: self.schedule@,
            trend: self.trend@,
            history: self.history@,
        }
    }
}

impl SensorWorker {
    /// A worker that has not started: a sample every `ticks_per_sample`
    /// ticks, a report every `report_every` samples, an empty history.
    pub fn new(ticks_per_sample: i32, report_every: i32) -> (r: Self)
        ensures
            r@ == (WorkerView {
                phase: Phase::Idle,
                schedule: ScheduleView { every: ticks_per_sample, elapsed: 0 },
                trend: TrendView { state: TrendState::unset(), report_every },
                history: Ring::empty(crate::history::MAX_ENTRIES as nat),
            }),
    {
        SensorWorker {
            phase: Phase::Idle,
            schedule: Schedule::new(ticks_per_sample),
            trend: TrendAggregator::new(report_every),
            history: StateBuffer::new(),
        }
    }

    /// Where the worker stands in its loop.
    pub fn phase(&self) -> (r: Phase)
        ensures
            r == self@.phase,
    {
        self.phase
    }

    /// The trend statistics of the current window.
    pub fn trend(&self) -> (r: TrendState)
        ensures
            r == self@.trend.state,
    {
        self.trend.state()
    }

    /// The history of samples.
    pub fn history(&self) -> (r: &StateBuffer)
        ensures
            r@ == self@.history,
    {
        &self.history
    }

    /// The answer to a command: `header`, then a copy of every retained
    /// record in slot order.
    pub fn dump(&self, header: String) -> (r: Vec<String>)
        ensures
            texts(r@) == self@.dump(header@),
    {
        let entries = self.history.get_all();
        let mut lines: Vec<String> = Vec::new();
        lines.push(header);
        let mut i: usize = 0;
        while i < entries.len()
            invariant
                i <= entries.len(),
                lines.len() == i + 1,
                lines@[0]@ == header@,
                forall|j: int| 0 <= j < i ==> lines@[j + 1]@ == entries@[j]@,
            decreases entries.len() - i,
        {
            lines.push(entries[i].clone());
            i += 1;
        }
        assert(texts(lines@) =~= seq![header@] + texts(entries@));
        lines
    }

    /// Takes the worker one step: records what `event` brought and returns
    /// what to do next. An event that does not fit the worker's phase changes
    /// nothing and is answered with the phase the worker is in.
    pub fn step(&mut self, event: WorkerEvent) -> (r: Result<WorkerAction, OutOfTurn>)
        ensures
            final(self)@ == old(self)@.after(event@),
            answer_view(r) == old(self)@.answer(event@),
    {
        match event {
            WorkerEvent::Woke => {
                match self.phase {
                    Phase::Idle | Phase::Sleep => {
                        let previous = self.trend.state().previous;
                        if self.schedule.tick() {
                            self.phase = Phase::Sampling;
                            Ok(WorkerAction::ReadSensor { previous })
                        } else {
                            self.phase = Phase::CommandCheck;
                            Ok(WorkerAction::PollCommand)
                        }
                    },
                    _ => Err(OutOfTurn { phase: self.phase }),
                }
            },
            WorkerEvent::Sampled { pressure, record } => {
                match self.phase {
                    Phase::Sampling => {
                        self.history.add(record);
                        match self.trend.observe(pressure) {
                            Some(window) => {
                                self.phase = Phase::Reporting;
                                Ok(WorkerAction::Notify(window))
                            },
                            None => {
                                self.phase = Phase::CommandCheck;
                                Ok(WorkerAction::PollCommand)
                            },
                        }
                    },
                    _ => Err(OutOfTurn { phase: self.phase }),
                }
            },
            WorkerEvent::Notified => {
                match self.phase {
                    Phase::Reporting => {
                        self.phase = Phase::CommandCheck;
                        Ok(WorkerAction::PollCommand)
                    },
                    _ => Err(OutOfTurn { phase: self.phase }),
                }
            },
            WorkerEvent::Command { header } => {
                match self.phase {
                    Phase::CommandCheck => Ok(WorkerAction::Reply(self.dump(header))),
                    _ => Err(OutOfTurn { phase: self.phase }),
                }
            },
            WorkerEvent::NoCommand => {
                match self.phase {
                    Phase::CommandCheck => {
                        self.phase = Phase::Sleep;
                        Ok(WorkerAction::Sleep { seconds: PERIOD })
                    },
                    _ => Err(OutOfTurn { phase: self.phase }),
                }
            },
        }
    }
}

} // verus!
