//! The course of one measurement session: write the header, then report, record, sample, sleep, and
//! again, until it is told to stop.
use crate::entry::{delta_millis, entry_map, MeasurementEntryValue, Readings};
use crate::measurement_handler::{HandlerState, Line, MeasurementHandler, Output};
use crate::timestamp::{Timestamp, NANOS_PER_MILLI};
use vstd::prelude::*;

verus! {

/// What a session has to do next.
#[derive(Debug, Clone, Copy, PartialEq, Eq, Structural)]
pub enum Phase {
    /// Write the header line.
    Header,
    /// Look for a stop signal, and begin the next round where there is none.
    Poll,
    /// Write a row of the readings and sum up their energy.
    Report,
    /// Record the previous readings, unless a stop signal comes first.
    Record,
    /// Take the next sample.
    Collect,
    /// Sleep that many nanoseconds, unless a stop signal comes first.
    Sleep(u128),
    /// After a stop signal: write a last row and sum up its energy.
    LastReport,
    /// After a stop signal: record the previous readings.
    LastRecord,
    /// End the session. `measured` says whether it had readings when it was told to stop.
    Conclude { measured: bool },
}

/// What happened to a session.
#[derive(Debug)]
pub enum SessionEvent {
    /// The header line was written.
    HeaderWritten,
    /// No stop signal was there.
    Tick,
    /// A stop signal came.
    Stop,
    /// A row was written and its energy summed up, which may have changed the readings.
    Summarised { previous_time: Timestamp, results: Readings, previous_results: Readings },
    /// A sample was taken. It was begun at `at`, `elapsed` nanoseconds into the round by its end.
    Collected { at: Timestamp, results: Readings, elapsed: u128 },
    /// The sleep is over.
    Slept,
}

/// What happens to a session, over mathematical values. Recording is an event too.
pub enum Happening {
    HeaderWritten,
    Tick,
    Stop,
    Summarised {
        previous_time: Timestamp,
        results: Map<Seq<char>, u64>,
        previous_results: Map<Seq<char>, u64>,
    },
    Collected { at: Timestamp, results: Map<Seq<char>, u64>, elapsed: u128 },
    Slept,
    Recorded { now: Timestamp },
}

impl View for SessionEvent {
    type V = Happening;

    open spec fn view(&self) -> Happening {
        match *self {
            SessionEvent::HeaderWritten => Happening::HeaderWritten,
            SessionEvent::Tick => Happening::Tick,
            SessionEvent::Stop => Happening::Stop,
            SessionEvent::Summarised { previous_time, results, previous_results } =>
            Happening::Summarised {
                previous_time,
                results: results@,
                previous_results: previous_results@,
            },
            SessionEvent::Collected { at, results, elapsed } => Happening::Collected {
                at,
                results: results@,
                elapsed,
            },
            SessionEvent::Slept => Happening::Slept,
        }
    }
}

/// A running session.
#[derive(Debug)]
pub struct MeasurementSession {
    function_name: String,
    start_time: u128,
    interval: u128,
    previous_time: Timestamp,
    results: Readings,
    previous_results: Readings,
    phase: Phase,
}

/// [`MeasurementSession`] over mathematical values.
#[verifier::ext_equal]
pub struct SessionState {
    pub function: Seq<char>,
    pub start_time: u128,
    pub interval: u128,
    pub previous_time: Timestamp,
    pub results: Map<Seq<char>, u64>,
    pub previous_results: Map<Seq<char>, u64>,
    pub phase: Phase,
}

impl View for MeasurementSession {
    type V = SessionState;

    closed spec fn view(&self) -> SessionState {
        SessionState {
            function: self.function_name@,
            start_time: self.start_time,
            interval: self.interval,
            previous_time: self.previous_time,
            results: self.results@,
            previous_results: self.previous_results@,
            phase: self.phase,
        }
    }
}

impl SessionState {
    /// A session right after its first sample.
    pub open spec fn started(
        function: Seq<char>,
        interval: u128,
        started: Timestamp,
        results: Map<Seq<char>, u64>,
    ) -> SessionState {
        SessionState {
            function,
            start_time: (started.since_epoch() / NANOS_PER_MILLI as int) as u128,
            interval,
            previous_time: started,
            results,
            previous_results: results,
            phase: Phase::Header,
        }
    }

    /// Whether `event` can happen now. A stop signal is only looked for where the session waits. A
    /// round may not take longer than the interval, and time does not run backwards.
    pub open spec fn accepts(self, event: Happening) -> bool {
        match event {
            Happening::HeaderWritten => self.phase is Header,
            Happening::Tick => self.phase is Poll,
            Happening::Stop => self.phase is Poll || self.phase is Record || self.phase is Sleep,
            Happening::Summarised { .. } => self.phase is Report || self.phase is LastReport,
            Happening::Collected { elapsed, .. } => self.phase is Collect && elapsed
                <= self.interval,
            Happening::Slept => self.phase is Sleep,
            Happening::Recorded { now } => (self.phase is Record || self.phase is LastRecord)
                && self.previous_time.since_epoch() <= now.since_epoch(),
        }
    }

    /// The session after `event`.
    pub open spec fn after(self, event: Happening) -> SessionState {
        match event {
            Happening::HeaderWritten => SessionState { phase: Phase::Poll, ..self },
            Happening::Tick => SessionState { phase: Phase::Report, ..self },
            Happening::Stop => SessionState {
                phase: if self.results == Map::<Seq<char>, u64>::empty() {
                    Phase::Conclude { measured: false }
                } else {
                    Phase::LastReport
                },
                ..self
            },
            Happening::Summarised { previous_time, results, previous_results } => SessionState {
                previous_time,
                results,
                previous_results,
                phase: if self.phase is Report {
                    Phase::Record
                } else {
                    Phase::LastRecord
                },
                ..self
            },
            Happening::Collected { at, results, elapsed } => SessionState {
                previous_time: at,
                previous_results: self.results,
                results,
                phase: Phase::Sleep((self.interval - elapsed) as u128),
                ..self
            },
            Happening::Slept => SessionState { phase: Phase::Poll, ..self },
            Happening::Recorded { .. } => SessionState {
                phase: if self.phase is Record {
                    Phase::Collect
                } else {
                    Phase::Conclude { measured: true }
                },
                ..self
            },
        }
    }

    /// Whether the session closes with a line that sums up its energy: it had readings when it was
    /// told to stop, sums are kept, and the energy is above zero.
    pub open spec fn sums_up(self, handler: HandlerState, positive: bool) -> bool {
        self.phase == (Phase::Conclude { measured: true }) && handler.summary && positive
    }

    /// The entry that recording at `now` writes down.
    pub open spec fn entry(self, now: Timestamp) -> Map<Seq<char>, MeasurementEntryValue> {
        entry_map(self.previous_time, delta_millis(self.previous_time, now), self.previous_results)
    }
}

impl MeasurementSession {
    /// The session that measures `function_name` and took its first sample at `started`. A round
    /// takes `interval` nanoseconds.
    fn new(function_name: String, interval: u128, started: Timestamp, results: Readings) -> (
    session: Self)
        requires
            started.since_epoch() >= 0,
        ensures
            session@ == SessionState::started(function_name@, interval, started, results@),
    {
        let previous_results = results.clone();
        proof {
            assert(previous_results@ =~= results@);
        }
        MeasurementSession {
            function_name,
            start_time: started.epoch_millis(),
            interval,
            previous_time: started,
            results,
            previous_results,
            phase: Phase::Header,
        }
    }

    /// The session that was begun with `handler` and took its first sample at `started`: it
    /// measures the function that the handler names. There is none where the handler is not
    /// measuring.
    pub fn of(
        handler: &MeasurementHandler,
        interval: u128,
        started: Timestamp,
        results: Readings,
    ) -> (session: Option<Self>)
        requires
            started.since_epoch() >= 0,
        ensures
            match session {
                Some(session) => handler@.measuring && handler@.function == Some(
                    session@.function,
                ) && session@ == SessionState::started(
                    session@.function,
                    interval,
                    started,
                    results@,
                ),
                None => !(handler@.measuring && handler@.function is Some),
            },
    {
        if !handler.is_currently_measuring() {
            return None;
        }
        match handler.current_fn_measured() {
            Some(function) => Some(
                MeasurementSession::new(function.clone(), interval, started, results),
            ),
            None => None,
        }
    }

    /// What to do next.
    pub fn phase(&self) -> (phase: Phase)
        ensures
            phase == self@.phase,
    {
        self.phase
    }

    /// The function that is measured.
    pub fn function_name(&self) -> (name: &String)
        ensures
            name@ == self@.function,
    {
        &self.function_name
    }

    /// When the session began, in milliseconds since the Unix epoch.
    pub fn start_time(&self) -> (millis: u128)
        ensures
            millis == self@.start_time,
    {
        self.start_time
    }

    /// The nanoseconds that a round takes.
    pub fn interval(&self) -> (nanos: u128)
        ensures
            nanos == self@.interval,
    {
        self.interval
    }

    /// When the previous sample was taken.
    pub fn previous_time(&self) -> (time: Timestamp)
        ensures
            time == self@.previous_time,
    {
        self.previous_time
    }

    /// The readings of the latest sample.
    pub fn results(&self) -> (readings: &Readings)
        ensures
            readings@ == self@.results,
    {
        &self.results
    }

    /// The readings of the sample before.
    pub fn previous_results(&self) -> (readings: &Readings)
        ensures
            readings@ == self@.previous_results,
    {
        &self.previous_results
    }

    /// Takes note of an event.
    pub fn step(&mut self, event: SessionEvent)
        requires
            old(self)@.accepts(event@),
        ensures
            final(self)@ == old(self)@.after(event@),
    {
        match event {
            SessionEvent::HeaderWritten => {
                self.phase = Phase::Poll;
            },
            SessionEvent::Tick => {
                self.phase = Phase::Report;
            },
            SessionEvent::Stop => {
                self.phase = if self.results.is_empty() {
                    Phase::Conclude { measured: false }
                } else {
                    Phase::LastReport
                };
            },
            SessionEvent::Summarised { previous_time, results, previous_results } => {
                self.previous_time = previous_time;
                self.results = results;
                self.previous_results = previous_results;
                self.phase = match self.phase {
                    Phase::Report => Phase::Record,
                    _ => Phase::LastRecord,
                };
            },
            SessionEvent::Collected { at, results, elapsed } => {
                self.previous_time = at;
                let mut latest = results;
                std::mem::swap(&mut self.results, &mut latest);
                self.previous_results = latest;
                self.phase = Phase::Sleep(self.interval - elapsed);
            },
            SessionEvent::Slept => {
                self.phase = Phase::Poll;
            },
        }
    }

    /// Records the previous readings with the handler, as of `now`.
    pub fn record(&mut self, handler: &mut MeasurementHandler, now: Timestamp)
        requires
            old(self)@.accepts((Happening::Recorded { now })),
        ensures
            final(self)@ == old(self)@.after((Happening::Recorded { now })),
            final(handler)@ == old(handler)@.recorded(old(self)@.entry(now)),
            old(handler)@.wf() ==> final(handler)@.wf(),
    {
        handler.process_last_measurement(self.previous_time, now, &self.previous_results);
        self.phase = match self.phase {
            Phase::Record => Phase::Collect,
            _ => Phase::Conclude { measured: true },
        };
    }

    /// Ends the session, which has come to its conclusion, and with it the measurement of its
    /// handler. The line that is returned, if any, sums up the `energy` joules it consumed in
    /// `seconds` seconds; `positive` says whether that energy is above zero. A session concludes
    /// once, so that there is one such line at most.
    pub fn conclude(
        self,
        handler: &mut MeasurementHandler,
        positive: bool,
        energy: &str,
        seconds: &str,
    ) -> (line: Option<Line>)
        requires
            self@.phase is Conclude,
        ensures
            match line {
                Some(line) => self@.sums_up(old(handler)@, positive) && line.output
                    == Output::Stdout && line.text@ == old(handler)@.energy_text(
                    energy@,
                    seconds@,
                    self@.function,
                ),
                None => !self@.sums_up(old(handler)@, positive),
            },
            final(handler)@ == old(handler)@.finished(),
            final(handler)@.wf(),
    {
        let measured = match self.phase {
            Phase::Conclude { measured } => measured,
            _ => false,
        };
        let line = handler.energy_summary(
            measured && positive,
            energy,
            seconds,
            &self.function_name,
        );
        handler.finish_measurement();
        line
    }
}

/// The handler and its session after `event`.
pub open spec fn advance(handler: HandlerState, session: SessionState, event: Happening) -> (
    HandlerState,
    SessionState,
) {
    (
        match event {
            Happening::Recorded { now } => handler.recorded(session.entry(now)),
            _ => handler,
        },
        session.after(event),
    )
}

/// The handler and its session after `events`, first to last.
pub open spec fn run(handler: HandlerState, session: SessionState, events: Seq<Happening>) -> (
    HandlerState,
    SessionState,
)
    decreases events.len(),
{
    if events.len() == 0 {
        (handler, session)
    } else {
        let before = run(handler, session, events.drop_last());
        advance(before.0, before.1, events.last())
    }
}

/// Whether `events` can happen one after the other, from `session` on.
pub open spec fn possible(session: SessionState, events: Seq<Happening>) -> bool
    decreases events.len(),
{
    events.len() == 0 || (possible(session, events.drop_last()) && session_after(
        session,
        events.drop_last(),
    ).accepts(events.last()))
}

/// The session after `events`, first to last.
pub open spec fn session_after(session: SessionState, events: Seq<Happening>) -> SessionState
    decreases events.len(),
{
    if events.len() == 0 {
        session
    } else {
        session_after(session, events.drop_last()).after(events.last())
    }
}

/// The entries that `events` record, oldest first.
pub open spec fn recordings(session: SessionState, events: Seq<Happening>) -> Seq<
    Map<Seq<char>, MeasurementEntryValue>,
>
    decreases events.len(),
{
    if events.len() == 0 {
        Seq::empty()
    } else {
        let before = recordings(session, events.drop_last());
        match events.last() {
            Happening::Recorded { now } => before.push(
                session_after(session, events.drop_last()).entry(now),
            ),
            _ => before,
        }
    }
}

} // verus!
