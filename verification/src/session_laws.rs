//! What calls on a session come to, by what goes in and what comes out.
use crate::entry::Readings;
use crate::handler_laws::same_settings;
use crate::measurement_handler::{Line, MeasurementHandler, Output};
use crate::session::{Happening, MeasurementSession, Phase, SessionEvent, SessionState};
use crate::timestamp::Timestamp;
use crate::value_laws::{is_entry_of, lemma_is_entry_of, nanos_between, whole_millis};
use vstd::prelude::*;

verus! {

/// The two states are of one session: of one function, start and interval.
pub open spec fn same_session(one: SessionState, other: SessionState) -> bool {
    &&& one.function == other.function
    &&& one.start_time == other.start_time
    &&& one.interval == other.interval
}

/// The two states hold the same samples.
pub open spec fn same_samples(one: SessionState, other: SessionState) -> bool {
    &&& one.previous_time == other.previous_time
    &&& one.results == other.results
    &&& one.previous_results == other.previous_results
}

/// A session can be had of a handler exactly where that handler measures a function. It is one of
/// that function, since the whole milliseconds of its first sample, which counts as the latest and
/// as the one before; and the header is to be written first. It can be asked for wherever the
/// sample is not from before the epoch.
pub proof fn law_session_is_of_the_measured_function(
    handler: MeasurementHandler,
    interval: u128,
    started: Timestamp,
    results: Readings,
    session: Option<MeasurementSession>,
)
    requires
        nanos_between(Timestamp { secs: 0, nanos: 0 }, started) >= 0,
    ensures
        call_requires(MeasurementSession::of, (&handler, interval, started, results)),
        call_ensures(MeasurementSession::of, (&handler, interval, started, results), session) ==> {
            &&& session is Some <==> handler@.measuring && handler@.function is Some
            &&& session matches Some(session) ==> {
                &&& handler@.function == Some(session@.function)
                &&& whole_millis(
                    nanos_between(Timestamp { secs: 0, nanos: 0 }, started),
                    session@.start_time as int,
                )
                &&& session@.interval == interval
                &&& session@.previous_time == started
                &&& session@.results == results@
                &&& session@.previous_results == results@
                &&& session@.phase is Header
            }
        },
{
}

/// A session answers questions by its state.
pub proof fn law_session_tells_its_state(
    session: MeasurementSession,
    phase: Phase,
    function: &String,
    start_time: u128,
    interval: u128,
    previous_time: Timestamp,
    results: &Readings,
    previous_results: &Readings,
)
    requires
        call_ensures(MeasurementSession::phase, (&session,), phase),
        call_ensures(MeasurementSession::function_name, (&session,), function),
        call_ensures(MeasurementSession::start_time, (&session,), start_time),
        call_ensures(MeasurementSession::interval, (&session,), interval),
        call_ensures(MeasurementSession::previous_time, (&session,), previous_time),
        call_ensures(MeasurementSession::results, (&session,), results),
        call_ensures(MeasurementSession::previous_results, (&session,), previous_results),
    ensures
        phase == session@.phase,
        function@ == session@.function,
        start_time == session@.start_time,
        interval == session@.interval,
        previous_time == session@.previous_time,
        results@ == session@.results,
        previous_results@ == session@.previous_results,
{
}

/// Once its header is written, a session looks for a stop signal; where there is none, it begins a
/// round; and when it has slept, it looks for a stop signal again. Its samples stay as they are.
pub proof fn law_session_goes_round(session: &mut MeasurementSession, event: SessionEvent)
    requires
        event is HeaderWritten || event is Tick || event is Slept,
        event is HeaderWritten ==> (*session)@.phase is Header,
        event is Tick ==> (*session)@.phase is Poll,
        event is Slept ==> (*session)@.phase is Sleep,
        call_ensures(MeasurementSession::step, (session, event), ()),
    ensures
        call_requires(MeasurementSession::step, (session, event)),
        event is Tick ==> final(session)@.phase is Report,
        event is HeaderWritten || event is Slept ==> final(session)@.phase is Poll,
        same_session(final(session)@, old(session)@),
        same_samples(final(session)@, old(session)@),
{
}

/// A session takes a stop signal wherever it waits: before a round, before it records, and while it
/// sleeps, however long. With readings at hand it goes on to a last row; without any it is at its
/// end. Its samples stay as they are.
pub proof fn law_stop_signal_turns_to_the_end(session: &mut MeasurementSession)
    requires
        (*session)@.phase is Poll || (*session)@.phase is Record || (*session)@.phase is Sleep,
        call_ensures(MeasurementSession::step, (session, SessionEvent::Stop), ()),
    ensures
        call_requires(MeasurementSession::step, (session, SessionEvent::Stop)),
        (exists|name: Seq<char>| #[trigger] old(session)@.results.contains_key(name))
            ==> final(session)@.phase is LastReport,
        (forall|name: Seq<char>| !#[trigger] old(session)@.results.contains_key(name))
            ==> final(session)@.phase == (Phase::Conclude { measured: false }),
        same_session(final(session)@, old(session)@),
        same_samples(final(session)@, old(session)@),
{
    if forall|name: Seq<char>| !#[trigger] (*session)@.results.contains_key(name) {
        assert((*session)@.results =~= Map::<Seq<char>, u64>::empty());
    }
}

/// After a row is written, its readings are to be recorded, as the summary left them; after the
/// last row, so are the last ones.
pub proof fn law_row_is_followed_by_its_entry(
    session: &mut MeasurementSession,
    previous_time: Timestamp,
    results: Readings,
    previous_results: Readings,
)
    requires
        (*session)@.phase is Report || (*session)@.phase is LastReport,
        call_ensures(
            MeasurementSession::step,
            (session, SessionEvent::Summarised { previous_time, results, previous_results }),
            (),
        ),
    ensures
        call_requires(
            MeasurementSession::step,
            (session, SessionEvent::Summarised { previous_time, results, previous_results }),
        ),
        old(session)@.phase is Report ==> final(session)@.phase is Record,
        old(session)@.phase is LastReport ==> final(session)@.phase is LastRecord,
        final(session)@.previous_time == previous_time,
        final(session)@.results == results@,
        final(session)@.previous_results == previous_results@,
        same_session(final(session)@, old(session)@),
{
}

/// A session sleeps out the rest of its interval: what a round took up to the end of its sample and
/// the sleep after it make up the interval, whatever the two are. The sample is the latest from
/// then on, with its time, and the one that was the latest is the one before. A sample is taken
/// wherever the round has not taken longer than the interval.
pub proof fn law_round_and_sleep_make_up_the_interval(
    session: &mut MeasurementSession,
    at: Timestamp,
    results: Readings,
    elapsed: u128,
)
    requires
        (*session)@.phase is Collect,
        elapsed <= (*session)@.interval,
        call_ensures(
            MeasurementSession::step,
            (session, SessionEvent::Collected { at, results, elapsed }),
            (),
        ),
    ensures
        call_requires(
            MeasurementSession::step,
            (session, SessionEvent::Collected { at, results, elapsed }),
        ),
        final(session)@.phase matches Phase::Sleep(nanos) && nanos + elapsed
            == old(session)@.interval,
        final(session)@.previous_time == at,
        final(session)@.results == results@,
        final(session)@.previous_results == old(session)@.results,
        same_session(final(session)@, old(session)@),
{
}

/// What is recorded is the entry of the sample before: its readings, the time the session has for
/// it, and the whole milliseconds from that time to `now`. It is added behind the entries that the
/// handler has, which otherwise stays as it is, and so do the samples of the session. A session
/// then takes its next sample, or is at its end after its last entry.
pub proof fn law_recorded_entry_is_that_of_the_sample_before(
    session: &mut MeasurementSession,
    handler: &mut MeasurementHandler,
    now: Timestamp,
)
    requires
        (*session)@.phase is Record || (*session)@.phase is LastRecord,
        nanos_between((*session)@.previous_time, now) >= 0,
        call_ensures(MeasurementSession::record, (session, handler, now), ()),
    ensures
        call_requires(MeasurementSession::record, (session, handler, now)),
        final(handler)@.results.len() == old(handler)@.results.len() + 1,
        forall|i: int|
            0 <= i < old(handler)@.results.len() ==> #[trigger] final(handler)@.results[i]
                == old(handler)@.results[i],
        is_entry_of(
            final(handler)@.results.last(),
            old(session)@.previous_time,
            now,
            old(session)@.previous_results,
        ),
        final(handler)@.measuring == old(handler)@.measuring,
        final(handler)@.function == old(handler)@.function,
        final(handler)@.tx == old(handler)@.tx,
        same_settings(final(handler)@, old(handler)@),
        old(session)@.phase is Record ==> final(session)@.phase is Collect,
        old(session)@.phase is LastRecord ==> final(session)@.phase == (Phase::Conclude {
            measured: true,
        }),
        same_session(final(session)@, old(session)@),
        same_samples(final(session)@, old(session)@),
{
    lemma_is_entry_of((*session)@.previous_time, now, (*session)@.previous_results);
}

/// The entry of every state of a session is that of its sample before: an entry has the time the
/// session has for that sample and the whole milliseconds since, not the time of recording.
pub proof fn law_entry_of_a_session_is_that_of_the_sample_before(
    session: SessionState,
    now: Timestamp,
)
    requires
        nanos_between(session.previous_time, now) >= 0,
    ensures
        is_entry_of(session.entry(now), session.previous_time, now, session.previous_results),
{
    lemma_is_entry_of(session.previous_time, now, session.previous_results);
}

/// A session that is at its end ends the measurement of its handler and changes nothing else about
/// it. It closes with one line on standard output exactly where it had readings, sums are kept and
/// the energy is above zero; the line has the energy, the time, the process and the function, in
/// that order.
pub proof fn law_conclusion_ends_the_measurement(
    session: MeasurementSession,
    handler: &mut MeasurementHandler,
    positive: bool,
    energy: &str,
    seconds: &str,
    line: Option<Line>,
)
    requires
        session@.phase is Conclude,
        call_ensures(
            MeasurementSession::conclude,
            (session, handler, positive, energy, seconds),
            line,
        ),
    ensures
        call_requires(MeasurementSession::conclude, (session, handler, positive, energy, seconds)),
        line is Some <==> session@.phase->measured && old(handler)@.summary && positive,
        line matches Some(line) ==> {
            &&& line.output == Output::Stdout
            &&& line.text@ == "Energy consumption in joules: "@ + energy@ + " for "@ + seconds@
                + " sec of execution for application "@ + old(handler)@.process_name
                + " with function "@ + session@.function + "."@
        },
        !final(handler)@.measuring,
        final(handler)@.function == old(handler)@.function,
        final(handler)@.results == old(handler)@.results,
        final(handler)@.tx == old(handler)@.tx,
        same_settings(final(handler)@, old(handler)@),
{
}

/// Every happening has its phases, and none can happen in another: no round takes longer than the
/// interval, and nothing is recorded before it was sampled.
pub proof fn law_happenings_have_their_phases(session: SessionState, event: Happening)
    ensures
        session.phase is Header && session.accepts(event) ==> event is HeaderWritten,
        session.phase is Poll && session.accepts(event) ==> event is Tick || event is Stop,
        session.phase is Report && session.accepts(event) ==> event is Summarised,
        session.phase is Record && session.accepts(event) ==> event is Recorded || event is Stop,
        session.phase is Collect && session.accepts(event) ==> event is Collected,
        session.phase is Sleep && session.accepts(event) ==> event is Slept || event is Stop,
        session.phase is LastReport && session.accepts(event) ==> event is Summarised,
        session.phase is LastRecord && session.accepts(event) ==> event is Recorded,
        !(session.phase is Conclude && session.accepts(event)),
        event matches Happening::Collected { elapsed, .. } ==> session.accepts(event) ==> elapsed
            <= session.interval,
        event matches Happening::Recorded { now } ==> session.accepts(event) ==> nanos_between(
            session.previous_time,
            now,
        ) >= 0,
{
}

/// A round of a session that is not told to stop comes back to where it began: it writes a row,
/// records the readings before, samples, and sleeps for what is left of the interval. The latest
/// readings of the summary are then those before, and the new sample is the latest.
pub proof fn law_round_comes_back(
    session: SessionState,
    summarised_time: Timestamp,
    summarised: Map<Seq<char>, u64>,
    summarised_before: Map<Seq<char>, u64>,
    now: Timestamp,
    at: Timestamp,
    results: Map<Seq<char>, u64>,
    elapsed: u128,
)
    requires
        session.phase is Poll,
        nanos_between(summarised_time, now) >= 0,
        elapsed <= session.interval,
    ensures
        ({
            let report = session.after(Happening::Tick);
            let row = Happening::Summarised {
                previous_time: summarised_time,
                results: summarised,
                previous_results: summarised_before,
            };
            let record = report.after(row);
            let collect = record.after((Happening::Recorded { now }));
            let sample = Happening::Collected { at, results, elapsed };
            let sleep = collect.after(sample);
            let end = sleep.after(Happening::Slept);
            &&& session.accepts(Happening::Tick)
            &&& report.accepts(row)
            &&& record.accepts((Happening::Recorded { now }))
            &&& is_entry_of(record.entry(now), summarised_time, now, summarised_before)
            &&& collect.accepts(sample)
            &&& sleep.phase matches Phase::Sleep(nanos)
            &&& nanos + elapsed == session.interval
            &&& sleep.accepts(Happening::Slept)
            &&& end.phase is Poll
            &&& same_session(end, session)
            &&& end.previous_time == at
            &&& end.results == results
            &&& end.previous_results == summarised
        }),
{
    lemma_is_entry_of(summarised_time, now, summarised_before);
}

/// A session can be asked about itself in every state.
pub proof fn law_session_can_always_be_asked(session: MeasurementSession)
    ensures
        call_requires(MeasurementSession::phase, (&session,)),
        call_requires(MeasurementSession::function_name, (&session,)),
        call_requires(MeasurementSession::start_time, (&session,)),
        call_requires(MeasurementSession::interval, (&session,)),
        call_requires(MeasurementSession::previous_time, (&session,)),
        call_requires(MeasurementSession::results, (&session,)),
        call_requires(MeasurementSession::previous_results, (&session,)),
{
}

} // verus!
