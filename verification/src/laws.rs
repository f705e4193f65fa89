//! What holds of a handler, its session, and the entries and requests they deal with.
use crate::connection::{next_id, routing, Route};
use crate::entry::{entry_map, MeasurementEntryValue};
use crate::error::Refusal;
use crate::measurement_handler::HandlerState;
use crate::server::{handler_for, stop_refusal, HandlerChoice};
use crate::session::{possible, recordings, run, session_after, Happening, Phase, SessionState};
use crate::timestamp::Timestamp;
use tokio::sync::mpsc::Sender;
use vstd::prelude::*;

verus! {

/// From the moment a session has begun until it has ended, no other one can be started while its
/// handler is at hand, whichever process it is for; the client is told which process is measured.
pub proof fn law_one_measurement_at_a_time(
    handler: HandlerState,
    function: Seq<char>,
    channel: Sender<()>,
    session: SessionState,
    events: Seq<Happening>,
    pid: u32,
)
    ensures
        handler_for(Some(run(handler.begun(function, channel), session, events).0), pid) == Err::<
            HandlerChoice,
            Refusal,
        >(Refusal::InProgress { pid: handler.pid }),
{
    lemma_run(handler.begun(function, channel), session, events);
}

/// Once a session has ended, the next one can be started: with the same handler for the same
/// process and with a new one for another.
pub proof fn law_next_measurement_after_the_end(handler: HandlerState, pid: u32)
    ensures
        handler_for(Some(handler.finished()), pid) == Ok::<HandlerChoice, Refusal>(
            if handler.pid == pid {
                HandlerChoice::Reuse
            } else {
                HandlerChoice::Create
            },
        ),
{
}

/// Every handler that is made, and whatever is done with it, can be told to stop while its session
/// runs: a running session has a function and a channel.
pub proof fn law_running_session_can_be_stopped(
    handler: HandlerState,
    function: Seq<char>,
    channel: Sender<()>,
    entry: Map<Seq<char>, MeasurementEntryValue>,
    taken: bool,
    pid: u32,
    output_path: Option<Seq<char>>,
    sep: Seq<char>,
    summary: bool,
    process_name: Seq<char>,
)
    ensures
        HandlerState::fresh(pid, output_path, sep, summary, process_name).wf(),
        handler.begun(function, channel).wf(),
        handler.wf() ==> handler.recorded(entry).wf(),
        handler.wf() ==> handler.told(taken).wf(),
        handler.finished().wf(),
        handler.wf() ==> handler.stop_refusal(function) != Some(Refusal::NoFunction),
{
}

/// From the moment a session has begun until it has ended, a stop is taken exactly for the function
/// and the process that are being measured.
pub proof fn law_stop_is_for_the_measured_function(
    handler: HandlerState,
    function: Seq<char>,
    channel: Sender<()>,
    session: SessionState,
    events: Seq<Happening>,
    pid: u32,
    asked: Seq<char>,
)
    ensures
        stop_refusal(
            Some(run(handler.begun(function, channel), session, events).0),
            pid,
            asked,
        ) is None <==> pid == handler.pid && asked == function,
{
    lemma_run(handler.begun(function, channel), session, events);
}

/// A second stop, after the session has ended, is refused.
pub proof fn law_stopped_is_stopped(handler: HandlerState, asked: Seq<char>)
    ensures
        stop_refusal(Some(handler.finished()), handler.pid, asked) == Some(
            Refusal::NotMeasuring { pid: handler.pid },
        ),
{
}

/// A session changes the results of its handler alone, and adds to them what it records.
proof fn lemma_run(handler: HandlerState, session: SessionState, events: Seq<Happening>)
    ensures
        run(handler, session, events).1 == session_after(session, events),
        run(handler, session, events).0 == (HandlerState {
            results: handler.results + recordings(session, events),
            ..handler
        }),
    decreases events.len(),
{
    if events.len() == 0 {
        assert(handler.results + recordings(session, events) =~= handler.results);
    } else {
        lemma_run(handler, session, events.drop_last());
        assert(run(handler, session, events).0.results =~= handler.results + recordings(
            session,
            events,
        ));
    }
}

/// What a client gets when its session has ended is what that session recorded, entry by entry and
/// in order, and nothing of the sessions before.
pub proof fn law_results_are_those_of_the_session(
    handler: HandlerState,
    function: Seq<char>,
    channel: Sender<()>,
    session: SessionState,
    events: Seq<Happening>,
)
    ensures
        ({
            let ended = run(handler.begun(function, channel), session, events).0.finished();
            &&& ended.results == recordings(session, events)
            &&& !ended.measuring
            &&& ended == (HandlerState {
                results: recordings(session, events),
                ..handler.begun(function, channel).finished()
            })
        }),
{
    lemma_run(handler.begun(function, channel), session, events);
    assert(Seq::empty() + recordings(session, events) =~= recordings(session, events));
}

/// A session keeps its function, its start and its interval, whatever happens.
pub proof fn law_session_keeps_its_identity(session: SessionState, events: Seq<Happening>)
    ensures
        session_after(session, events).function == session.function,
        session_after(session, events).start_time == session.start_time,
        session_after(session, events).interval == session.interval,
    decreases events.len(),
{
    if events.len() > 0 {
        law_session_keeps_its_identity(session, events.drop_last());
    }
}

/// The header line is written first, and once.
pub proof fn law_header_is_written_first_and_once(session: SessionState, events: Seq<Happening>)
    requires
        session.phase is Header,
        possible(session, events),
    ensures
        events.len() > 0 ==> events[0] is HeaderWritten,
        forall|i: int| 0 < i < events.len() ==> !(#[trigger] events[i] is HeaderWritten),
        events.len() > 0 ==> !(session_after(session, events).phase is Header),
    decreases events.len(),
{
    if events.len() > 0 {
        let before = events.drop_last();
        law_header_is_written_first_and_once(session, before);
        if before.len() == 0 {
            assert(session_after(session, before) == session);
        } else {
            assert(before[0] == events[0]);
        }
        assert forall|i: int| 0 < i < events.len() implies !(
        #[trigger] events[i] is HeaderWritten) by {
            if i < before.len() {
                assert(before[i] == events[i]);
            }
        }
    }
}

/// The header line and every row of a session go to one place: that of the function and the start
/// it began with.
pub proof fn law_header_and_rows_go_to_one_place(
    handler: HandlerState,
    session: SessionState,
    events: Seq<Happening>,
)
    ensures
        run(handler, session, events).0.output_file(
            run(handler, session, events).1.function,
            run(handler, session, events).1.start_time,
        ) == handler.output_file(session.function, session.start_time),
{
    lemma_run(handler, session, events);
    law_session_keeps_its_identity(session, events);
}

/// The rows that `events` write.
pub open spec fn rows(events: Seq<Happening>) -> nat
    decreases events.len(),
{
    if events.len() == 0 {
        0
    } else {
        rows(events.drop_last()) + (if events.last() is Summarised {
            1nat
        } else {
            0
        })
    }
}

/// Whether, somewhere in `events`, a stop signal comes between a row and its entry.
pub open spec fn cancels(session: SessionState, events: Seq<Happening>) -> bool
    decreases events.len(),
{
    events.len() > 0 && (cancels(session, events.drop_last()) || (events.last() is Stop
        && session_after(session, events.drop_last()).phase is Record))
}

/// Unless a stop signal came between a row and its entry, a session has written as many rows as it
/// has recorded entries, but for a row whose entry is due next; at its end the two are equal in
/// number, and that is how many results its handler holds.
pub proof fn law_as_many_rows_as_entries(
    handler: HandlerState,
    function: Seq<char>,
    channel: Sender<()>,
    session: SessionState,
    events: Seq<Happening>,
)
    requires
        session.phase is Header,
        possible(session, events),
        !cancels(session, events),
    ensures
        ({
            let phase = session_after(session, events).phase;
            let due = phase is Record || phase is LastRecord;
            let results = run(handler.begun(function, channel), session, events).0.results;
            &&& rows(events) == recordings(session, events).len() + (if due {
                1nat
            } else {
                0
            })
            &&& phase is Conclude ==> rows(events) == results.len()
        }),
    decreases events.len(),
{
    law_results_are_those_of_the_session(handler, function, channel, session, events);
    if events.len() > 0 {
        law_as_many_rows_as_entries(handler, function, channel, session, events.drop_last());
    }
}

/// The steps that a session has left once it was told to stop, if it was.
pub open spec fn steps_left(phase: Phase) -> Option<nat> {
    match phase {
        Phase::LastReport => Some(2),
        Phase::LastRecord => Some(1),
        Phase::Conclude { .. } => Some(0),
        _ => None,
    }
}

/// A session that was not told to stop yet is never far from hearing it: it takes a stop signal now
/// or after whatever happens next.
pub proof fn law_stop_is_soon_heard(session: SessionState, event: Happening)
    requires
        steps_left(session.phase) is None,
        session.accepts(event),
    ensures
        session.accepts(Happening::Stop) || session.after(event).accepts(Happening::Stop),
{
}

/// A session that hears no stop signal does not end.
pub proof fn law_no_end_without_a_stop(session: SessionState, events: Seq<Happening>)
    requires
        steps_left(session.phase) is None,
        possible(session, events),
        forall|i: int| 0 <= i < events.len() ==> !(#[trigger] events[i] is Stop),
    ensures
        steps_left(session_after(session, events).phase) is None,
        !(session_after(session, events).phase is Conclude),
    decreases events.len(),
{
    if events.len() > 0 {
        let before = events.drop_last();
        assert forall|i: int| 0 <= i < before.len() implies !(#[trigger] before[i] is Stop) by {
            assert(before[i] == events[i]);
        }
        law_no_end_without_a_stop(session, before);
        assert(!(events[events.len() - 1] is Stop));
    }
}

/// A session that is told to stop stops: whatever then happens, it takes no further sample and no
/// sleep, and is at its end after two more steps.
pub proof fn law_stop_ends_the_session(session: SessionState, events: Seq<Happening>)
    requires
        session.accepts(Happening::Stop),
        possible(session.after(Happening::Stop), events),
    ensures
        events.len() <= 2,
        steps_left(session_after(session.after(Happening::Stop), events).phase) is Some,
        events.len() + steps_left(
            session_after(session.after(Happening::Stop), events).phase,
        )->Some_0 == steps_left(session.after(Happening::Stop).phase)->Some_0,
    decreases events.len(),
{
    if events.len() > 0 {
        law_stop_ends_the_session(session, events.drop_last());
    }
}

/// A session with readings records them once more after it was told to stop; one without readings
/// ends at once. Either way it is at its end exactly when nothing more can happen.
pub proof fn law_last_readings_are_recorded(session: SessionState, events: Seq<Happening>)
    requires
        session.accepts(Happening::Stop),
        possible(session.after(Happening::Stop), events),
        session_after(session.after(Happening::Stop), events).phase is Conclude,
    ensures
        session.results == Map::<Seq<char>, u64>::empty() ==> events.len() == 0,
        session.results != Map::<Seq<char>, u64>::empty() ==> {
            &&& events.len() == 2
            &&& events[0] is Summarised
            &&& events[1] is Recorded
            &&& recordings(session.after(Happening::Stop), events).len() == 1
        },
        session_after(session.after(Happening::Stop), events).phase == (Phase::Conclude {
            measured: session.results != Map::<Seq<char>, u64>::empty(),
        }),
{
    law_stop_ends_the_session(session, events);
    if session.results != Map::<Seq<char>, u64>::empty() {
        reveal_with_fuel(possible, 3);
        reveal_with_fuel(session_after, 3);
        reveal_with_fuel(recordings, 3);
        assert(events.drop_last().last() == events[0]);
    }
}

/// A session closes with a line that sums up its energy exactly where it had readings when it was
/// told to stop, sums are kept, and the energy is above zero. One that was stopped without readings
/// writes no further row, records no further entry and closes with no line.
pub proof fn law_energy_line_needs_readings(
    handler: HandlerState,
    session: SessionState,
    events: Seq<Happening>,
    positive: bool,
)
    requires
        session.accepts(Happening::Stop),
        possible(session.after(Happening::Stop), events),
        session_after(session.after(Happening::Stop), events).phase is Conclude,
    ensures
        ({
            let stopped = session.after(Happening::Stop);
            let read = session.results != Map::<Seq<char>, u64>::empty();
            let ended = run(handler, stopped, events);
            &&& ended.1.sums_up(ended.0, positive) <==> read && handler.summary && positive
            &&& !read ==> rows(events) == 0 && ended.0 == handler
        }),
{
    law_last_readings_are_recorded(session, events);
    lemma_run(handler, session.after(Happening::Stop), events);
}

/// An entry has every reading of its sample under the name of the reading, the time of the sample
/// and the delay unless a reading goes by their name, and nothing else.
pub proof fn law_entry_holds_the_sample(
    time: Timestamp,
    delta: u128,
    readings: Map<Seq<char>, u64>,
    name: Seq<char>,
)
    ensures
        entry_map(time, delta, readings).contains_key(name) <==> readings.contains_key(name) || name
            == "TIME"@ || name == "DELTA"@,
        readings.contains_key(name) ==> entry_map(time, delta, readings)[name]
            == MeasurementEntryValue::Measurement(readings[name]),
        !readings.contains_key("TIME"@) ==> entry_map(time, delta, readings)["TIME"@]
            == MeasurementEntryValue::Time(time),
        !readings.contains_key("DELTA"@) ==> entry_map(time, delta, readings)["DELTA"@]
            == MeasurementEntryValue::Delta(delta),
{
    reveal_strlit("TIME");
    reveal_strlit("DELTA");
    assert("TIME"@.len() != "DELTA"@.len());
}

/// The number that comes up after `served` requests have been served.
pub open spec fn id_after(served: nat) -> u32 {
    (served % 0x1_0000_0000) as u32
}

/// Requests are numbered in the order in which they are served, modulo two to the thirty-second; a
/// request that is not served takes no number.
pub proof fn law_served_requests_are_numbered<P>(permit: Option<P>, upgrade: bool, served: nat)
    ensures
        match routing(permit, upgrade, id_after(served)) {
            (Route::Serve { conn_id, .. }, next) => conn_id == id_after(served) && next == id_after(
                served + 1,
            ),
            (_, next) => next == id_after(served),
        },
{
    assert(next_id(id_after(served)) == id_after(served + 1)) by {
        assert((served + 1) % 0x1_0000_0000 == if served % 0x1_0000_0000 == 0xffff_ffff {
            0
        } else {
            served % 0x1_0000_0000 + 1
        });
    }
}

} // verus!
