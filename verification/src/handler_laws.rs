//! What calls on a handler come to, by what goes in and what comes out.
use crate::entry::{MeasurementEntryValue, Measurements, Readings};
use crate::error::ServiceError;
use crate::measurement_handler::{
    process_display_name, stop_signal, HandlerState, Line, MeasurementHandler, Output, ProcessInfo,
    StopSignal,
};
use crate::stop_channel::{stop_channel, StopSender};
use crate::text::{decimal, frames_number, lemma_frames_number};
use crate::timestamp::Timestamp;
use crate::value_laws::{is_entry_of, lemma_is_entry_of, nanos_between};
use tokio::sync::mpsc::error::TrySendError;
use tokio::sync::mpsc::{channel, Receiver};
use vstd::prelude::*;

verus! {

/// The two states are of one process, measured under one name, with the same settings.
pub open spec fn same_settings(one: HandlerState, other: HandlerState) -> bool {
    &&& one.pid == other.pid
    &&& one.output_path == other.output_path
    &&& one.sep == other.sep
    &&& one.process_name == other.process_name
    &&& one.summary == other.summary
}

/// `output` is the file of a session of `function` started at `start_time` where there is a path
/// for such files, and standard output where there is none.
pub open spec fn goes_to(
    path: Option<Seq<char>>,
    function: Seq<char>,
    start_time: u128,
    output: Output,
) -> bool {
    match output {
        Output::File(file) => path is Some && file@ == path->Some_0 + "_"@ + function + "_"@
            + decimal(start_time as nat),
        Output::Stdout => path is None,
    }
}

/// A process goes by the name of its executable; where that is not known, by its own name; and a
/// process that is not known at all goes by a stand-in.
pub proof fn law_name_of_a_process(process: Option<ProcessInfo>, name: String)
    requires
        call_ensures(process_display_name, (process,), name),
    ensures
        process is None ==> name@ == "UNKNOWN_PROCESS_NAME"@,
        process is Some && process->Some_0.executable is None ==> name@ == process->Some_0.name@,
        process is Some && process->Some_0.executable is Some ==> name@
            == process->Some_0.executable->Some_0@,
{
}

/// A new handler is one of the process it was made for, keeps the settings it was made with, and
/// has measured nothing. Its path begins with the given one and ends with the name of the process,
/// and it has a path exactly where one was given.
pub proof fn law_new_handler(
    pid: u32,
    output_path: Option<String>,
    sep: String,
    summary: bool,
    process: Option<ProcessInfo>,
    name: String,
    handler: MeasurementHandler,
)
    requires
        call_ensures(MeasurementHandler::new, (pid, &output_path, &sep, summary, process), handler),
        call_ensures(process_display_name, (process,), name),
    ensures
        handler@.pid == pid,
        handler@.sep == sep@,
        handler@.summary == summary,
        handler@.process_name == name@,
        output_path is None ==> handler@.output_path is None,
        output_path is Some ==> handler@.output_path == Some(
            output_path->Some_0@ + "_"@ + name@,
        ),
        !handler@.measuring,
        handler@.function is None,
        handler@.tx is None,
        handler@.results.len() == 0,
{
}

/// A handler answers questions by its state.
pub proof fn law_handler_tells_its_state(
    handler: MeasurementHandler,
    pid: u32,
    measuring: bool,
    function: Option<&String>,
    sep: &String,
    summary: bool,
)
    requires
        call_ensures(MeasurementHandler::pid, (&handler,), pid),
        call_ensures(MeasurementHandler::is_currently_measuring, (&handler,), measuring),
        call_ensures(MeasurementHandler::current_fn_measured, (&handler,), function),
        call_ensures(MeasurementHandler::sep, (&handler,), sep),
        call_ensures(MeasurementHandler::summary, (&handler,), summary),
    ensures
        pid == handler@.pid,
        measuring == handler@.measuring,
        function is Some <==> handler@.function is Some,
        function is Some ==> handler@.function == Some(function->Some_0@),
        sep@ == handler@.sep,
        summary == handler@.summary,
{
}

/// The two ends that a session and its handler share are those of one channel for a single message,
/// over which nothing was sent yet.
pub proof fn law_new_stop_channel(halves: (StopSender, Receiver<()>))
    requires
        call_ensures(stop_channel, (), halves),
    ensures
        call_ensures(channel::<()>, (1usize,), (halves.0@.channel, halves.1)),
        halves.0@.outcomes.len() == 0,
{
}

/// A session begins exactly where none is running. From then on the handler measures the function
/// asked for, whatever it measured before, with no results yet and over an unused channel whose
/// other end is the one returned; nothing else changes. Where a session is running, nothing changes
/// at all, and the complaint ends with the number of the process and a full stop.
pub proof fn law_begin_measures_the_function_asked_for(
    handler: &mut MeasurementHandler,
    function: String,
    begun: Result<Receiver<()>, String>,
)
    requires
        call_ensures(MeasurementHandler::begin_measurement, (handler, function), begun),
    ensures
        begun is Ok <==> !old(handler)@.measuring,
        begun is Ok ==> {
            &&& final(handler)@.measuring
            &&& final(handler)@.function == Some(function@)
            &&& final(handler)@.results.len() == 0
            &&& final(handler)@.tx is Some
            &&& final(handler)@.tx->Some_0.outcomes.len() == 0
            &&& call_ensures(
                channel::<()>,
                (1usize,),
                (final(handler)@.tx->Some_0.channel, begun->Ok_0),
            )
            &&& same_settings(final(handler)@, old(handler)@)
        },
        begun matches Err(message) ==> {
            &&& final(handler)@ == old(handler)@
            &&& frames_number(
                message@,
                "A measurement session is already ongoing for pid: "@,
                old(handler)@.pid as int,
                "."@,
            )
        },
{
    lemma_frames_number(
        "A measurement session is already ongoing for pid: "@,
        (*handler)@.pid as nat,
        "."@,
    );
}

/// Recording adds one entry behind those that are there: that of the readings, the time of their
/// sample and the time since. Nothing else changes. It is possible wherever the readings are not
/// recorded before they were sampled.
pub proof fn law_recording_adds_the_entry_of_the_sample(
    handler: &mut MeasurementHandler,
    sampled: Timestamp,
    now: Timestamp,
    readings: Readings,
)
    requires
        nanos_between(sampled, now) >= 0,
        call_ensures(
            MeasurementHandler::process_last_measurement,
            (handler, sampled, now, &readings),
            (),
        ),
    ensures
        call_requires(
            MeasurementHandler::process_last_measurement,
            (handler, sampled, now, &readings),
        ),
        final(handler)@.results.len() == old(handler)@.results.len() + 1,
        forall|i: int|
            0 <= i < old(handler)@.results.len() ==> #[trigger] final(handler)@.results[i]
                == old(handler)@.results[i],
        is_entry_of(final(handler)@.results.last(), sampled, now, readings@),
        final(handler)@.measuring == old(handler)@.measuring,
        final(handler)@.function == old(handler)@.function,
        final(handler)@.tx == old(handler)@.tx,
        same_settings(final(handler)@, old(handler)@),
{
    lemma_is_entry_of(sampled, now, readings@);
}

/// The error is the one that a stop for `function` gets from a handler in that state. Where nothing
/// is measured, it names the process; where something else is measured, it names that.
pub open spec fn is_refused_with(
    handler: HandlerState,
    function: Seq<char>,
    error: ServiceError,
) -> bool {
    match error {
        ServiceError::NotMeasuring { pid } => !handler.measuring && pid == handler.pid,
        ServiceError::OtherFunction { function: measured } => handler.measuring && measured@
            != function && handler.function == Some(measured@),
        ServiceError::NoFunction => handler.measuring && handler.function is None,
        _ => false,
    }
}

/// A stop is possible exactly for the function that is being measured, and otherwise it is said why
/// not.
pub proof fn law_stop_is_checked(
    handler: MeasurementHandler,
    function: String,
    checked: Result<(), ServiceError>,
)
    requires
        call_ensures(MeasurementHandler::check_stop, (&handler, &function), checked),
    ensures
        checked is Ok <==> handler@.measuring && handler@.function == Some(function@),
        checked matches Err(error) ==> is_refused_with(handler@, function@, error),
{
}

/// A signal that the channel took is on its way, and any other one has failed.
pub proof fn law_signal_fares_as_it_was_sent(
    sent: Result<(), TrySendError<()>>,
    signal: StopSignal,
)
    requires
        call_ensures(stop_signal, (sent,), signal),
    ensures
        signal == StopSignal::Sent <==> sent is Ok,
        signal == StopSignal::Failed <==> sent is Err,
{
}

/// A stop is taken exactly for the function that is being measured, whatever has been recorded. One
/// that is taken sends one signal over the channel of the session, if it has one, and reports how
/// that signal fared; the signals before stay as they fared. One that is refused sends nothing. A
/// stop changes nothing else.
pub proof fn law_taken_stop_sends_one_signal(
    handler: &mut MeasurementHandler,
    function: String,
    stopped: Result<StopSignal, ServiceError>,
)
    requires
        call_ensures(MeasurementHandler::stop_measurement, (handler, &function), stopped),
    ensures
        stopped is Ok <==> old(handler)@.measuring && old(handler)@.function == Some(function@),
        stopped is Ok && old(handler)@.tx is Some ==> {
            let before = old(handler)@.tx->Some_0;
            &&& stopped->Ok_0 != StopSignal::NoSender
            &&& final(handler)@.tx is Some
            &&& final(handler)@.tx->Some_0.channel == before.channel
            &&& final(handler)@.tx->Some_0.outcomes.len() == before.outcomes.len() + 1
            &&& final(handler)@.tx->Some_0.outcomes.drop_last() == before.outcomes
            &&& final(handler)@.tx->Some_0.outcomes.last() <==> stopped->Ok_0 == StopSignal::Sent
        },
        stopped is Ok && old(handler)@.tx is None ==> stopped->Ok_0 == StopSignal::NoSender
            && final(handler)@.tx is None,
        stopped matches Err(error) ==> is_refused_with(old(handler)@, function@, error)
            && final(handler)@.tx == old(handler)@.tx,
        final(handler)@.measuring == old(handler)@.measuring,
        final(handler)@.function == old(handler)@.function,
        final(handler)@.results == old(handler)@.results,
        same_settings(final(handler)@, old(handler)@),
{
    if (*handler)@.tx is Some {
        let before = (*handler)@.tx->Some_0.outcomes;
        assert(before.push(true).drop_last() =~= before);
        assert(before.push(false).drop_last() =~= before);
    }
}

/// The results are there exactly where no session runs: every entry that was recorded, in order.
pub proof fn law_results_are_all_that_was_recorded(
    handler: MeasurementHandler,
    results: Option<Measurements>,
)
    requires
        call_ensures(MeasurementHandler::results_once_stopped, (&handler,), results),
    ensures
        results is Some <==> !handler@.measuring,
        results matches Some(entries) ==> {
            &&& entries@.len() == handler@.results.len()
            &&& forall|i: int|
                0 <= i < entries@.len() ==> (#[trigger] entries@[i])@ == handler@.results[i]
        },
{
    if let Some(entries) = results {
        assert forall|i: int| 0 <= i < entries@.len() implies (#[trigger] entries@[i])@
            == handler@.results[i] by {
            assert(handler@.results[i] == entries@[i]@);
        }
    }
}

/// The header and the rows of a session go to one place, in every state of the handler: the file
/// of its function and its start where there is a path, and standard output where there is none.
pub proof fn law_output_is_a_file_where_there_is_a_path(
    handler: MeasurementHandler,
    function: String,
    start_time: u128,
    output: Output,
    header: Line,
    row: Line,
)
    requires
        call_ensures(MeasurementHandler::get_output, (&handler, &function, start_time), output),
        call_ensures(MeasurementHandler::print_header, (&handler, &function, start_time), header),
        call_ensures(MeasurementHandler::print_results, (&handler, &function, start_time), row),
    ensures
        goes_to(handler@.output_path, function@, start_time, output),
        goes_to(handler@.output_path, function@, start_time, header.output),
        goes_to(handler@.output_path, function@, start_time, row.output),
{
}

/// The text is two columns, each followed by the separator.
pub open spec fn two_columns(
    text: Seq<char>,
    first: Seq<char>,
    second: Seq<char>,
    sep: Seq<char>,
) -> bool {
    text == first + sep + second + sep
}

/// The header begins with two headings and a row with the values under them, each followed by the
/// separator: what is measured is named by its process and its function.
pub proof fn law_row_fits_the_header(
    handler: MeasurementHandler,
    function: String,
    start_time: u128,
    header: Line,
    row: Line,
)
    requires
        call_ensures(MeasurementHandler::print_header, (&handler, &function, start_time), header),
        call_ensures(MeasurementHandler::print_results, (&handler, &function, start_time), row),
    ensures
        two_columns(header.text@, "Application"@, "Function"@, handler@.sep),
        two_columns(row.text@, handler@.process_name, function@, handler@.sep),
{
}

/// What can be done with a handler once: begin a session where none runs, record an entry, tell the
/// session to stop, or end it.
pub open spec fn one_change(before: HandlerState, after: HandlerState) -> bool {
    ||| !before.measuring && exists|function: Seq<char>, receiver: Receiver<()>| #[trigger]
        before.begins(function, receiver, after)
    ||| exists|entry: Map<Seq<char>, MeasurementEntryValue>| after == #[trigger] before.recorded(
        entry,
    )
    ||| exists|signal: StopSignal| #[trigger] before.stops(signal, after)
    ||| after == before.finished()
}

/// Whatever is done with a handler, it stays the one of its process, and its files stay named by
/// the path it was made with and the name of its process; it writes to standard output exactly
/// where it was made without a path. While a session runs, the handler has a function and a
/// channel, so that the session can be told to stop.
pub proof fn law_handler_keeps_its_settings(
    made: MeasurementHandler,
    pid: u32,
    output_path: Option<String>,
    sep: String,
    summary: bool,
    process: Option<ProcessInfo>,
    name: String,
    states: Seq<HandlerState>,
    handler: MeasurementHandler,
    function: String,
    start_time: u128,
    output: Output,
)
    requires
        call_ensures(MeasurementHandler::new, (pid, &output_path, &sep, summary, process), made),
        call_ensures(process_display_name, (process,), name),
        states.len() > 0,
        states[0] == made@,
        forall|i: int|
            0 <= i < states.len() - 1 ==> one_change(#[trigger] states[i], states[i + 1]),
        handler@ == states.last(),
        call_ensures(MeasurementHandler::get_output, (&handler, &function, start_time), output),
    ensures
        same_settings(handler@, made@),
        handler@.measuring ==> handler@.function is Some && handler@.tx is Some,
        match output_path {
            Some(path) => output matches Output::File(file) && file@ == path@ + "_"@ + name@ + "_"@
                + function@ + "_"@ + decimal(start_time as nat),
            None => output == Output::Stdout,
        },
{
    lemma_history(states);
}

/// Along a history, the settings stay, and a running session has a function and a channel where it
/// had so at the start.
proof fn lemma_history(states: Seq<HandlerState>)
    requires
        states.len() > 0,
        states[0].measuring ==> states[0].function is Some && states[0].tx is Some,
        forall|i: int|
            0 <= i < states.len() - 1 ==> one_change(#[trigger] states[i], states[i + 1]),
    ensures
        same_settings(states.last(), states[0]),
        states.last().measuring ==> states.last().function is Some && states.last().tx is Some,
    decreases states.len(),
{
    if states.len() > 1 {
        let front = states.drop_last();
        assert forall|i: int| 0 <= i < front.len() - 1 implies one_change(
            #[trigger] front[i],
            front[i + 1],
        ) by {
            assert(front[i] == states[i] && front[i + 1] == states[i + 1]);
        }
        lemma_history(front);
        assert(one_change(states[states.len() - 2], states[states.len() - 2 + 1]));
    }
}

/// Every state in which a session has begun is one that measures the function asked for, whatever
/// was measured before, with no results, over an unused channel whose other end is the one that the
/// session holds; and otherwise it is the state before.
pub proof fn law_begun_state_measures_the_function(
    before: HandlerState,
    function: Seq<char>,
    receiver: Receiver<()>,
    begun: HandlerState,
    asked: Seq<char>,
)
    requires
        before.begins(function, receiver, begun),
    ensures
        begun.measuring,
        begun.function == Some(function),
        begun.results.len() == 0,
        begun.tx is Some,
        begun.tx->Some_0.outcomes.len() == 0,
        call_ensures(channel::<()>, (1usize,), (begun.tx->Some_0.channel, receiver)),
        begun == before.begun(function, begun.tx->Some_0.channel),
        same_settings(begun, before),
        begun.stop_refusal(asked) is None <==> asked == function,
{
}

/// Every state to which a stop can lead is one with one more signal on the same channel, and that
/// signal fared as it is reported; where there is a channel, there is somebody to send it to,
/// whatever has been recorded.
pub proof fn law_stopped_state_has_one_more_signal(
    before: HandlerState,
    signal: StopSignal,
    stopped: HandlerState,
)
    requires
        before.tx is Some,
        before.stops(signal, stopped),
    ensures
        signal != StopSignal::NoSender,
        stopped == before.told(signal == StopSignal::Sent),
        stopped.tx is Some,
        stopped.tx->Some_0.channel == before.tx->Some_0.channel,
        stopped.tx->Some_0.outcomes.len() == before.tx->Some_0.outcomes.len() + 1,
        stopped.tx->Some_0.outcomes.drop_last() == before.tx->Some_0.outcomes,
        stopped.tx->Some_0.outcomes.last() <==> signal == StopSignal::Sent,
        stopped.measuring == before.measuring,
        stopped.function == before.function,
        stopped.results == before.results,
        same_settings(stopped, before),
{
    let outcomes = before.tx->Some_0.outcomes;
    assert(outcomes.push(true).drop_last() =~= outcomes);
    assert(outcomes.push(false).drop_last() =~= outcomes);
}

/// A session that has begun is stopped by a stop for its function and by no other, however much it
/// has recorded since: the first such stop is the first signal on its channel.
pub proof fn law_begun_session_is_stopped_by_its_function(
    handler: &mut MeasurementHandler,
    function: String,
    receiver: Receiver<()>,
    later: &mut MeasurementHandler,
    asked: String,
    stopped: Result<StopSignal, ServiceError>,
)
    requires
        call_ensures(
            MeasurementHandler::begin_measurement,
            (handler, function),
            Ok::<Receiver<()>, String>(receiver),
        ),
        (*later)@.measuring == final(handler)@.measuring,
        (*later)@.function == final(handler)@.function,
        (*later)@.tx == final(handler)@.tx,
        call_ensures(MeasurementHandler::stop_measurement, (later, &asked), stopped),
    ensures
        stopped is Ok <==> asked@ == function@,
        stopped is Ok ==> {
            &&& stopped->Ok_0 != StopSignal::NoSender
            &&& final(later)@.tx is Some
            &&& final(later)@.tx->Some_0.outcomes =~= seq![stopped->Ok_0 == StopSignal::Sent]
            &&& call_ensures(
                channel::<()>,
                (1usize,),
                (final(later)@.tx->Some_0.channel, receiver),
            )
        },
        stopped matches Err(error) ==> {
            &&& error matches ServiceError::OtherFunction { function: measured }
            &&& measured@ == function@
        },
{
}

/// A handler can be made of anything, and can be asked and told anything in every state; only to
/// record takes readings that were sampled before.
pub proof fn law_handler_can_always_be_called(
    handler: &mut MeasurementHandler,
    asked: MeasurementHandler,
    pid: u32,
    output_path: Option<String>,
    sep: String,
    summary: bool,
    process: Option<ProcessInfo>,
    function: String,
    start_time: u128,
    sent: Result<(), TrySendError<()>>,
)
    ensures
        call_requires(process_display_name, (process,)),
        call_requires(stop_signal, (sent,)),
        call_requires(stop_channel, ()),
        call_requires(MeasurementHandler::new, (pid, &output_path, &sep, summary, process)),
        call_requires(MeasurementHandler::pid, (&asked,)),
        call_requires(MeasurementHandler::is_currently_measuring, (&asked,)),
        call_requires(MeasurementHandler::current_fn_measured, (&asked,)),
        call_requires(MeasurementHandler::sep, (&asked,)),
        call_requires(MeasurementHandler::summary, (&asked,)),
        call_requires(MeasurementHandler::begin_measurement, (handler, function)),
        call_requires(MeasurementHandler::check_stop, (&asked, &function)),
        call_requires(MeasurementHandler::stop_measurement, (handler, &function)),
        call_requires(MeasurementHandler::results_once_stopped, (&asked,)),
        call_requires(MeasurementHandler::get_output, (&asked, &function, start_time)),
        call_requires(MeasurementHandler::print_header, (&asked, &function, start_time)),
        call_requires(MeasurementHandler::print_results, (&asked, &function, start_time)),
{
}

} // verus!
