//! What calls on the server come to, by what goes in and what comes out.
use crate::error::ServiceError;
use crate::handler_laws::{is_refused_with, same_settings};
use crate::measurement_handler::{
    process_display_name, HandlerState, MeasurementHandler, ProcessInfo, StopSignal,
};
use crate::server::{
    session_result, HandlerChoice, Launch, MeasurementRpcServer, ServerState, Start, Vacancy,
};
use vstd::prelude::*;

verus! {

/// The two states have the same settings.
pub open spec fn same_server<H>(one: ServerState<H>, other: ServerState<H>) -> bool {
    &&& one.collect_gpu == other.collect_gpu
    &&& one.interval == other.interval
    &&& one.sep == other.sep
    &&& one.output_path == other.output_path
    &&& one.summary == other.summary
}

/// The handler is one of process `pid`, which goes by `name`, has the settings of the server, and
/// has measured nothing.
pub open spec fn is_new_handler<H>(
    handler: HandlerState,
    server: ServerState<H>,
    pid: u32,
    name: Seq<char>,
) -> bool {
    &&& handler.pid == pid
    &&& handler.process_name == name
    &&& handler.sep == server.sep
    &&& handler.summary == server.summary
    &&& match server.output_path {
        Some(path) => handler.output_path == Some(path + "_"@ + name),
        None => handler.output_path is None,
    }
    &&& !handler.measuring
    &&& handler.function is None
    &&& handler.tx is None
    &&& handler.results.len() == 0
}

/// The session to launch is one of the function, under the settings of the server, and the client
/// is told that it starts.
pub open spec fn launches<H>(launch: Launch, server: ServerState<H>, function: Seq<char>) -> bool {
    &&& launch.reply
    &&& launch.function_name@ == function
    &&& launch.collect_gpu == server.collect_gpu
    &&& launch.interval == server.interval
}

/// A new server keeps the settings it was made with, and has no handler at hand.
pub proof fn law_new_server<H>(
    collect_gpu: bool,
    interval: u128,
    sep: &str,
    output_path: Option<String>,
    summary: bool,
    server: MeasurementRpcServer<H>,
    handler: Option<&H>,
)
    requires
        call_ensures(
            MeasurementRpcServer::<H>::new,
            (collect_gpu, interval, sep, output_path, summary),
            server,
        ),
        call_ensures(MeasurementRpcServer::<H>::measurement_handler, (&server,), handler),
    ensures
        server@.collect_gpu == collect_gpu,
        server@.interval == interval,
        server@.sep == sep@,
        server@.summary == summary,
        output_path is None ==> server@.output_path is None,
        output_path is Some ==> server@.output_path == Some(output_path->Some_0@),
        server@.handler is None,
        handler is None,
{
}

/// A server tells which handler is at hand.
pub proof fn law_handler_at_hand<H>(server: MeasurementRpcServer<H>, handler: Option<&H>)
    requires
        call_ensures(MeasurementRpcServer::<H>::measurement_handler, (&server,), handler),
    ensures
        handler is Some <==> server@.handler is Some,
        handler is Some ==> server@.handler == Some(*handler->Some_0),
{
}

/// A handler that a server makes has the settings of that server, whichever process it is for.
pub proof fn law_handler_has_the_settings_of_the_server<H>(
    server: MeasurementRpcServer<H>,
    pid: u32,
    process: Option<ProcessInfo>,
    name: String,
    handler: MeasurementHandler,
)
    requires
        call_ensures(process_display_name, (process,), name),
        call_ensures(
            MeasurementRpcServer::<H>::create_handler,
            (&server, pid, process),
            handler,
        ),
    ensures
        is_new_handler(handler@, server@, pid, name@),
{
}

/// The handler at hand measures again exactly where it is idle and of the process asked for; where
/// it is idle and of another process, or there is none, a new one is made; and where it measures,
/// whatever is asked for is refused with the process that it measures.
pub proof fn law_idle_handler_of_the_process_is_reused<H>(
    server: MeasurementRpcServer<H>,
    pid: u32,
    existing: Option<&MeasurementHandler>,
    chosen: Result<HandlerChoice, ServiceError>,
)
    requires
        call_ensures(MeasurementRpcServer::<H>::get_handler, (&server, pid, existing), chosen),
    ensures
        chosen is Err <==> existing is Some && existing->Some_0@.measuring,
        chosen matches Err(error) ==> {
            &&& error matches ServiceError::InProgress { pid: measured }
            &&& measured == existing->Some_0@.pid
        },
        chosen == Ok::<HandlerChoice, ServiceError>(HandlerChoice::Reuse) <==> existing is Some
            && !existing->Some_0@.measuring && existing->Some_0@.pid == pid,
        chosen == Ok::<HandlerChoice, ServiceError>(HandlerChoice::Create) <==> existing is None
            || (!existing->Some_0@.measuring && existing->Some_0@.pid != pid),
{
}

/// A start is refused exactly while the handler at hand measures, with the process that it
/// measures. Where that handler is idle and of the process asked for, the session is launched, of
/// the function asked for. Otherwise a new handler is needed, for that process and function, in
/// place of the one at hand.
pub proof fn law_start_is_taken_unless_a_session_runs<H>(
    server: MeasurementRpcServer<H>,
    pid: u32,
    function: String,
    existing: Option<&MeasurementHandler>,
    started: Result<Start<H>, ServiceError>,
)
    requires
        existing is Some <==> server@.handler is Some,
        call_ensures(
            MeasurementRpcServer::<H>::start_measurements,
            (&server, pid, function, existing),
            started,
        ),
    ensures
        call_requires(
            MeasurementRpcServer::<H>::start_measurements,
            (&server, pid, function, existing),
        ),
        started is Err <==> existing is Some && existing->Some_0@.measuring,
        started matches Err(error) ==> {
            &&& error matches ServiceError::InProgress { pid: measured }
            &&& measured == existing->Some_0@.pid
        },
        started is Ok ==> (started->Ok_0 is Launch <==> existing is Some && existing->Some_0@.pid
            == pid),
        started matches Ok(Start::Launch(launch)) ==> launches(launch, server@, function@),
        started matches Ok(Start::NeedsHandler(vacancy)) ==> {
            &&& vacancy.process() == pid
            &&& vacancy.function() == function@
            &&& vacancy.replaced() == server@.handler
        },
{
}

/// A new handler is put at hand for the process that a start needs it for, what `share` makes of
/// it, and the session of the function of that start is launched. The settings of the server stay.
pub proof fn law_needed_handler_is_put_at_hand<H, S>(
    server: &mut MeasurementRpcServer<H>,
    vacancy: Vacancy<H>,
    process: Option<ProcessInfo>,
    share: S,
    name: String,
    launch: Launch,
) where S: FnOnce(MeasurementHandler) -> H
    requires
        vacancy.replaced() == (*server)@.handler,
        forall|handler: MeasurementHandler| #[trigger] call_requires(share, (handler,)),
        call_ensures(process_display_name, (process,), name),
        call_ensures(
            MeasurementRpcServer::<H>::provide_handler::<S>,
            (server, vacancy, process, share),
            launch,
        ),
    ensures
        call_requires(
            MeasurementRpcServer::<H>::provide_handler::<S>,
            (server, vacancy, process, share),
        ),
        launches(launch, old(server)@, vacancy.function()),
        exists|handler: MeasurementHandler, shared: H| #[trigger]
            call_ensures(share, (handler,), shared) && is_new_handler(
                handler@,
                old(server)@,
                vacancy.process(),
                name@,
            ) && final(server)@.handler == Some(shared),
        same_server(final(server)@, old(server)@),
{
}

/// Where a start needs a new handler, that handler is one of the process asked for, and the session
/// that is launched is one of the function asked for.
pub proof fn law_start_measures_what_was_asked_for<H, S>(
    found: MeasurementRpcServer<H>,
    pid: u32,
    function: String,
    existing: Option<&MeasurementHandler>,
    vacancy: Vacancy<H>,
    server: &mut MeasurementRpcServer<H>,
    process: Option<ProcessInfo>,
    share: S,
    launch: Launch,
) where S: FnOnce(MeasurementHandler) -> H
    requires
        existing is Some <==> found@.handler is Some,
        call_ensures(
            MeasurementRpcServer::<H>::start_measurements,
            (&found, pid, function, existing),
            Ok::<Start<H>, ServiceError>(Start::NeedsHandler(vacancy)),
        ),
        (*server)@ == found@,
        forall|handler: MeasurementHandler| #[trigger] call_requires(share, (handler,)),
        call_ensures(
            MeasurementRpcServer::<H>::provide_handler::<S>,
            (server, vacancy, process, share),
            launch,
        ),
    ensures
        call_requires(
            MeasurementRpcServer::<H>::provide_handler::<S>,
            (server, vacancy, process, share),
        ),
        launches(launch, found@, function@),
        exists|handler: MeasurementHandler, shared: H| #[trigger]
            call_ensures(share, (handler,), shared) && handler@.pid == pid
                && !handler@.measuring && final(server)@.handler == Some(shared),
{
}

/// A stop reaches the handler at hand exactly where it measures the function of the process asked
/// for. It then sends one signal over the channel of the session, whatever has been recorded, and
/// the client is told how that signal fared. A stop that is refused sends nothing and says why,
/// with the process asked for where the handler at hand is not one of it. Nothing else changes.
pub proof fn law_stop_is_for_the_process_and_function<H>(
    server: MeasurementRpcServer<H>,
    pid: u32,
    function: String,
    handler: &mut MeasurementHandler,
    stopped: Result<StopSignal, ServiceError>,
)
    requires
        call_ensures(
            MeasurementRpcServer::<H>::stop_measurements,
            (&server, pid, &function, Some(handler)),
            stopped,
        ),
    ensures
        stopped is Ok <==> old(handler)@.pid == pid && old(handler)@.measuring
            && old(handler)@.function == Some(function@),
        stopped is Ok && old(handler)@.tx is Some ==> {
            let before = old(handler)@.tx->Some_0;
            &&& stopped->Ok_0 != StopSignal::NoSender
            &&& final(handler)@.tx is Some
            &&& final(handler)@.tx->Some_0.channel == before.channel
            &&& final(handler)@.tx->Some_0.outcomes == before.outcomes.push(
                stopped->Ok_0 == StopSignal::Sent,
            )
        },
        stopped is Ok && old(handler)@.tx is None ==> stopped->Ok_0 == StopSignal::NoSender
            && final(handler)@.tx is None,
        stopped matches Err(error) ==> {
            &&& final(handler)@.tx == old(handler)@.tx
            &&& old(handler)@.pid == pid ==> is_refused_with(old(handler)@, function@, error)
            &&& old(handler)@.pid != pid ==> {
                &&& error matches ServiceError::UnknownProcess { pid: asked }
                &&& asked == pid
            }
        },
        final(handler)@.measuring == old(handler)@.measuring,
        final(handler)@.function == old(handler)@.function,
        final(handler)@.results == old(handler)@.results,
        same_settings(final(handler)@, old(handler)@),
{
}

/// Without a handler at hand every stop is refused, with the process asked for.
pub proof fn law_stop_without_a_handler_is_refused<H>(
    server: MeasurementRpcServer<H>,
    pid: u32,
    function: String,
    stopped: Result<StopSignal, ServiceError>,
)
    requires
        call_ensures(
            MeasurementRpcServer::<H>::stop_measurements,
            (&server, pid, &function, None::<&mut MeasurementHandler>),
            stopped,
        ),
    ensures
        stopped matches Err(error) && error matches ServiceError::UnknownProcess { pid: asked }
            && asked == pid,
{
}

/// A session that could not begin is reported with its process and the reason, and one that could
/// is not.
pub proof fn law_failed_session_is_reported(
    pid: u32,
    outcome: Result<(), String>,
    result: Result<(), ServiceError>,
)
    requires
        call_ensures(session_result, (pid, outcome), result),
    ensures
        result is Ok <==> outcome is Ok,
        result matches Err(error) ==> {
            &&& error matches ServiceError::SessionFailed { pid: failed, reason }
            &&& failed == pid
            &&& reason@ == outcome->Err_0@
        },
{
}

/// A server can be made with any settings, and can be asked for a handler or a stop in every state,
/// whatever the handler at hand does.
pub proof fn law_server_can_always_be_called<H>(
    server: MeasurementRpcServer<H>,
    collect_gpu: bool,
    interval: u128,
    sep: &str,
    output_path: Option<String>,
    summary: bool,
    pid: u32,
    process: Option<ProcessInfo>,
    existing: Option<&MeasurementHandler>,
    function: String,
    told: Option<&mut MeasurementHandler>,
    outcome: Result<(), String>,
)
    ensures
        call_requires(
            MeasurementRpcServer::<H>::new,
            (collect_gpu, interval, sep, output_path, summary),
        ),
        call_requires(MeasurementRpcServer::<H>::measurement_handler, (&server,)),
        call_requires(MeasurementRpcServer::<H>::create_handler, (&server, pid, process)),
        call_requires(MeasurementRpcServer::<H>::get_handler, (&server, pid, existing)),
        call_requires(
            MeasurementRpcServer::<H>::stop_measurements,
            (&server, pid, &function, told),
        ),
        call_requires(session_result, (pid, outcome)),
{
}

} // verus!
