//! The rules of the measurement server: one process is measured at a time.
use crate::error::{Refusal, ServiceError};
use crate::measurement_handler::{
    display_name, text_of, HandlerState, MeasurementHandler, ProcessInfo, StopSignal,
};
use vstd::prelude::*;

verus! {

/// The measurement server. `H` is a shared reference to a [`MeasurementHandler`]; a running session
/// holds one too.
#[derive(Debug)]
pub struct MeasurementRpcServer<H> {
    measurement_handler: Option<H>,
    collect_gpu: bool,
    interval: u128,
    sep: String,
    output_path: Option<String>,
    summary: bool,
}

/// [`MeasurementRpcServer`] over mathematical values.
#[verifier::ext_equal]
pub struct ServerState<H> {
    pub handler: Option<H>,
    pub collect_gpu: bool,
    pub interval: u128,
    pub sep: Seq<char>,
    pub output_path: Option<Seq<char>>,
    pub summary: bool,
}

/// Which handler measures next.
#[derive(Debug, Clone, Copy, PartialEq, Eq, Structural)]
pub enum HandlerChoice {
    /// The one at hand.
    Reuse,
    /// A new one.
    Create,
}

impl<H> View for MeasurementRpcServer<H> {
    type V = ServerState<H>;

    closed spec fn view(&self) -> ServerState<H> {
        ServerState {
            handler: self.measurement_handler,
            collect_gpu: self.collect_gpu,
            interval: self.interval,
            sep: self.sep@,
            output_path: text_of(self.output_path),
            summary: self.summary,
        }
    }
}

/// The state of the handler at hand, if there is one.
pub open spec fn state_of(existing: Option<&MeasurementHandler>) -> Option<HandlerState> {
    match existing {
        Some(handler) => Some(handler@),
        None => None,
    }
}

/// Which handler measures process `pid`, given the one at hand. Nothing starts while a session
/// runs, whichever process it measures; an idle handler serves its own process again.
pub open spec fn handler_for(existing: Option<HandlerState>, pid: u32) -> Result<
    HandlerChoice,
    Refusal,
> {
    match existing {
        Some(handler) => if handler.measuring {
            Err(Refusal::InProgress { pid: handler.pid })
        } else if handler.pid == pid {
            Ok(HandlerChoice::Reuse)
        } else {
            Ok(HandlerChoice::Create)
        },
        None => Ok(HandlerChoice::Create),
    }
}

/// Why a stop for `function` of process `pid` is refused, given the handler at hand.
pub open spec fn stop_refusal(
    existing: Option<HandlerState>,
    pid: u32,
    function: Seq<char>,
) -> Option<Refusal> {
    match existing {
        Some(handler) => if handler.pid == pid {
            handler.stop_refusal(function)
        } else {
            Some(Refusal::UnknownProcess { pid })
        },
        None => Some(Refusal::UnknownProcess { pid }),
    }
}

/// The session to launch for a start that is taken, with the handler at hand, and the reply to the
/// client, which does not wait for it.
#[derive(Debug, PartialEq, Eq)]
pub struct Launch {
    pub reply: bool,
    pub function_name: String,
    pub collect_gpu: bool,
    pub interval: u128,
}

impl Launch {
    /// It is the session of `function`, under the settings of `server`, and the reply is that it
    /// starts.
    pub open spec fn is_for<H>(self, server: ServerState<H>, function: Seq<char>) -> bool {
        &&& self.reply
        &&& self.function_name@ == function
        &&& self.collect_gpu == server.collect_gpu
        &&& self.interval == server.interval
    }
}

/// A start that is taken as soon as the server is given a new handler. `H` is a shared reference to
/// a [`MeasurementHandler`].
pub struct Vacancy<H> {
    pid: u32,
    function_name: String,
    replaced: Ghost<Option<H>>,
}

impl<H> Vacancy<H> {
    /// The process that is to be measured.
    pub closed spec fn process(self) -> u32 {
        self.pid
    }

    /// The function that is to be measured.
    pub closed spec fn function(self) -> Seq<char> {
        self.function_name@
    }

    /// The handler at hand that the new one replaces.
    pub closed spec fn replaced(self) -> Option<H> {
        self.replaced@
    }
}

/// What a start that is not refused leads to.
pub enum Start<H> {
    /// The session is launched with the handler at hand.
    Launch(Launch),
    /// A new handler is needed first.
    NeedsHandler(Vacancy<H>),
}

/// The server puts at hand what `share` makes of a new handler for process `pid`, of which the
/// system says `process`, and nothing else changes.
pub open spec fn puts_at_hand<H, S>(
    server: ServerState<H>,
    pid: u32,
    process: Option<ProcessInfo>,
    share: S,
    next: ServerState<H>,
) -> bool where S: FnOnce(MeasurementHandler) -> H {
    exists|handler: MeasurementHandler, shared: H| #[trigger]
        call_ensures(share, (handler,), shared) && handler@ == HandlerState::fresh(
            pid,
            server.output_path,
            server.sep,
            server.summary,
            display_name(process),
        ) && next == (ServerState { handler: Some(shared), ..server })
}

/// What is reported of the session of process `pid`, by whether it could begin.
pub fn session_result(pid: u32, outcome: Result<(), String>) -> (result: Result<(), ServiceError>)
    ensures
        match outcome {
            Ok(()) => result is Ok,
            Err(reason) => result matches Err(error) && error@ == (Refusal::SessionFailed {
                pid,
                reason: reason@,
            }),
        },
{
    match outcome {
        Ok(()) => Ok(()),
        Err(reason) => Err(ServiceError::SessionFailed { pid, reason }),
    }
}

impl<H> MeasurementRpcServer<H> {
    /// A server that has measured nothing yet. `interval` is in nanoseconds.
    pub fn new(
        collect_gpu: bool,
        interval: u128,
        sep: &str,
        output_path: Option<String>,
        summary: bool,
    ) -> (server: Self)
        ensures
            server@ == (ServerState {
                handler: None::<H>,
                collect_gpu,
                interval,
                sep: sep@,
                output_path: text_of(output_path),
                summary,
            }),
    {
        MeasurementRpcServer {
            measurement_handler: None,
            collect_gpu,
            interval,
            sep: sep.to_string(),
            output_path,
            summary,
        }
    }

    /// The handler at hand.
    pub fn measurement_handler(&self) -> (handler: Option<&H>)
        ensures
            match handler {
                Some(handler) => self@.handler == Some(*handler),
                None => self@.handler is None,
            },
    {
        match &self.measurement_handler {
            Some(handler) => Some(handler),
            None => None,
        }
    }

    /// A handler for process `pid`, of which the system says `process`.
    pub fn create_handler(&self, pid: u32, process: Option<ProcessInfo>) -> (handler:
        MeasurementHandler)
        ensures
            handler@ == HandlerState::fresh(
                pid,
                self@.output_path,
                self@.sep,
                self@.summary,
                display_name(process),
            ),
            handler@.wf(),
    {
        MeasurementHandler::new(pid, &self.output_path, &self.sep, self.summary, process)
    }

    /// Which handler is to measure process `pid`, where `existing` is the one at hand.
    pub fn get_handler(&self, pid: u32, existing: Option<&MeasurementHandler>) -> (chosen: Result<
        HandlerChoice,
        ServiceError,
    >)
        ensures
            match handler_for(state_of(existing), pid) {
                Ok(choice) => chosen == Ok::<HandlerChoice, ServiceError>(choice),
                Err(refusal) => chosen matches Err(error) && error@ == refusal,
            },
    {
        match existing {
            Some(handler) => {
                if handler.is_currently_measuring() {
                    Err(ServiceError::InProgress { pid: handler.pid() })
                } else if handler.pid() == pid {
                    Ok(HandlerChoice::Reuse)
                } else {
                    Ok(HandlerChoice::Create)
                }
            },
            None => Ok(HandlerChoice::Create),
        }
    }

    /// The session of `function_name` under the settings of the server.
    fn launch(&self, function_name: String) -> (launch: Launch)
        ensures
            launch.is_for(self@, function_name@),
    {
        Launch {
            reply: true,
            function_name,
            collect_gpu: self.collect_gpu,
            interval: self.interval,
        }
    }

    /// Whether the measurement of `function_name` of process `pid` starts, where `existing` is the
    /// handler at hand. An idle handler of that process serves again, and its session is launched;
    /// otherwise [`MeasurementRpcServer::provide_handler`] goes on.
    pub fn start_measurements(
        &self,
        pid: u32,
        function_name: String,
        existing: Option<&MeasurementHandler>,
    ) -> (started: Result<Start<H>, ServiceError>)
        requires
            existing is Some <==> self@.handler is Some,
        ensures
            match handler_for(state_of(existing), pid) {
                Err(refusal) => started matches Err(error) && error@ == refusal,
                Ok(HandlerChoice::Reuse) => started matches Ok(Start::Launch(launch))
                    && launch.is_for(self@, function_name@) && self@.handler is Some,
                Ok(HandlerChoice::Create) => started matches Ok(Start::NeedsHandler(vacancy))
                    && vacancy.process() == pid && vacancy.function() == function_name@
                    && vacancy.replaced() == self@.handler,
            },
    {
        match self.get_handler(pid, existing) {
            Err(error) => Err(error),
            Ok(HandlerChoice::Reuse) => Ok(Start::Launch(self.launch(function_name))),
            Ok(HandlerChoice::Create) => Ok(
                Start::NeedsHandler(
                    Vacancy { pid, function_name, replaced: Ghost(self.measurement_handler) },
                ),
            ),
        }
    }

    /// Puts a new handler at hand for a start that needs one, and launches its session. `process`
    /// is what the system says of the process; `share` makes the reference to the new handler.
    ///
    /// The handler at hand has to be the one that the start found. Whoever holds the server keeps
    /// that by holding it alone, behind one lock, from the start to this call.
    pub fn provide_handler<S>(
        &mut self,
        vacancy: Vacancy<H>,
        process: Option<ProcessInfo>,
        share: S,
    ) -> (launch: Launch) where S: FnOnce(MeasurementHandler) -> H
        requires
            vacancy.replaced() == old(self)@.handler,
            forall|handler: MeasurementHandler| #[trigger] call_requires(share, (handler,)),
        ensures
            launch.is_for(old(self)@, vacancy.function()),
            puts_at_hand(old(self)@, vacancy.process(), process, share, final(self)@),
    {
        let handler = self.create_handler(vacancy.pid, process);
        let shared = share(handler);
        self.measurement_handler = Some(shared);
        self.launch(vacancy.function_name)
    }

    /// Tells the session that measures `function_name` of process `pid` to stop, where `existing`
    /// is the handler at hand. A refused stop sends nothing, and one that is taken sends one
    /// signal.
    pub fn stop_measurements(
        &self,
        pid: u32,
        function_name: &String,
        existing: Option<&mut MeasurementHandler>,
    ) -> (stopped: Result<StopSignal, ServiceError>)
        ensures
            match existing {
                Some(handler) => match stop_refusal(
                    Some((*handler)@),
                    pid,
                    function_name@,
                ) {
                    Some(refusal) => stopped matches Err(error) && error@ == refusal
                        && final(handler)@ == (*handler)@,
                    None => stopped matches Ok(signal) && (*handler)@.stops(
                        signal,
                        final(handler)@,
                    ),
                },
                None => stopped matches Err(error) && error@ == (Refusal::UnknownProcess { pid }),
            },
    {
        match existing {
            Some(handler) => {
                if handler.pid() == pid {
                    handler.stop_measurement(function_name)
                } else {
                    Err(ServiceError::UnknownProcess { pid })
                }
            },
            None => Err(ServiceError::UnknownProcess { pid }),
        }
    }
}

} // verus!
