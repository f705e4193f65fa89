//! Requests and sessions side by side. Clients and sessions take turns in any order; what follows
//! says what holds between any two turns.
use crate::entry::MeasurementEntryValue;
use crate::error::Refusal;
use crate::laws::steps_left;
use crate::measurement_handler::{HandlerState, StopSignal};
use crate::server::{handler_for, stop_refusal, HandlerChoice};
use crate::session::{advance, Happening, SessionState};
use crate::stop_channel::stop_halves;
use tokio::sync::mpsc::{Receiver, Sender};
use vstd::prelude::*;

verus! {

/// A started measurement.
pub enum Task {
    /// Its session has not begun yet.
    Waiting { handler: nat, function: Seq<char> },
    /// Its session runs, and has recorded these entries so far.
    Running {
        handler: nat,
        session: SessionState,
        recorded: Seq<Map<Seq<char>, MeasurementEntryValue>>,
    },
    /// Its session has ended, and has recorded these entries.
    Ended { handler: nat, recorded: Seq<Map<Seq<char>, MeasurementEntryValue>> },
    /// Its session could not begin.
    Failed,
}

/// The whole service: the handlers that were ever made, the one at hand, the measurements that were
/// ever started, in order, and the handler whose session a client waits for to end. While a client
/// waits, no other request is looked at.
pub struct Service {
    pub handlers: Seq<HandlerState>,
    pub at_hand: Option<nat>,
    pub tasks: Seq<Task>,
    pub stopping: Option<nat>,
}

/// One turn.
pub enum Turn {
    /// A client starts a measurement; `fresh` is the handler that is made if a new one is needed.
    Start { pid: u32, function: Seq<char>, fresh: HandlerState },
    /// The session of a started measurement begins, with `channel` to tell it to stop. `session` is
    /// its course from the first sample on.
    Begin { task: int, channel: Sender<()>, session: SessionState },
    /// Something happens to a session.
    Happen { task: int, event: Happening },
    /// A session ends.
    Finish { task: int },
    /// A client asks for a stop. Where it is taken, the client waits.
    Stop { pid: u32, function: Seq<char> },
    /// The client that waits gets its results.
    Answer,
}

/// The stop signals that were sent to the session of a handler, and whether its channel took them.
pub open spec fn signals(handler: HandlerState) -> Seq<bool> {
    match handler.tx {
        Some(line) => line.outcomes,
        None => Seq::empty(),
    }
}

impl Service {
    /// Before the first request.
    pub open spec fn idle() -> Service {
        Service { handlers: Seq::empty(), at_hand: None, tasks: Seq::empty(), stopping: None }
    }

    /// The handler at hand.
    pub open spec fn existing(self) -> Option<HandlerState> {
        match self.at_hand {
            Some(index) => Some(self.handlers[index as int]),
            None => None,
        }
    }

    /// Whether the session of `task` runs, with that handler.
    pub open spec fn runs(self, task: int, handler: nat) -> bool {
        &&& 0 <= task < self.tasks.len()
        &&& self.tasks[task] matches Task::Running { handler: h, .. }
        &&& h == handler
    }

    /// Whether it can be the turn of `turn`. A session hears a stop only where a signal was sent to
    /// it. A client that waits has its answer once the handler is not measuring.
    pub open spec fn permits(self, turn: Turn) -> bool {
        match turn {
            Turn::Start { pid, fresh, .. } => self.stopping is None && fresh.pid == pid
                && !fresh.measuring,
            Turn::Begin { task, session, .. } => {
                &&& 0 <= task < self.tasks.len()
                &&& self.tasks[task] matches Task::Waiting { function, .. }
                &&& session.function == function
                &&& session.phase is Header
            },
            Turn::Happen { task, event } => {
                &&& 0 <= task < self.tasks.len()
                &&& self.tasks[task] matches Task::Running { handler, session, .. }
                &&& session.accepts(event)
                &&& event is Stop ==> signals(self.handlers[handler as int]).len() > 0
            },
            Turn::Finish { task } => {
                &&& 0 <= task < self.tasks.len()
                &&& self.tasks[task] matches Task::Running { session, .. }
                &&& session.phase is Conclude
            },
            Turn::Stop { .. } => self.stopping is None,
            Turn::Answer => {
                &&& self.stopping matches Some(handler)
                &&& !self.handlers[handler as int].measuring
            },
        }
    }

    /// The service after `turn`. A channel takes the first signal that is sent over it while its
    /// session runs; where it took one before, the request fails.
    pub open spec fn next(self, turn: Turn) -> Service {
        match turn {
            Turn::Start { pid, function, fresh } => match handler_for(self.existing(), pid) {
                Err(_) => self,
                Ok(HandlerChoice::Reuse) => Service {
                    tasks: self.tasks.push(
                        Task::Waiting { handler: self.at_hand->Some_0, function },
                    ),
                    ..self
                },
                Ok(HandlerChoice::Create) => Service {
                    handlers: self.handlers.push(fresh),
                    at_hand: Some(self.handlers.len()),
                    tasks: self.tasks.push(
                        Task::Waiting { handler: self.handlers.len(), function },
                    ),
                    ..self
                },
            },
            Turn::Begin { task, channel, session } => {
                let handler = self.tasks[task]->Waiting_handler;
                let function = self.tasks[task]->Waiting_function;
                let state = self.handlers[handler as int];
                if state.measuring {
                    Service { tasks: self.tasks.update(task, Task::Failed), ..self }
                } else {
                    Service {
                        handlers: self.handlers.update(
                            handler as int,
                            state.begun(function, channel),
                        ),
                        tasks: self.tasks.update(
                            task,
                            Task::Running { handler, session, recorded: Seq::empty() },
                        ),
                        ..self
                    }
                }
            },
            Turn::Happen { task, event } => {
                let handler = self.tasks[task]->Running_handler;
                let session = self.tasks[task]->Running_session;
                let recorded = self.tasks[task]->Running_recorded;
                let after = advance(self.handlers[handler as int], session, event);
                Service {
                    handlers: self.handlers.update(handler as int, after.0),
                    tasks: self.tasks.update(
                        task,
                        Task::Running {
                            handler,
                            session: after.1,
                            recorded: match event {
                                Happening::Recorded { now } => recorded.push(session.entry(now)),
                                _ => recorded,
                            },
                        },
                    ),
                    ..self
                }
            },
            Turn::Finish { task } => {
                let handler = self.tasks[task]->Running_handler;
                let recorded = self.tasks[task]->Running_recorded;
                Service {
                    handlers: self.handlers.update(
                        handler as int,
                        self.handlers[handler as int].finished(),
                    ),
                    tasks: self.tasks.update(task, Task::Ended { handler, recorded }),
                    ..self
                }
            },
            Turn::Stop { pid, function } => if stop_refusal(
                self.existing(),
                pid,
                function,
            ) is Some {
                self
            } else {
                let handler = self.at_hand->Some_0;
                let state = self.handlers[handler as int];
                let taken = signals(state).len() == 0;
                Service {
                    handlers: self.handlers.update(handler as int, state.told(taken)),
                    stopping: if taken {
                        Some(handler)
                    } else {
                        None
                    },
                    ..self
                }
            },
            Turn::Answer => Service { stopping: None, ..self },
        }
    }

    /// What holds between any two turns: a handler says that it is measuring exactly while a
    /// session runs with it, that session fits it, no two sessions run with one handler, a running
    /// session can be told to stop, and a client only waits for the handler at hand.
    pub open spec fn inv(self) -> bool {
        &&& self.at_hand matches Some(index) ==> index < self.handlers.len()
        &&& self.stopping is Some ==> self.stopping == self.at_hand
        &&& forall|t: int| 0 <= t < self.tasks.len() ==> self.fits(#[trigger] self.tasks[t])
        &&& forall|h: int| 0 <= h < self.handlers.len() ==> (#[trigger] self.handlers[h]).wf()
        &&& forall|h: nat| h < self.handlers.len() && (#[trigger] self.handlers[h as int]).measuring
            ==> exists|t: int| #[trigger] self.runs(t, h)
        &&& forall|t: int, u: int, h: nat| #[trigger]
            self.runs(t, h) && #[trigger] self.runs(u, h) ==> t == u
    }

    /// The task refers to a handler of the service. A running one measures the function that the
    /// handler names and has recorded the results that the handler holds; it was sent one stop
    /// signal at most, and that only while a client waits for it; and it is told to stop by nothing
    /// else.
    pub open spec fn fits(self, task: Task) -> bool {
        match task {
            Task::Waiting { handler, .. } => handler < self.handlers.len(),
            Task::Running { handler, session, recorded } => {
                let state = self.handlers[handler as int];
                &&& handler < self.handlers.len()
                &&& state.measuring
                &&& state.function == Some(session.function)
                &&& state.results == recorded
                &&& signals(state).len() == 0 || signals(state) == seq![true]
                &&& signals(state).len() > 0 ==> self.stopping == Some(handler)
                &&& steps_left(session.phase) is Some ==> signals(state).len() > 0
            },
            _ => true,
        }
    }
}

/// Before the first request the service is in order.
pub proof fn law_service_begins_in_order()
    ensures
        Service::idle().inv(),
{
}

/// Whoever's turn it is, the service stays in order.
pub proof fn law_service_stays_in_order(service: Service, turn: Turn)
    requires
        service.inv(),
        service.permits(turn),
    ensures
        service.next(turn).inv(),
{
    let next = service.next(turn);
    match turn {
        Turn::Start { pid, function, fresh } => {
            lemma_start_turn(service, pid, function, fresh);
        },
        Turn::Begin { task, .. } => {
            let handler = service.tasks[task]->Waiting_handler;
            assert(service.fits(service.tasks[task]));
            lemma_task_turn(service, task, handler, next);
        },
        Turn::Happen { task, event } => {
            let handler = service.tasks[task]->Running_handler;
            assert(service.fits(service.tasks[task]));
            assert(service.runs(task, handler));
            lemma_task_turn(service, task, handler, next);
        },
        Turn::Finish { task } => {
            let handler = service.tasks[task]->Running_handler;
            assert(service.fits(service.tasks[task]));
            assert(service.runs(task, handler));
            lemma_task_turn(service, task, handler, next);
        },
        Turn::Stop { pid, function } => {
            lemma_stop_turn(service, pid, function);
        },
        Turn::Answer => {
            lemma_answer_turn(service);
        },
    }
}

/// A start keeps the order.
proof fn lemma_start_turn(service: Service, pid: u32, function: Seq<char>, fresh: HandlerState)
    requires
        service.inv(),
        service.permits((Turn::Start { pid, function, fresh })),
    ensures
        service.next((Turn::Start { pid, function, fresh })).inv(),
{
    let next = service.next((Turn::Start { pid, function, fresh }));
    if handler_for(service.existing(), pid) is Ok {
        assert forall|t: int, h: nat| #[trigger] next.runs(t, h) implies service.runs(t, h) by {
            if t < service.tasks.len() {
                assert(next.tasks[t] == service.tasks[t]);
            }
        }
        assert forall|t: int| 0 <= t < next.tasks.len() implies next.fits(
            #[trigger] next.tasks[t],
        ) by {
            if t < service.tasks.len() {
                assert(service.fits(service.tasks[t]));
            }
        }
        assert forall|h: nat| h < next.handlers.len() && (
        #[trigger] next.handlers[h as int]).measuring implies exists|t: int| #[trigger]
            next.runs(t, h) by {
            assert(next.handlers[h as int] == service.handlers[h as int]);
            let t = choose|t: int| #[trigger] service.runs(t, h);
            assert(next.tasks[t] == service.tasks[t]);
            assert(next.runs(t, h));
        }
    }
}

/// A turn that touches one task and its handler keeps the order where these two keep it.
proof fn lemma_task_turn(service: Service, task: int, handler: nat, next: Service)
    requires
        service.inv(),
        0 <= task < service.tasks.len(),
        handler < service.handlers.len(),
        next.at_hand == service.at_hand,
        next.stopping == service.stopping,
        next.tasks.len() == service.tasks.len(),
        next.handlers.len() == service.handlers.len(),
        forall|t: int|
            0 <= t < service.tasks.len() && t != task ==> #[trigger] next.tasks[t]
                == service.tasks[t],
        forall|h: int|
            0 <= h < service.handlers.len() && h != handler ==> #[trigger] next.handlers[h]
                == service.handlers[h],
        next.handlers[handler as int].wf(),
        next.fits(next.tasks[task]),
        next.handlers[handler as int].measuring <==> next.runs(task, handler)
            || service.handlers[handler as int].measuring && !service.runs(task, handler),
        service.handlers[handler as int].measuring && !service.runs(task, handler)
            ==> next.handlers[handler as int] == service.handlers[handler as int],
        forall|h: nat| h != handler ==> !#[trigger] next.runs(task, h) && !service.runs(task, h),
        next.runs(task, handler) && !service.runs(task, handler)
            ==> !service.handlers[handler as int].measuring,
    ensures
        next.inv(),
{
    assert forall|t: int, h: nat| t != task implies (#[trigger] next.runs(t, h) <==> service.runs(
        t,
        h,
    )) by {
        if 0 <= t < service.tasks.len() {
            assert(next.tasks[t] == service.tasks[t]);
        }
    }
    assert forall|t: int, h: nat| #[trigger] service.runs(t, h) implies h < service.handlers.len()
        && service.handlers[h as int].measuring by {
        assert(service.fits(service.tasks[t]));
    }
    assert forall|t: int| 0 <= t < next.tasks.len() implies next.fits(#[trigger] next.tasks[t]) by {
        if t != task {
            assert(service.fits(service.tasks[t]));
            if let Task::Running { handler: h, .. } = next.tasks[t] {
                assert(service.runs(t, h));
                if h == handler {
                    assert(!service.runs(task, handler));
                }
            }
        }
    }
    assert forall|h: nat| h < next.handlers.len() && (
    #[trigger] next.handlers[h as int]).measuring implies exists|t: int| #[trigger]
        next.runs(t, h) by {
        if h != handler {
            assert(service.handlers[h as int].measuring);
            let t = choose|t: int| #[trigger] service.runs(t, h);
            assert(!next.runs(task, h));
            assert(next.runs(t, h));
        } else if !next.runs(task, handler) {
            let t = choose|t: int| #[trigger] service.runs(t, h);
            assert(next.runs(t, h));
        }
    }
    assert forall|t: int, u: int, h: nat| #[trigger]
        next.runs(t, h) && #[trigger] next.runs(u, h) implies t == u by {
        if t != task && u != task {
            assert(service.runs(t, h) && service.runs(u, h));
        } else if t != u {
            let other = if t == task {
                u
            } else {
                t
            };
            assert(service.runs(other, h));
            assert(h == handler);
            assert(!service.runs(task, handler));
        }
    }
}

/// A stop that is taken is the first signal of the session that runs with the handler at hand.
proof fn lemma_stop_finds_the_session(service: Service, pid: u32, function: Seq<char>) -> (task:
    int)
    requires
        service.inv(),
        service.stopping is None,
        stop_refusal(service.existing(), pid, function) is None,
    ensures
        service.at_hand is Some,
        service.runs(task, service.at_hand->Some_0),
        service.tasks[task]->Running_session.function == function,
        service.handlers[service.at_hand->Some_0 as int].pid == pid,
        signals(service.handlers[service.at_hand->Some_0 as int]) == Seq::<bool>::empty(),
        steps_left(service.tasks[task]->Running_session.phase) is None,
{
    let handler = service.at_hand->Some_0;
    assert(service.handlers[handler as int].measuring);
    let task = choose|t: int| #[trigger] service.runs(t, handler);
    assert(service.fits(service.tasks[task]));
    assert(signals(service.handlers[handler as int]) =~= Seq::<bool>::empty());
    task
}

/// A stop keeps the order.
proof fn lemma_stop_turn(service: Service, pid: u32, function: Seq<char>)
    requires
        service.inv(),
        service.stopping is None,
    ensures
        service.next((Turn::Stop { pid, function })).inv(),
{
    let next = service.next((Turn::Stop { pid, function }));
    if stop_refusal(service.existing(), pid, function) is None {
        let task = lemma_stop_finds_the_session(service, pid, function);
        let handler = service.at_hand->Some_0;
        assert(service.handlers[handler as int].wf());
        assert(signals(next.handlers[handler as int]) =~= seq![true]);
        assert forall|t: int, h: nat| #[trigger] next.runs(t, h) <==> service.runs(t, h) by {}
        assert forall|t: int| 0 <= t < next.tasks.len() implies next.fits(
            #[trigger] next.tasks[t],
        ) by {
            assert(service.fits(service.tasks[t]));
        }
        assert forall|h: nat| h < next.handlers.len() && (
        #[trigger] next.handlers[h as int]).measuring implies exists|t: int| #[trigger]
            next.runs(t, h) by {
            assert(service.handlers[h as int].measuring);
            let t = choose|t: int| #[trigger] service.runs(t, h);
            assert(next.runs(t, h));
        }
    }
}

/// An answer keeps the order.
proof fn lemma_answer_turn(service: Service)
    requires
        service.inv(),
        service.permits(Turn::Answer),
    ensures
        service.next(Turn::Answer).inv(),
{
    let next = service.next(Turn::Answer);
    assert forall|t: int, h: nat| #[trigger] next.runs(t, h) <==> service.runs(t, h) by {}
    assert forall|t: int| 0 <= t < next.tasks.len() implies next.fits(#[trigger] next.tasks[t]) by {
        assert(service.fits(service.tasks[t]));
    }
    assert forall|h: nat| h < next.handlers.len() && (
    #[trigger] next.handlers[h as int]).measuring implies exists|t: int| #[trigger]
        next.runs(t, h) by {
        assert(service.handlers[h as int].measuring);
        let t = choose|t: int| #[trigger] service.runs(t, h);
        assert(next.runs(t, h));
    }
}

/// While a session runs whose handler is at hand, every start is refused and changes nothing, and a
/// stop is taken for its function and process alone.
pub proof fn law_running_session_is_guarded(
    service: Service,
    task: int,
    handler: nat,
    pid: u32,
    function: Seq<char>,
    fresh: HandlerState,
)
    requires
        service.inv(),
        service.at_hand == Some(handler),
        service.runs(task, handler),
    ensures
        handler_for(service.existing(), pid) == Err::<HandlerChoice, Refusal>(
            Refusal::InProgress { pid: service.handlers[handler as int].pid },
        ),
        service.next((Turn::Start { pid, function, fresh })) == service,
        stop_refusal(service.existing(), pid, function) is None <==> pid
            == service.handlers[handler as int].pid && function
            == service.tasks[task]->Running_session.function,
{
    assert(service.fits(service.tasks[task]));
}

/// A start that is taken launches one session: of the function asked for, with the handler that is
/// then at hand, which is one of the process asked for. One that is refused launches none.
pub proof fn law_taken_start_launches_one_session(
    service: Service,
    pid: u32,
    function: Seq<char>,
    fresh: HandlerState,
)
    requires
        service.inv(),
        service.permits((Turn::Start { pid, function, fresh })),
    ensures
        ({
            let next = service.next((Turn::Start { pid, function, fresh }));
            match handler_for(service.existing(), pid) {
                Ok(_) => {
                    &&& next.at_hand matches Some(handler)
                    &&& next.handlers[handler as int].pid == pid
                    &&& next.tasks == service.tasks.push(Task::Waiting { handler, function })
                },
                Err(_) => next == service,
            }
        }),
{
}

/// A stop that is refused changes nothing: no session hears of it.
pub proof fn law_refused_stop_changes_nothing(service: Service, pid: u32, function: Seq<char>)
    requires
        stop_refusal(service.existing(), pid, function) is Some,
    ensures
        service.next((Turn::Stop { pid, function })) == service,
{
}

/// A stop that is taken reaches its session: it is the first signal ever sent to it, so that the
/// channel, which holds one, takes it; and the client waits for that session.
pub proof fn law_taken_stop_reaches_its_session(service: Service, pid: u32, function: Seq<char>)
    requires
        service.inv(),
        service.permits((Turn::Stop { pid, function })),
        stop_refusal(service.existing(), pid, function) is None,
    ensures
        service.at_hand is Some,
        ({
            let handler = service.at_hand->Some_0;
            let next = service.next((Turn::Stop { pid, function }));
            &&& service.handlers[handler as int].pid == pid
            &&& exists|task: int| #[trigger]
                service.runs(task, handler) && service.tasks[task]->Running_session.function
                    == function
            &&& signals(service.handlers[handler as int]) == Seq::<bool>::empty()
            &&& signals(next.handlers[handler as int]) == seq![true]
            &&& next.stopping == Some(handler)
        }),
{
    let task = lemma_stop_finds_the_session(service, pid, function);
    let handler = service.at_hand->Some_0;
    assert(service.handlers[handler as int].wf());
    assert(signals(
        service.next((Turn::Stop { pid, function })).handlers[handler as int],
    ) =~= seq![true]);
}

/// A session hears a stop only after one was taken: a client waits for it, and it was sent exactly
/// one signal.
pub proof fn law_stop_is_heard_only_after_one_was_taken(service: Service, task: int)
    requires
        service.inv(),
        service.permits((Turn::Happen { task, event: Happening::Stop })),
    ensures
        service.stopping == Some(service.tasks[task]->Running_handler),
        signals(service.handlers[service.tasks[task]->Running_handler as int]) == seq![true],
{
    assert(service.fits(service.tasks[task]));
}

/// A signal comes from nothing but a stop that was taken for the process and the function of the
/// session that it is sent to.
pub proof fn law_signals_come_from_taken_stops(
    service: Service,
    turn: Turn,
    task: int,
    handler: nat,
)
    requires
        service.inv(),
        service.permits(turn),
        service.runs(task, handler),
        signals(service.next(turn).handlers[handler as int]) != signals(
            service.handlers[handler as int],
        ),
    ensures
        turn matches Turn::Stop { pid, function } && pid == service.handlers[handler as int].pid
            && function == service.tasks[task]->Running_session.function && stop_refusal(
            service.existing(),
            pid,
            function,
        ) is None,
{
    assert(service.fits(service.tasks[task]));
    match turn {
        Turn::Begin { task: t, .. } => {
            assert(service.fits(service.tasks[t]));
        },
        Turn::Happen { task: t, .. } => {
            assert(service.fits(service.tasks[t]));
        },
        Turn::Finish { task: t } => {
            assert(service.fits(service.tasks[t]));
        },
        Turn::Stop { pid, function } => {
            if stop_refusal(service.existing(), pid, function) is None {
                let found = lemma_stop_finds_the_session(service, pid, function);
                if service.at_hand == Some(handler) {
                    assert(service.runs(found, handler));
                }
            }
        },
        _ => {},
    }
}

/// What a session that ends leaves behind is what it recorded, whatever else went on meanwhile; it
/// stays until the next session with that handler begins.
pub proof fn law_finished_session_leaves_its_results(service: Service, task: int, handler: nat)
    requires
        service.inv(),
        service.runs(task, handler),
        service.permits((Turn::Finish { task })),
    ensures
        ({
            let left = service.next((Turn::Finish { task })).handlers[handler as int];
            !left.measuring && left.results == service.tasks[task]->Running_recorded
        }),
{
    assert(service.fits(service.tasks[task]));
}

/// A turn leaves the results of a handler alone that is not measuring, unless a session begins with
/// it.
pub proof fn law_results_stay(service: Service, turn: Turn, handler: nat)
    requires
        service.inv(),
        service.permits(turn),
        handler < service.handlers.len(),
        !service.handlers[handler as int].measuring,
    ensures
        service.next(turn).handlers[handler as int].measuring || service.next(
            turn,
        ).handlers[handler as int] == service.handlers[handler as int],
        service.next(turn).handlers[handler as int].measuring ==> turn is Begin,
{
    match turn {
        Turn::Happen { task, .. } => {
            assert(service.fits(service.tasks[task]));
        },
        Turn::Finish { task } => {
            assert(service.fits(service.tasks[task]));
        },
        Turn::Stop { pid, function } => {
            if stop_refusal(service.existing(), pid, function) is None {
                let found = lemma_stop_finds_the_session(service, pid, function);
                assert(service.fits(service.tasks[found]));
            }
        },
        _ => {},
    }
}

/// Of two measurements that were started with one handler before either session began, one
/// measures: the session of the other cannot begin while the first one runs.
pub proof fn law_second_session_does_not_begin(
    service: Service,
    first: int,
    second: int,
    handler: nat,
    channel: Sender<()>,
    session: SessionState,
)
    requires
        service.inv(),
        service.runs(first, handler),
        0 <= second < service.tasks.len(),
        service.tasks[second] matches Task::Waiting { handler: h, .. } && h == handler,
    ensures
        service.next((Turn::Begin { task: second, channel, session })).tasks[second]
            == Task::Failed,
        service.next((Turn::Begin { task: second, channel, session })).handlers
            == service.handlers,
{
    assert(service.fits(service.tasks[first]));
}

/// The service after `turns`, first to last.
pub open spec fn after_turns(service: Service, turns: Seq<Turn>) -> Service
    decreases turns.len(),
{
    if turns.len() == 0 {
        service
    } else {
        after_turns(service, turns.drop_last()).next(turns.last())
    }
}

/// Whether `turns` can follow one another, from `service` on.
pub open spec fn can_follow(service: Service, turns: Seq<Turn>) -> bool
    decreases turns.len(),
{
    turns.len() == 0 || (can_follow(service, turns.drop_last()) && after_turns(
        service,
        turns.drop_last(),
    ).permits(turns.last()))
}

/// Whether `turns` start no measurement and begin no session.
pub open spec fn nothing_new(turns: Seq<Turn>) -> bool {
    forall|i: int|
        0 <= i < turns.len() ==> !((#[trigger] turns[i]) is Start) && !(turns[i] is Begin)
}

/// In every order of turns the service stays in order.
pub proof fn law_service_is_always_in_order(service: Service, turns: Seq<Turn>)
    requires
        service.inv(),
        can_follow(service, turns),
    ensures
        after_turns(service, turns).inv(),
    decreases turns.len(),
{
    if turns.len() > 0 {
        law_service_is_always_in_order(service, turns.drop_last());
        law_service_stays_in_order(after_turns(service, turns.drop_last()), turns.last());
    }
}

/// After a stop was taken for the session of `task`, and as long as nothing new begins: the client
/// waits while the session runs, and once the session has ended, its handler holds what it
/// recorded.
proof fn lemma_after_a_stop(
    service: Service,
    pid: u32,
    function: Seq<char>,
    task: int,
    turns: Seq<Turn>,
)
    requires
        service.inv(),
        service.permits((Turn::Stop { pid, function })),
        stop_refusal(service.existing(), pid, function) is None,
        service.runs(task, service.at_hand->Some_0),
        can_follow(service.next((Turn::Stop { pid, function })), turns),
        nothing_new(turns),
    ensures
        ({
            let handler = service.at_hand->Some_0;
            let later = after_turns(service.next((Turn::Stop { pid, function })), turns);
            &&& later.inv()
            &&& later.at_hand == Some(handler)
            &&& later.tasks.len() == service.tasks.len()
            &&& later.handlers[handler as int].pid == pid
            &&& later.runs(task, handler) ==> later.stopping == Some(handler)
            &&& !later.runs(task, handler) ==> {
                &&& !later.handlers[handler as int].measuring
                &&& later.tasks[task] == (Task::Ended {
                    handler,
                    recorded: later.handlers[handler as int].results,
                })
            }
        }),
    decreases turns.len(),
{
    let handler = service.at_hand->Some_0;
    let stopped = service.next((Turn::Stop { pid, function }));
    law_service_stays_in_order(service, (Turn::Stop { pid, function }));
    let found = lemma_stop_finds_the_session(service, pid, function);
    assert(found == task);
    law_service_is_always_in_order(stopped, turns);
    if turns.len() == 0 {
        assert(service.handlers[handler as int].wf());
        assert(stopped.tasks[task] == service.tasks[task]);
    } else {
        let front = turns.drop_last();
        let turn = turns.last();
        let before = after_turns(stopped, front);
        let later = after_turns(stopped, turns);
        assert(nothing_new(front)) by {
            assert forall|i: int| 0 <= i < front.len() implies !((#[trigger] front[i]) is Start)
                && !(front[i] is Begin) by {
                assert(front[i] == turns[i]);
            }
        }
        assert(turn == turns[turns.len() - 1]);
        lemma_after_a_stop(service, pid, function, task, front);
        assert(later == before.next(turn));
        if before.runs(task, handler) {
            assert(before.fits(before.tasks[task]));
            match turn {
                Turn::Happen { task: t, .. } => {
                    assert(before.fits(before.tasks[t]));
                    if t != task {
                        assert(later.tasks[task] == before.tasks[task]);
                    }
                },
                Turn::Finish { task: t } => {
                    assert(before.fits(before.tasks[t]));
                    if t != task {
                        assert(before.runs(t, before.tasks[t]->Running_handler));
                        assert(later.tasks[task] == before.tasks[task]);
                    }
                },
                _ => {},
            }
        } else {
            law_results_stay(before, turn, handler);
            match turn {
                Turn::Happen { task: t, .. } => {
                    assert(before.fits(before.tasks[t]));
                },
                Turn::Finish { task: t } => {
                    assert(before.fits(before.tasks[t]));
                },
                _ => {},
            }
        }
    }
}

/// Two stops never overlap: until the client of a stop has its answer, no other request is looked
/// at, whatever the sessions do meanwhile.
pub proof fn law_stops_do_not_overlap(
    service: Service,
    pid: u32,
    function: Seq<char>,
    turns: Seq<Turn>,
    other: u32,
    asked: Seq<char>,
    fresh: HandlerState,
)
    requires
        service.inv(),
        service.permits((Turn::Stop { pid, function })),
        stop_refusal(service.existing(), pid, function) is None,
        can_follow(service.next((Turn::Stop { pid, function })), turns),
        forall|i: int| 0 <= i < turns.len() ==> !((#[trigger] turns[i]) is Answer),
    ensures
        ({
            let later = after_turns(service.next((Turn::Stop { pid, function })), turns);
            &&& later.stopping == service.at_hand
            &&& later.stopping is Some
            &&& !later.permits((Turn::Stop { pid: other, function: asked }))
            &&& !later.permits((Turn::Start { pid: other, function: asked, fresh }))
        }),
    decreases turns.len(),
{
    let found = lemma_stop_finds_the_session(service, pid, function);
    if turns.len() > 0 {
        let front = turns.drop_last();
        assert forall|i: int| 0 <= i < front.len() implies !((#[trigger] front[i]) is Answer) by {
            assert(front[i] == turns[i]);
        }
        law_stops_do_not_overlap(service, pid, function, front, other, asked, fresh);
        assert(!(turns[turns.len() - 1] is Answer));
    }
}

/// Of two stops for the session of one function and process, with nothing new in between, one is
/// taken and answered with the entries of the session, and the other is refused: it comes up only
/// after that answer, and the session has ended by then.
pub proof fn law_of_two_stops_one_is_refused(
    service: Service,
    pid: u32,
    function: Seq<char>,
    task: int,
    turns: Seq<Turn>,
)
    requires
        service.inv(),
        service.permits((Turn::Stop { pid, function })),
        stop_refusal(service.existing(), pid, function) is None,
        service.runs(task, service.at_hand->Some_0),
        can_follow(service.next((Turn::Stop { pid, function })), turns),
        nothing_new(turns),
    ensures
        ({
            let handler = service.at_hand->Some_0;
            let later = after_turns(service.next((Turn::Stop { pid, function })), turns);
            &&& later.permits(Turn::Answer) ==> later.tasks[task] == (Task::Ended {
                handler,
                recorded: later.handlers[handler as int].results,
            })
            &&& later.permits((Turn::Stop { pid, function })) ==> stop_refusal(
                later.existing(),
                pid,
                function,
            ) == Some(Refusal::NotMeasuring { pid })
        }),
{
    lemma_after_a_stop(service, pid, function, task, turns);
    let later = after_turns(service.next((Turn::Stop { pid, function })), turns);
    if later.runs(task, service.at_hand->Some_0) {
        assert(later.fits(later.tasks[task]));
    }
}

/// A turn that came about on a connection.
pub struct Call {
    pub connection: nat,
    pub turn: Turn,
}

/// The service after `calls`, first to last. All connections are served by one service.
pub open spec fn after_calls(service: Service, calls: Seq<Call>) -> Service {
    after_turns(service, calls.map_values(|call: Call| call.turn))
}

/// Whether `calls` can follow one another, from `service` on.
pub open spec fn calls_can_follow(service: Service, calls: Seq<Call>) -> bool {
    can_follow(service, calls.map_values(|call: Call| call.turn))
}

/// A session that was started on one connection is there for every other one. Once it has begun,
/// and its handler is at hand, a start on any connection is refused with the process it measures,
/// and a stop for its process and function is taken on any connection; that stop is answered, as
/// long as nothing new begins, with what the session recorded.
pub proof fn law_connections_share_one_service(
    service: Service,
    calls: Seq<Call>,
    task: int,
    handler: nat,
    connection: nat,
    pid: u32,
    function: Seq<char>,
    fresh: HandlerState,
    turns: Seq<Turn>,
)
    requires
        service.inv(),
        calls_can_follow(service, calls),
        after_calls(service, calls).at_hand == Some(handler),
        after_calls(service, calls).runs(task, handler),
    ensures
        ({
            let begun = after_calls(service, calls);
            let measured = begun.handlers[handler as int].pid;
            let session = begun.tasks[task]->Running_session;
            let start = Call { connection, turn: Turn::Start { pid, function, fresh } };
            let stop = Call {
                connection,
                turn: Turn::Stop { pid: measured, function: session.function },
            };
            let stopped = begun.next(stop.turn);
            &&& handler_for(begun.existing(), pid) == Err::<HandlerChoice, Refusal>(
                Refusal::InProgress { pid: measured },
            )
            &&& after_calls(service, calls.push(start)) == begun
            &&& stop_refusal(begun.existing(), measured, session.function) is None
            &&& after_calls(service, calls.push(stop)) == stopped
            &&& begun.stopping is None && can_follow(stopped, turns) && nothing_new(turns)
                && after_turns(stopped, turns).permits(Turn::Answer) ==> after_turns(
                stopped,
                turns,
            ).tasks[task] == (Task::Ended {
                handler,
                recorded: after_turns(stopped, turns).handlers[handler as int].results,
            })
        }),
{
    let pick = |call: Call| call.turn;
    let begun = after_calls(service, calls);
    law_service_is_always_in_order(service, calls.map_values(pick));
    law_running_session_is_guarded(begun, task, handler, pid, function, fresh);
    let measured = begun.handlers[handler as int].pid;
    let asked = begun.tasks[task]->Running_session.function;
    law_running_session_is_guarded(begun, task, handler, measured, asked, fresh);
    let start = Call { connection, turn: Turn::Start { pid, function, fresh } };
    let stop = Call { connection, turn: Turn::Stop { pid: measured, function: asked } };
    assert(calls.push(start).map_values(pick).drop_last() =~= calls.map_values(pick));
    assert(calls.push(stop).map_values(pick).drop_last() =~= calls.map_values(pick));
    let stopped = begun.next(stop.turn);
    if begun.stopping is None && can_follow(stopped, turns) && nothing_new(turns) {
        law_of_two_stops_one_is_refused(begun, measured, asked, task, turns);
    }
}

/// The turn of a stop that is taken is a stop of the handler at hand: one signal more, which its
/// channel takes. Whatever state a stop of that handler can lead to, and whatever has been
/// recorded, has one signal more.
pub proof fn law_stop_turn_is_a_stop_of_the_handler(
    service: Service,
    pid: u32,
    function: Seq<char>,
    signal: StopSignal,
    stopped: HandlerState,
)
    requires
        service.inv(),
        service.permits((Turn::Stop { pid, function })),
        stop_refusal(service.existing(), pid, function) is None,
    ensures
        service.at_hand is Some,
        ({
            let handler = service.at_hand->Some_0 as int;
            let before = service.handlers[handler];
            let after = service.next((Turn::Stop { pid, function })).handlers[handler];
            &&& before.stops(StopSignal::Sent, after)
            &&& signals(after).len() == signals(before).len() + 1
            &&& before.stops(signal, stopped) ==> {
                &&& signal == StopSignal::Sent ==> stopped == after
                &&& signal == StopSignal::Sent || signal == StopSignal::Failed
                &&& signals(stopped).len() == signals(before).len() + 1
                &&& signals(stopped).last() <==> signal == StopSignal::Sent
            }
        }),
{
    let found = lemma_stop_finds_the_session(service, pid, function);
    let handler = service.at_hand->Some_0 as int;
    assert(service.handlers[handler].wf());
}

/// The turn in which a session begins is a beginning with its handler: of the function that was
/// asked for, on that channel, with no results and no signal yet.
pub proof fn law_begin_turn_is_a_beginning_of_the_handler(
    service: Service,
    task: int,
    channel: Sender<()>,
    receiver: Receiver<()>,
    session: SessionState,
)
    requires
        service.inv(),
        service.permits((Turn::Begin { task, channel, session })),
        stop_halves(channel, receiver),
        !service.handlers[service.tasks[task]->Waiting_handler as int].measuring,
    ensures
        ({
            let handler = service.tasks[task]->Waiting_handler as int;
            let function = service.tasks[task]->Waiting_function;
            let before = service.handlers[handler];
            let after = service.next((Turn::Begin { task, channel, session })).handlers[handler];
            &&& before.begins(function, receiver, after)
            &&& after.function == Some(function)
            &&& after.measuring
            &&& after.pid == before.pid
            &&& after.results.len() == 0
            &&& signals(after).len() == 0
        }),
{
    assert(service.fits(service.tasks[task]));
}

} // verus!
