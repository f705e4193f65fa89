//! How the server treats connections and the requests on them.
use jsonrpsee::server::http::response;
use jsonrpsee::server::{ws, ConnectionGuard, ConnectionPermit, HttpRequest, HttpResponse};
use vstd::prelude::*;

verus! {

/// An HTTP request.
#[verifier::external_type_specification]
#[verifier::external_body]
#[verifier::reject_recursive_types(T)]
pub struct ExHttpRequest<T>(jsonrpsee::server::HttpRequest<T>);

/// An HTTP response.
#[verifier::external_type_specification]
#[verifier::external_body]
#[verifier::reject_recursive_types(T)]
pub struct ExHttpResponse<T>(jsonrpsee::server::HttpResponse<T>);

/// The body of a request or a response.
#[verifier::external_type_specification]
#[verifier::external_body]
pub struct ExHttpBody(jsonrpsee::server::HttpBody);

/// A limit on the requests that are served at one time.
#[verifier::external_type_specification]
#[verifier::external_body]
pub struct ExConnectionGuard(jsonrpsee::server::ConnectionGuard);

/// A place under that limit.
#[verifier::external_type_specification]
#[verifier::external_body]
pub struct ExConnectionPermit(jsonrpsee::server::ConnectionPermit);

/// `jsonrpsee::server::ConnectionGuard::new`, which makes a limit of so many places; it panics on
/// more than `usize::MAX >> 3`. How many places are free later depends on who takes them; of that
/// nothing is claimed.
pub assume_specification[ jsonrpsee::server::ConnectionGuard::new ](limit: usize) -> (guard:
    jsonrpsee::server::ConnectionGuard)
    requires
        limit <= usize::MAX / 8,
;

/// Reads `tokio::sync::Semaphore::MAX_PERMITS`, the most places that a limit can have.
#[verifier::external_body]
fn most_places() -> (places: usize)
    ensures
        places == usize::MAX / 8,
{
    tokio::sync::Semaphore::MAX_PERMITS
}

/// `jsonrpsee::server::ConnectionGuard::try_acquire`, which takes a place under the limit. Whether
/// there is one depends on the places taken and given back before; of that nothing is claimed.
pub assume_specification[ jsonrpsee::server::ConnectionGuard::try_acquire ](
    guard: &jsonrpsee::server::ConnectionGuard,
) -> (permit: Option<jsonrpsee::server::ConnectionPermit>)
;

/// `jsonrpsee::server::ws::is_upgrade_request`, which says whether the headers of a request ask for
/// a WebSocket. A request is opaque here, so nothing is claimed of what the headers have to be.
pub assume_specification<B>[ jsonrpsee::server::ws::is_upgrade_request::<B> ](
    request: &jsonrpsee::server::HttpRequest<B>,
) -> (upgrade: bool)
;

/// The status of a response.
#[verifier::external_type_specification]
#[verifier::external_body]
pub struct ExStatusCode(http::StatusCode);

/// `http::Response::status`, the status of a response. Nothing is claimed of it here; the functions
/// that make responses say what it returns for theirs.
pub assume_specification<T>[ http::Response::<T>::status ](response: &http::Response<T>) -> (status:
    http::StatusCode)
;

/// `http::StatusCode::as_u16`, the number of a status. Nothing is claimed of it here; the functions
/// that make responses say what it returns for theirs.
pub assume_specification[ http::StatusCode::as_u16 ](status: &http::StatusCode) -> (number: u16)
;

/// Every call of `status` on the response returns a status of the given number.
pub open spec fn status_is(response: HttpResponse, number: int) -> bool {
    forall|status: http::StatusCode, n: u16|
        (#[trigger] call_ensures(http::Response::status, (&response,), status)) && (
        #[trigger] call_ensures(http::StatusCode::as_u16, (&status,), n)) ==> n == number
}

/// `jsonrpsee::server::http::response::too_many_requests`, the response to a request for which
/// there is no place. The claim is that its status is 429; of its body nothing is claimed.
pub assume_specification[ jsonrpsee::server::http::response::too_many_requests ]() -> (response:
    jsonrpsee::server::HttpResponse)
    ensures
        status_is(response, 429),
;

/// `jsonrpsee::server::http::response::denied`, the response to a request that is not allowed. The
/// claim is that its status is 403; of its body nothing is claimed.
pub assume_specification[ jsonrpsee::server::http::response::denied ]() -> (response:
    jsonrpsee::server::HttpResponse)
    ensures
        status_is(response, 403),
;

/// The limit of the server, as high as a limit can be.
pub fn connection_guard() -> (guard: ConnectionGuard)
    ensures
        call_ensures(ConnectionGuard::new, ((usize::MAX / 8) as usize,), guard),
{
    ConnectionGuard::new(most_places())
}

/// The address that the server listens on: the loopback address.
pub const LISTEN_ADDRESS: [u8; 4] = [127, 0, 0, 1];

/// What the listener reports.
#[derive(Debug, Clone, Copy, PartialEq, Eq, Structural)]
pub enum ListenerEvent {
    /// A connection was accepted.
    Accepted,
    /// A connection could not be accepted.
    AcceptFailed,
    /// The server is being stopped.
    Stopping,
}

/// What the server does about it.
#[derive(Debug, Clone, Copy, PartialEq, Eq, Structural)]
pub enum ListenerAction {
    /// Serve the connection.
    Serve,
    /// Wait for the next one.
    Retry,
    /// Stop listening.
    Close,
}

/// What the server does about an event: a connection that fails does not keep it from the next.
pub fn listener_action(event: ListenerEvent) -> (action: ListenerAction)
    ensures
        action == (match event {
            ListenerEvent::Accepted => ListenerAction::Serve,
            ListenerEvent::AcceptFailed => ListenerAction::Retry,
            ListenerEvent::Stopping => ListenerAction::Close,
        }),
{
    match event {
        ListenerEvent::Accepted => ListenerAction::Serve,
        ListenerEvent::AcceptFailed => ListenerAction::Retry,
        ListenerEvent::Stopping => ListenerAction::Close,
    }
}

/// Numbers for served requests, handed out from zero and, past the last one, from zero again.
#[derive(Debug)]
pub struct ConnectionIds {
    next: u32,
}

/// How a request is treated. `P` is a place under the limit.
#[derive(Debug)]
pub enum Route<P> {
    /// It is served, under a number of its own.
    Serve { permit: P, conn_id: u32 },
    /// There is no place for it.
    TooManyRequests,
    /// It asks for a WebSocket, which is not offered.
    Denied,
}

impl View for ConnectionIds {
    type V = u32;

    closed spec fn view(&self) -> u32 {
        self.next
    }
}

/// The number after `id`.
pub open spec fn next_id(id: u32) -> u32 {
    if id == u32::MAX {
        0
    } else {
        (id + 1) as u32
    }
}

/// How a request is treated that found the place `permit`, if any, and asks for a WebSocket or does
/// not, and what the next number is then, where `id` was the next one.
pub open spec fn routing<P>(permit: Option<P>, upgrade: bool, id: u32) -> (Route<P>, u32) {
    match permit {
        None => (Route::TooManyRequests, id),
        Some(permit) => if upgrade {
            (Route::Denied, id)
        } else {
            (Route::Serve { permit, conn_id: id }, next_id(id))
        },
    }
}

impl ConnectionIds {
    /// Numbers from zero.
    pub fn new() -> (ids: Self)
        ensures
            ids@ == 0,
    {
        ConnectionIds { next: 0 }
    }

    /// How a request is treated that found the place `permit`, if any, and asks for a WebSocket or
    /// does not.
    pub fn route<P>(&mut self, permit: Option<P>, upgrade: bool) -> (routed: Route<P>)
        ensures
            (routed, final(self)@) == routing(permit, upgrade, old(self)@),
    {
        match permit {
            None => Route::TooManyRequests,
            Some(permit) => {
                if upgrade {
                    Route::Denied
                } else {
                    let conn_id = self.next;
                    self.next = if conn_id == u32::MAX {
                        0
                    } else {
                        conn_id + 1
                    };
                    Route::Serve { permit, conn_id }
                }
            },
        }
    }

    /// How `request` is treated: it takes a place under the limit, if there is one, and is served
    /// unless it asks for a WebSocket.
    pub fn route_request<B>(
        &mut self,
        guard: &ConnectionGuard,
        request: &HttpRequest<B>,
    ) -> (routed: Route<ConnectionPermit>)
        ensures
            routed_as(*guard, *request, old(self)@, routed, final(self)@),
    {
        let permit = guard.try_acquire();
        let upgrade = ws::is_upgrade_request(request);
        self.route(permit, upgrade)
    }
}

/// The treatment follows from what the limit and the request say.
pub open spec fn routed_as<B>(
    guard: ConnectionGuard,
    request: HttpRequest<B>,
    id: u32,
    routed: Route<ConnectionPermit>,
    next: u32,
) -> bool {
    exists|permit: Option<ConnectionPermit>, upgrade: bool|
        (#[trigger] call_ensures(ConnectionGuard::try_acquire, (&guard,), permit)) && (
        #[trigger] call_ensures(ws::is_upgrade_request::<B>, (&request,), upgrade)) && (
        routed,
        next,
    ) == routing(permit, upgrade, id)
}

impl<P> Route<P> {
    /// The response to a request that is not served: its status is 429 where there is no place, and
    /// 403 where a WebSocket is asked for.
    pub fn rejection(&self) -> (rejected: Option<HttpResponse>)
        ensures
            match *self {
                Route::Serve { .. } => rejected is None,
                Route::TooManyRequests => rejected matches Some(answer) && status_is(answer, 429)
                    && call_ensures(response::too_many_requests, (), answer),
                Route::Denied => rejected matches Some(answer) && status_is(answer, 403)
                    && call_ensures(response::denied, (), answer),
            },
    {
        match self {
            Route::Serve { .. } => None,
            Route::TooManyRequests => Some(response::too_many_requests()),
            Route::Denied => Some(response::denied()),
        }
    }
}

} // verus!
