//! What calls on connections come to, by what goes in and what comes out.
use crate::connection::{
    connection_guard, listener_action, status_is, ConnectionIds, ListenerAction, ListenerEvent,
    Route,
};
use jsonrpsee::server::{ws, ConnectionGuard, ConnectionPermit, HttpRequest, HttpResponse};
use vstd::prelude::*;

verus! {

/// The server stops listening exactly when it is being stopped, and serves every connection that
/// it accepts.
pub proof fn law_listener_goes_on_until_stopped(event: ListenerEvent, action: ListenerAction)
    requires
        call_ensures(listener_action, (event,), action),
    ensures
        action is Close <==> event is Stopping,
        action is Serve <==> event is Accepted,
        action is Retry <==> event is AcceptFailed,
{
}

/// The limit of the server has as many places as a limit can have.
pub proof fn law_limit_is_the_highest(guard: ConnectionGuard)
    requires
        call_ensures(connection_guard, (), guard),
    ensures
        call_ensures(ConnectionGuard::new, ((usize::MAX / 8) as usize,), guard),
{
}

/// The request was treated by whether it found a place and asks for a WebSocket: it is served with
/// its place, under the next number, where it found one and asks for none, and only then is that
/// number used up. After the last number comes zero.
pub open spec fn is_treated<P>(
    permit: Option<P>,
    upgrade: bool,
    id: u32,
    routed: Route<P>,
    next: u32,
) -> bool {
    &&& routed is TooManyRequests <==> permit is None
    &&& routed is Denied <==> permit is Some && upgrade
    &&& routed matches Route::Serve { permit: place, conn_id } ==> {
        &&& permit == Some(place)
        &&& conn_id == id
        &&& next == id + 1 || (id == 0xffff_ffff && next == 0)
    }
    &&& !(routed is Serve) ==> next == id
}

/// Numbers begin with zero.
pub proof fn law_numbers_begin_with_zero(ids: ConnectionIds)
    requires
        call_ensures(ConnectionIds::new, (), ids),
    ensures
        ids@ == 0,
{
}

/// A request is served where there is a place for it and it asks for no WebSocket.
pub proof fn law_request_is_served_where_there_is_a_place<P>(
    ids: &mut ConnectionIds,
    permit: Option<P>,
    upgrade: bool,
    routed: Route<P>,
)
    requires
        call_ensures(ConnectionIds::route::<P>, (ids, permit, upgrade), routed),
    ensures
        is_treated(permit, upgrade, old(ids)@, routed, final(ids)@),
{
}

/// How a request is treated follows from what the limit and the request itself say.
pub proof fn law_limit_and_request_decide<B>(
    ids: &mut ConnectionIds,
    guard: ConnectionGuard,
    request: HttpRequest<B>,
    routed: Route<ConnectionPermit>,
)
    requires
        call_ensures(ConnectionIds::route_request::<B>, (ids, &guard, &request), routed),
    ensures
        exists|permit: Option<ConnectionPermit>, upgrade: bool|
            (#[trigger] call_ensures(ConnectionGuard::try_acquire, (&guard,), permit)) && (
            #[trigger] call_ensures(ws::is_upgrade_request::<B>, (&request,), upgrade))
                && is_treated(permit, upgrade, old(ids)@, routed, final(ids)@),
{
}

/// A request that is not served is answered: with status 429 where there is no place for it, and
/// with status 403 where it asks for a WebSocket. One that is served is not answered here.
pub proof fn law_request_that_is_not_served_is_answered<P>(
    routed: Route<P>,
    rejected: Option<HttpResponse>,
)
    requires
        call_ensures(Route::<P>::rejection, (&routed,), rejected),
    ensures
        rejected is None <==> routed is Serve,
        routed is TooManyRequests ==> has_status(rejected->Some_0, 429),
        routed is Denied ==> has_status(rejected->Some_0, 403),
{
    if let Some(answer) = rejected {
        assert(status_is(answer, 429) ==> has_status(answer, 429));
        assert(status_is(answer, 403) ==> has_status(answer, 403));
    }
}

/// The number of the status of the response, whenever it is asked for.
pub open spec fn has_status(response: HttpResponse, number: u16) -> bool {
    forall|status: http::StatusCode, n: u16|
        (#[trigger] call_ensures(http::Response::status, (&response,), status)) && (
        #[trigger] call_ensures(http::StatusCode::as_u16, (&status,), n)) ==> n == number
}

/// Every event, request and treatment is dealt with.
pub proof fn law_connections_are_always_dealt_with<P, B>(
    event: ListenerEvent,
    ids: &mut ConnectionIds,
    permit: Option<P>,
    upgrade: bool,
    guard: ConnectionGuard,
    request: HttpRequest<B>,
    routed: Route<P>,
)
    ensures
        call_requires(listener_action, (event,)),
        call_requires(connection_guard, ()),
        call_requires(ConnectionIds::new, ()),
        call_requires(ConnectionIds::route::<P>, (ids, permit, upgrade)),
        call_requires(ConnectionIds::route_request::<B>, (ids, &guard, &request)),
        call_requires(Route::<P>::rejection, (&routed,)),
{
}

} // verus!
