use jsonrpsee::server::{ConnectionGuard, HttpRequest};
use measurement_service::connection::{
    connection_guard, listener_action, ConnectionIds, ListenerAction, ListenerEvent, Route,
    LISTEN_ADDRESS,
};
use measurement_service::entry::Readings;
use measurement_service::error::ServiceError;
use measurement_service::field_map::FieldMap;
use measurement_service::measurement_handler::{MeasurementHandler, ProcessInfo, StopSignal};
use measurement_service::server::{
    session_result, HandlerChoice, Launch, MeasurementRpcServer, Start,
};
use measurement_service::session::{MeasurementSession, SessionEvent};
use measurement_service::timestamp::Timestamp;

/// A server whose handler at hand is known by the process it is for.
fn server() -> MeasurementRpcServer<u32> {
    MeasurementRpcServer::new(true, 200_000_000, ",", Some("out".to_string()), true)
}

/// The handler that a start for `pid` puts at hand.
fn started(server: &mut MeasurementRpcServer<u32>, pid: u32) -> MeasurementHandler {
    let Ok(Start::NeedsHandler(vacancy)) = server.start_measurements(pid, "f".to_string(), None)
    else {
        panic!("a handler is needed")
    };
    let mut made = None;
    server.provide_handler(vacancy, process(), |handler| {
        let pid = handler.pid();
        made = Some(handler);
        pid
    });
    made.unwrap()
}

/// Ends the session of a handler, which had no readings.
fn end(handler: &mut MeasurementHandler) {
    let start = Timestamp { secs: 0, nanos: 0 };
    let mut session = MeasurementSession::of(handler, 1, start, FieldMap::new()).unwrap();
    session.step(SessionEvent::HeaderWritten);
    session.step(SessionEvent::Stop);
    assert_eq!(session.conclude(handler, false, "0", "0"), None);
}

fn launch(function: &str) -> Launch {
    Launch {
        reply: true,
        function_name: function.to_string(),
        collect_gpu: true,
        interval: 200_000_000,
    }
}

fn process() -> Option<ProcessInfo> {
    Some(ProcessInfo { executable: None, name: "worker".to_string() })
}

fn plain_request() -> HttpRequest<()> {
    HttpRequest::<()>::builder().body(()).unwrap()
}

fn websocket_request() -> HttpRequest<()> {
    HttpRequest::<()>::builder()
        .header("Connection", "keep-alive, Upgrade")
        .header("Upgrade", "websocket")
        .body(())
        .unwrap()
}

#[test]
fn server_keeps_its_settings() {
    let server = server();
    assert!(server.measurement_handler().is_none());
    let handler = server.create_handler(7, process());
    assert_eq!(handler.pid(), 7);
    assert_eq!(handler.sep(), ",");
    assert!(handler.summary());
    assert_eq!(handler.print_results(&"f".to_string(), 9).text, "worker,f,");
}

#[test]
fn first_start_makes_a_handler() {
    let mut server = server();
    assert_eq!(server.get_handler(7, None), Ok(HandlerChoice::Create));
    let Ok(Start::NeedsHandler(vacancy)) = server.start_measurements(7, "f".to_string(), None)
    else {
        panic!("a handler is needed")
    };
    assert!(server.measurement_handler().is_none());
    let launched = server.provide_handler(vacancy, process(), |handler| {
        assert_eq!(handler.print_results(&"f".to_string(), 0).text, "worker,f,");
        handler.pid()
    });
    assert_eq!(launched, launch("f"));
    assert_eq!(server.measurement_handler(), Some(&7));
}

#[test]
fn start_while_measuring_is_refused_for_every_process() {
    let mut server = server();
    let mut running = started(&mut server, 7);
    let _stop = running.begin_measurement("f".to_string()).unwrap();
    for pid in [7, 8] {
        assert_eq!(
            server.get_handler(pid, Some(&running)),
            Err(ServiceError::InProgress { pid: 7 })
        );
        assert_eq!(
            server.start_measurements(pid, "f".to_string(), Some(&running)).err(),
            Some(ServiceError::InProgress { pid: 7 })
        );
    }
    assert_eq!(server.measurement_handler(), Some(&7));
}

#[test]
fn idle_handler_serves_its_own_process_again() {
    let server = server();
    let mut idle = server.create_handler(7, None);
    let _stop = idle.begin_measurement("f".to_string()).unwrap();
    end(&mut idle);
    assert_eq!(server.get_handler(7, Some(&idle)), Ok(HandlerChoice::Reuse));
    assert_eq!(server.get_handler(8, Some(&idle)), Ok(HandlerChoice::Create));
}

#[test]
fn start_for_the_same_process_keeps_the_handler() {
    let mut server = server();
    let idle = started(&mut server, 7);
    match server.start_measurements(7, "g".to_string(), Some(&idle)) {
        Ok(Start::Launch(launched)) => assert_eq!(launched, launch("g")),
        _ => panic!("the handler at hand serves"),
    }
    assert_eq!(server.measurement_handler(), Some(&7));
}

#[test]
fn start_for_another_process_replaces_the_handler() {
    let mut server = server();
    let idle = started(&mut server, 7);
    let Ok(Start::NeedsHandler(vacancy)) =
        server.start_measurements(8, "g".to_string(), Some(&idle))
    else {
        panic!("a handler is needed")
    };
    assert_eq!(server.provide_handler(vacancy, None, |handler| handler.pid()), launch("g"));
    assert_eq!(server.measurement_handler(), Some(&8));
}

#[test]
fn handlers_keep_their_results_apart() {
    let server = server();
    let now = Timestamp { secs: 1, nanos: 0 };
    let readings: Readings = FieldMap::new();
    let mut first = server.create_handler(7, None);
    let mut second = server.create_handler(8, None);
    let _first_stop = first.begin_measurement("f".to_string()).unwrap();
    let _second_stop = second.begin_measurement("g".to_string()).unwrap();
    first.process_last_measurement(now, now, &readings);
    second.process_last_measurement(now, now, &readings);
    first.process_last_measurement(now, now, &readings);
    end(&mut first);
    assert_eq!(first.results_once_stopped().unwrap().len(), 2);
    assert!(second.results_once_stopped().is_none());
    end(&mut second);
    assert_eq!(second.results_once_stopped().unwrap().len(), 1);
    assert_eq!(first.results_once_stopped().unwrap().len(), 2);
}

#[test]
fn stop_for_an_unknown_process_is_refused() {
    let mut server = server();
    let function = "f".to_string();
    assert_eq!(
        server.stop_measurements(9, &function, None),
        Err(ServiceError::UnknownProcess { pid: 9 })
    );
    let mut running = started(&mut server, 7);
    let mut stop = running.begin_measurement(function.clone()).unwrap();
    assert_eq!(
        server.stop_measurements(9, &function, Some(&mut running)),
        Err(ServiceError::UnknownProcess { pid: 9 })
    );
    assert!(stop.try_recv().is_err());
    assert!(running.is_currently_measuring());
    assert_eq!(
        server.stop_measurements(7, &function, Some(&mut running)),
        Ok(StopSignal::Sent)
    );
}

#[test]
fn of_two_stops_one_is_refused() {
    let mut server = server();
    let function = "f".to_string();
    let mut running = started(&mut server, 7);
    assert_eq!(
        server.stop_measurements(7, &function, Some(&mut running)),
        Err(ServiceError::NotMeasuring { pid: 7 })
    );
    let mut stop = running.begin_measurement(function.clone()).unwrap();
    assert_eq!(
        server.stop_measurements(7, &function, Some(&mut running)),
        Ok(StopSignal::Sent)
    );
    assert_eq!(stop.try_recv(), Ok(()));
    assert!(stop.try_recv().is_err());
    end(&mut running);
    assert!(running.results_once_stopped().is_some());
    assert_eq!(
        server.stop_measurements(7, &function, Some(&mut running)),
        Err(ServiceError::NotMeasuring { pid: 7 })
    );
}

#[test]
fn session_that_cannot_begin_is_reported() {
    assert_eq!(session_result(7, Ok(())), Ok(()));
    assert_eq!(
        session_result(7, Err("x".to_string())),
        Err(ServiceError::SessionFailed { pid: 7, reason: "x".to_string() })
    );
}

#[test]
fn refusals_are_invalid_requests_with_their_text() {
    let expected = vec![
        (
            ServiceError::InProgress { pid: 10 },
            "A measurement is already in progress for pid: 10.",
        ),
        (
            ServiceError::NotMeasuring { pid: 0 },
            "No measurement session is ongoing for pid: 0.",
        ),
        (
            ServiceError::OtherFunction { function: "sort".to_string() },
            "Current measurements involves a different function: sort.",
        ),
        (ServiceError::NoFunction, "No function is currently being measured."),
        (
            ServiceError::UnknownProcess { pid: 4_294_967_295 },
            "No ongoing measurement was made for pid: 4294967295.",
        ),
        (
            ServiceError::SessionFailed { pid: 3, reason: "a reason".to_string() },
            "Measurement session failed for pid: 3 due to a reason",
        ),
    ];
    for (error, text) in expected {
        assert_eq!(error.message(), text);
        let object = error.error_object();
        assert_eq!(object.code(), -32600);
        assert_eq!(object.message(), text);
        assert!(object.data().is_none());
    }
}

#[test]
fn listener_outlives_failures() {
    assert_eq!(listener_action(ListenerEvent::Accepted), ListenerAction::Serve);
    assert_eq!(listener_action(ListenerEvent::AcceptFailed), ListenerAction::Retry);
    assert_eq!(listener_action(ListenerEvent::Stopping), ListenerAction::Close);
    assert_eq!(LISTEN_ADDRESS, [127, 0, 0, 1]);
}

#[test]
fn served_requests_are_numbered_from_zero() {
    let guard = connection_guard();
    let mut ids = ConnectionIds::new();
    for number in 0..3 {
        match ids.route_request(&guard, &plain_request()) {
            Route::Serve { conn_id, .. } => assert_eq!(conn_id, number),
            _ => panic!("not served"),
        }
        assert!(matches!(ids.route_request(&guard, &websocket_request()), Route::Denied));
    }
}

#[test]
fn request_without_a_place_is_turned_away() {
    let guard = ConnectionGuard::new(1);
    let mut ids = ConnectionIds::new();
    let first = ids.route_request(&guard, &plain_request());
    assert!(matches!(first, Route::Serve { conn_id: 0, .. }));
    assert!(matches!(ids.route_request(&guard, &plain_request()), Route::TooManyRequests));
    drop(first);
    assert!(matches!(
        ids.route_request(&guard, &plain_request()),
        Route::Serve { conn_id: 1, .. }
    ));
}

#[test]
fn limit_is_as_high_as_it_can_be() {
    assert_eq!(connection_guard().max_connections(), usize::MAX / 8);
}

#[test]
fn turned_away_requests_get_a_response() {
    let mut ids = ConnectionIds::new();
    let crowded: Route<()> = ids.route(None, false);
    assert_eq!(crowded.rejection().unwrap().status().as_u16(), 429);
    let websocket = ids.route(Some(()), true);
    assert_eq!(websocket.rejection().unwrap().status().as_u16(), 403);
    let served = ids.route(Some(()), false);
    assert!(served.rejection().is_none());
}
