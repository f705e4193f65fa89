use measurement_service::entry::Readings;
use measurement_service::error::ServiceError;
use measurement_service::field_map::FieldMap;
use measurement_service::measurement_handler::{
    process_display_name, stop_signal, MeasurementHandler, Output, ProcessInfo, StopSignal,
};
use measurement_service::session::{MeasurementSession, SessionEvent};
use measurement_service::timestamp::Timestamp;
use tokio::sync::mpsc::error::TrySendError;

fn process(executable: Option<&str>, name: &str) -> Option<ProcessInfo> {
    Some(ProcessInfo {
        executable: executable.map(|e| e.to_string()),
        name: name.to_string(),
    })
}

fn handler(output_path: Option<&str>, summary: bool) -> MeasurementHandler {
    MeasurementHandler::new(
        42,
        &output_path.map(|p| p.to_string()),
        &";".to_string(),
        summary,
        process(Some("bench"), "worker"),
    )
}

fn at(secs: i64) -> Timestamp {
    Timestamp { secs, nanos: 0 }
}

/// Ends the session of a handler, which had no readings.
fn end(handler: &mut MeasurementHandler) {
    let start = Timestamp { secs: 0, nanos: 0 };
    let mut session = MeasurementSession::of(handler, 1, start, FieldMap::new()).unwrap();
    session.step(SessionEvent::HeaderWritten);
    session.step(SessionEvent::Stop);
    assert_eq!(session.conclude(handler, false, "0", "0"), None);
}

fn no_readings() -> Readings {
    FieldMap::new()
}

#[test]
fn process_goes_by_its_executable_else_by_its_name() {
    assert_eq!(process_display_name(process(Some("bench"), "worker")), "bench");
    assert_eq!(process_display_name(process(None, "worker")), "worker");
    assert_eq!(process_display_name(None), "UNKNOWN_PROCESS_NAME");
}

#[test]
fn rows_go_to_a_file_named_after_process_function_and_start() {
    let handler = handler(Some("out/run"), false);
    assert_eq!(
        handler.get_output(&"sort".to_string(), 1_700_000_000_123),
        Output::File("out/run_bench_sort_1700000000123".to_string())
    );
}

#[test]
fn rows_go_to_standard_output_without_a_path() {
    assert_eq!(handler(None, false).get_output(&"sort".to_string(), 0), Output::Stdout);
}

#[test]
fn header_and_rows_begin_with_process_and_function() {
    let handler = handler(None, false);
    let header = handler.print_header(&"sort".to_string(), 5);
    assert_eq!(header.text, "Application;Function;");
    assert_eq!(header.output, Output::Stdout);
    let row = handler.print_results(&"sort".to_string(), 5);
    assert_eq!(row.text, "bench;sort;");
    assert_eq!(row.output, Output::Stdout);
    assert_eq!(handler.sep(), ";");
}

#[test]
fn session_begins_once() {
    let mut handler = handler(None, false);
    assert!(!handler.is_currently_measuring());
    assert!(handler.begin_measurement("sort".to_string()).is_ok());
    assert!(handler.is_currently_measuring());
    assert_eq!(
        handler.begin_measurement("search".to_string()).err(),
        Some("A measurement session is already ongoing for pid: 42.".to_string())
    );
    assert!(handler.check_stop(&"sort".to_string()).is_ok());
}

#[test]
fn stop_signal_arrives_at_the_session() {
    let mut handler = handler(None, false);
    let mut stop = handler.begin_measurement("sort".to_string()).unwrap();
    assert!(stop.try_recv().is_err());
    assert_eq!(handler.stop_measurement(&"sort".to_string()), Ok(StopSignal::Sent));
    assert_eq!(stop.try_recv(), Ok(()));
    assert!(stop.try_recv().is_err());
}

#[test]
fn channel_holds_one_stop_signal() {
    let mut handler = handler(None, false);
    let stop = handler.begin_measurement("sort".to_string()).unwrap();
    assert_eq!(stop.max_capacity(), 1);
    assert_eq!(handler.stop_measurement(&"sort".to_string()), Ok(StopSignal::Sent));
    assert_eq!(handler.stop_measurement(&"sort".to_string()), Ok(StopSignal::Failed));
}

#[test]
fn stop_signal_fails_where_the_session_is_gone() {
    let mut handler = handler(None, false);
    drop(handler.begin_measurement("sort".to_string()).unwrap());
    assert_eq!(handler.stop_measurement(&"sort".to_string()), Ok(StopSignal::Failed));
}

#[test]
fn delivery_decides_what_becomes_of_the_signal() {
    assert_eq!(stop_signal(Ok(())), StopSignal::Sent);
    assert_eq!(stop_signal(Err(TrySendError::Full(()))), StopSignal::Failed);
    assert_eq!(stop_signal(Err(TrySendError::Closed(()))), StopSignal::Failed);
}

#[test]
fn stop_without_a_session_is_refused() {
    let mut handler = handler(None, false);
    let function = "sort".to_string();
    assert_eq!(handler.stop_measurement(&function), Err(ServiceError::NotMeasuring { pid: 42 }));
    let _stop = handler.begin_measurement(function.clone()).unwrap();
    end(&mut handler);
    assert_eq!(handler.stop_measurement(&function), Err(ServiceError::NotMeasuring { pid: 42 }));
}

#[test]
fn stop_of_another_function_is_refused() {
    let mut handler = handler(None, false);
    let mut stop = handler.begin_measurement("sort".to_string()).unwrap();
    assert_eq!(
        handler.stop_measurement(&"search".to_string()),
        Err(ServiceError::OtherFunction { function: "sort".to_string() })
    );
    assert!(stop.try_recv().is_err());
    assert!(handler.is_currently_measuring());
    assert_eq!(handler.stop_measurement(&"sort".to_string()), Ok(StopSignal::Sent));
    assert_eq!(stop.try_recv(), Ok(()));
}

#[test]
fn results_come_once_the_session_has_ended() {
    let mut handler = handler(None, false);
    let _stop = handler.begin_measurement("sort".to_string()).unwrap();
    handler.process_last_measurement(at(1), at(2), &no_readings());
    handler.process_last_measurement(at(3), at(4), &no_readings());
    assert!(handler.results_once_stopped().is_none());
    end(&mut handler);
    let results = handler.results_once_stopped().unwrap();
    assert_eq!(results.len(), 2);
    assert_eq!(handler.results_once_stopped().unwrap().len(), 2);
}

#[test]
fn next_session_forgets_the_results_before() {
    let mut handler = handler(None, false);
    let _first = handler.begin_measurement("sort".to_string()).unwrap();
    handler.process_last_measurement(at(1), at(2), &no_readings());
    end(&mut handler);
    let _second = handler.begin_measurement("search".to_string()).unwrap();
    end(&mut handler);
    assert_eq!(handler.results_once_stopped().unwrap().len(), 0);
}
