use measurement_service::entry::{MeasurementEntryValue, Readings};
use measurement_service::field_map::FieldMap;
use measurement_service::measurement_handler::{Line, MeasurementHandler, Output};
use measurement_service::session::{MeasurementSession, Phase, SessionEvent};
use measurement_service::timestamp::Timestamp;

fn at(secs: i64) -> Timestamp {
    Timestamp { secs, nanos: 0 }
}

fn readings(value: f64) -> Readings {
    let mut readings: Readings = FieldMap::new();
    readings.insert("CPU".to_string(), value.to_bits());
    readings
}

/// The session that was begun with `handler`, past its header.
fn session(handler: &MeasurementHandler, first: Readings) -> MeasurementSession {
    let mut session = MeasurementSession::of(handler, 1_000, at(100), first).unwrap();
    session.step(SessionEvent::HeaderWritten);
    session
}

/// A handler whose session measures `sort`.
fn measuring(summary: bool) -> MeasurementHandler {
    let mut handler =
        MeasurementHandler::new(42, &Some("out".to_string()), &",".to_string(), summary, None);
    handler.begin_measurement("sort".to_string()).unwrap();
    handler
}

fn summarised(session: &MeasurementSession) -> SessionEvent {
    SessionEvent::Summarised {
        previous_time: session.previous_time(),
        results: session.results().clone(),
        previous_results: session.previous_results().clone(),
    }
}

fn cpu(handler: &MeasurementHandler, index: usize) -> f64 {
    let results = handler.results_once_stopped().unwrap();
    let field = results[index].fields().iter().find(|field| field.0 == "CPU").unwrap();
    match field.1 {
        MeasurementEntryValue::Measurement(bits) => f64::from_bits(bits),
        _ => panic!("not a measurement"),
    }
}

#[test]
fn session_starts_with_its_first_sample() {
    let handler = measuring(false);
    let mut session = MeasurementSession::of(&handler, 1_000, at(100), readings(1.0)).unwrap();
    assert_eq!(session.phase(), Phase::Header);
    assert_eq!(session.start_time(), 100_000);
    assert_eq!(session.interval(), 1_000);
    assert_eq!(session.function_name(), "sort");
    assert_eq!(session.previous_time(), at(100));
    assert_eq!(session.results().fields(), session.previous_results().fields());
    session.step(SessionEvent::HeaderWritten);
    assert_eq!(session.phase(), Phase::Poll);
}

#[test]
fn round_reports_records_collects_and_sleeps() {
    let mut handler = measuring(false);
    let mut session = session(&handler, readings(1.0));
    session.step(SessionEvent::Tick);
    assert_eq!(session.phase(), Phase::Report);
    session.step(summarised(&session));
    assert_eq!(session.phase(), Phase::Record);
    session.record(&mut handler, at(101));
    assert_eq!(session.phase(), Phase::Collect);
    session.step(SessionEvent::Collected { at: at(102), results: readings(2.0), elapsed: 400 });
    assert_eq!(session.phase(), Phase::Sleep(600));
    assert_eq!(session.previous_time(), at(102));
    assert_eq!(session.previous_results().fields(), readings(1.0).fields());
    assert_eq!(session.results().fields(), readings(2.0).fields());
    session.step(SessionEvent::Slept);
    assert_eq!(session.phase(), Phase::Poll);
}

#[test]
fn round_that_takes_the_whole_interval_does_not_sleep() {
    let mut handler = measuring(false);
    let mut session = session(&handler, readings(1.0));
    session.step(SessionEvent::Tick);
    session.step(summarised(&session));
    session.record(&mut handler, at(101));
    session.step(SessionEvent::Collected { at: at(102), results: readings(2.0), elapsed: 1_000 });
    assert_eq!(session.phase(), Phase::Sleep(0));
}

#[test]
fn stop_records_the_last_readings() {
    let mut handler = measuring(false);
    let mut session = session(&handler, readings(1.0));
    session.step(SessionEvent::Tick);
    session.step(summarised(&session));
    session.record(&mut handler, at(101));
    session.step(SessionEvent::Collected { at: at(102), results: readings(2.0), elapsed: 0 });
    session.step(SessionEvent::Stop);
    assert_eq!(session.phase(), Phase::LastReport);
    session.step(SessionEvent::Summarised {
        previous_time: at(103),
        results: readings(2.0),
        previous_results: readings(2.0),
    });
    assert_eq!(session.phase(), Phase::LastRecord);
    session.record(&mut handler, at(104));
    assert_eq!(session.phase(), Phase::Conclude { measured: true });
    assert!(session.conclude(&mut handler, true, "1", "2").is_none());
    assert_eq!(handler.results_once_stopped().unwrap().len(), 2);
    assert_eq!(cpu(&handler, 0), 1.0);
    assert_eq!(cpu(&handler, 1), 2.0);
}

#[test]
fn stop_before_recording_skips_the_record_of_the_round() {
    let mut handler = measuring(false);
    let mut session = session(&handler, readings(1.0));
    session.step(SessionEvent::Tick);
    session.step(summarised(&session));
    session.step(SessionEvent::Stop);
    assert_eq!(session.phase(), Phase::LastReport);
    session.step(summarised(&session));
    session.record(&mut handler, at(101));
    assert!(session.conclude(&mut handler, true, "1", "2").is_none());
    assert_eq!(handler.results_once_stopped().unwrap().len(), 1);
}

#[test]
fn session_without_readings_ends_at_once() {
    let mut handler = measuring(true);
    let mut session = session(&handler, FieldMap::new());
    session.step(SessionEvent::Stop);
    assert_eq!(session.phase(), Phase::Conclude { measured: false });
    assert!(session.conclude(&mut handler, true, "12.5", "3").is_none());
    assert!(!handler.is_currently_measuring());
    assert_eq!(handler.results_once_stopped().unwrap().len(), 0);
}

/// What a session with readings closes with.
fn closing_line(summary: bool, positive: bool) -> Option<Line> {
    let mut handler = measuring(summary);
    let mut session = session(&handler, readings(1.0));
    session.step(SessionEvent::Stop);
    session.step(summarised(&session));
    session.record(&mut handler, at(101));
    let line = session.conclude(&mut handler, positive, "12.5", "3");
    assert!(!handler.is_currently_measuring());
    line
}

#[test]
fn energy_is_summed_up_where_asked_for_and_consumed() {
    assert_eq!(
        closing_line(true, true),
        Some(Line {
            output: Output::Stdout,
            text: "Energy consumption in joules: 12.5 for 3 sec of execution for application UNKNOWN_PROCESS_NAME with function sort."
                .to_string()
        })
    );
    assert_eq!(closing_line(true, false), None);
    assert_eq!(closing_line(false, true), None);
}

#[test]
fn session_is_of_the_function_that_was_begun() {
    let mut handler = MeasurementHandler::new(42, &None, &",".to_string(), false, None);
    assert!(MeasurementSession::of(&handler, 1_000, at(100), readings(1.0)).is_none());
    assert!(handler.current_fn_measured().is_none());
    handler.begin_measurement("search".to_string()).unwrap();
    let session = MeasurementSession::of(&handler, 1_000, at(100), readings(1.0)).unwrap();
    assert_eq!(session.function_name(), "search");
    assert_eq!(handler.current_fn_measured(), Some(&"search".to_string()));
}

#[test]
fn session_writes_as_many_rows_as_it_records_entries() {
    let mut handler = measuring(false);
    let mut session = session(&handler, readings(1.0));
    let mut rows = 0;
    for round in 0..3 {
        session.step(SessionEvent::Tick);
        session.step(summarised(&session));
        rows += 1;
        session.record(&mut handler, at(200));
        session.step(SessionEvent::Collected {
            at: at(101 + round),
            results: readings(2.0),
            elapsed: 1,
        });
        session.step(SessionEvent::Slept);
        assert_eq!(session.phase(), Phase::Poll);
    }
    session.step(SessionEvent::Stop);
    session.step(summarised(&session));
    rows += 1;
    session.record(&mut handler, at(200));
    assert_eq!(session.phase(), Phase::Conclude { measured: true });
    assert!(session.conclude(&mut handler, true, "1", "2").is_none());
    assert_eq!(handler.results_once_stopped().unwrap().len(), rows);
}

#[test]
fn header_and_rows_have_one_destination() {
    let handler = measuring(false);
    let session = session(&handler, readings(1.0));
    let header = handler.print_header(session.function_name(), session.start_time());
    let row = handler.print_results(session.function_name(), session.start_time());
    assert_eq!(header.output, row.output);
}
