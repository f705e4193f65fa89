use measurement_service::entry::{
    measurement_entry, MeasurementEntry, MeasurementEntryValue, Readings, WireValue,
};
use measurement_service::field_map::FieldMap;
use measurement_service::text::decimal_text;
use measurement_service::timestamp::Timestamp;

fn readings(values: &[(&str, f64)]) -> Readings {
    let mut readings: Readings = FieldMap::new();
    for (name, value) in values {
        readings.insert(name.to_string(), value.to_bits());
    }
    readings
}

fn value<'a>(entry: &'a MeasurementEntry, name: &str) -> Option<&'a MeasurementEntryValue> {
    entry.fields().iter().find(|field| field.0 == name).map(|field| &field.1)
}

#[test]
fn entry_has_time_delta_and_readings() {
    let sampled = Timestamp { secs: 10, nanos: 900_000_000 };
    let now = Timestamp { secs: 11, nanos: 150_999_999 };
    let entry = measurement_entry(sampled, now, &readings(&[("CPU", 1.5), ("GPU", -2.0)]));
    assert_eq!(entry.fields().len(), 4);
    assert_eq!(value(&entry, "TIME"), Some(&MeasurementEntryValue::Time(sampled)));
    assert_eq!(value(&entry, "DELTA"), Some(&MeasurementEntryValue::Delta(250)));
    assert_eq!(
        value(&entry, "CPU"),
        Some(&MeasurementEntryValue::Measurement(1.5f64.to_bits()))
    );
    assert_eq!(
        value(&entry, "GPU"),
        Some(&MeasurementEntryValue::Measurement((-2.0f64).to_bits()))
    );
}

#[test]
fn entry_of_no_readings_has_time_and_delta() {
    let now = Timestamp { secs: 0, nanos: 0 };
    let entry = measurement_entry(now, now, &readings(&[]));
    assert_eq!(entry.fields().len(), 2);
    assert_eq!(value(&entry, "DELTA"), Some(&MeasurementEntryValue::Delta(0)));
}

#[test]
fn reading_called_delta_takes_the_place_of_the_delay() {
    let now = Timestamp { secs: 5, nanos: 0 };
    let entry = measurement_entry(now, now, &readings(&[("DELTA", 3.0)]));
    assert_eq!(entry.fields().len(), 2);
    assert_eq!(
        value(&entry, "DELTA"),
        Some(&MeasurementEntryValue::Measurement(3.0f64.to_bits()))
    );
}

#[test]
fn order_of_readings_does_not_matter() {
    let now = Timestamp { secs: 5, nanos: 0 };
    let left = measurement_entry(now, now, &readings(&[("A", 1.0), ("B", 2.0)]));
    let right = measurement_entry(now, now, &readings(&[("B", 2.0), ("A", 1.0)]));
    for field in left.fields() {
        assert_eq!(value(&right, &field.0), Some(&field.1));
    }
    assert_eq!(left.fields().len(), right.fields().len());
}

#[test]
fn later_value_of_a_name_wins() {
    let mut map: Readings = FieldMap::new();
    assert!(map.is_empty());
    map.insert("A".to_string(), 1);
    map.insert("B".to_string(), 2);
    map.insert("A".to_string(), 3);
    assert!(!map.is_empty());
    assert_eq!(map.fields(), &vec![("A".to_string(), 3), ("B".to_string(), 2)]);
    assert_eq!(map.clone().fields(), map.fields());
}

#[test]
fn time_is_sent_in_whole_milliseconds() {
    let time = Timestamp { secs: 1_700_000_000, nanos: 123_999_999 };
    assert_eq!(
        MeasurementEntryValue::Time(time).serialize(),
        WireValue::Integer(1_700_000_000_123)
    );
}

#[test]
fn other_values_are_sent_as_they_are() {
    assert_eq!(
        MeasurementEntryValue::FunctionName("main".to_string()).serialize(),
        WireValue::Text("main".to_string())
    );
    assert_eq!(
        MeasurementEntryValue::Measurement(0.25f64.to_bits()).serialize(),
        WireValue::Float(0.25f64.to_bits())
    );
    assert_eq!(MeasurementEntryValue::Delta(u128::MAX).serialize(), WireValue::Integer(u128::MAX));
}

#[test]
fn values_are_copied_unchanged() {
    let values = vec![
        MeasurementEntryValue::Time(Timestamp { secs: -1, nanos: 7 }),
        MeasurementEntryValue::FunctionName("f".to_string()),
        MeasurementEntryValue::Measurement(9),
        MeasurementEntryValue::Delta(11),
    ];
    assert_eq!(values.clone(), values);
}

#[test]
fn timestamps_are_ordered_across_the_epoch() {
    let before = Timestamp { secs: -1, nanos: 999_999_999 };
    let epoch = Timestamp { secs: 0, nanos: 0 };
    assert!(before.not_after(&epoch));
    assert!(!epoch.not_after(&before));
    assert!(epoch.not_after(&epoch));
    assert!(!before.at_or_after_epoch());
    assert!(epoch.at_or_after_epoch());
    assert_eq!(Timestamp { secs: -2, nanos: 0 }.millis_until(&epoch), 2000);
    assert_eq!(before.millis_until(&epoch), 0);
    assert_eq!(
        Timestamp { secs: i64::MIN, nanos: 0 }.millis_until(&Timestamp {
            secs: i64::MAX,
            nanos: u32::MAX
        }),
        18_446_744_073_709_551_615_000 + 4_294
    );
}

#[test]
fn decimal_notation_of_numbers() {
    for number in [0u128, 7, 10, 99, 100, 4_294_967_295, u128::MAX] {
        assert_eq!(decimal_text(number), number.to_string());
    }
}
