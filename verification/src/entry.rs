//! Recorded measurements.
use crate::field_map::{fields_map, FieldMap};
use crate::timestamp::{Timestamp, NANOS_PER_MILLI};
use vstd::prelude::*;

verus! {

/// One value of a recorded entry. A measured quantity is a floating-point number; it is carried as
/// its IEEE 754 bit pattern and never interpreted.
#[derive(Debug, PartialEq, Eq)]
pub enum MeasurementEntryValue {
    Time(Timestamp),
    FunctionName(String),
    Measurement(u64),
    Delta(u128),
}

/// What a value looks like when it is sent to a client.
#[derive(Debug, PartialEq, Eq)]
pub enum WireValue {
    /// A whole number.
    Integer(u128),
    /// A string.
    Text(String),
    /// A floating-point number, as its IEEE 754 bit pattern.
    Float(u64),
}

/// Named readings of one sample, each as an IEEE 754 bit pattern.
pub type Readings = FieldMap<u64>;

/// The named values recorded at one point of a session.
pub type MeasurementEntry = FieldMap<MeasurementEntryValue>;

/// The entries recorded in a session, oldest first.
pub type Measurements = Vec<MeasurementEntry>;

impl Clone for MeasurementEntryValue {
    fn clone(&self) -> (copy: Self)
        ensures
            copy == *self,
    {
        match self {
            MeasurementEntryValue::Time(time) => MeasurementEntryValue::Time(*time),
            MeasurementEntryValue::FunctionName(name) => MeasurementEntryValue::FunctionName(
                name.clone(),
            ),
            MeasurementEntryValue::Measurement(bits) => MeasurementEntryValue::Measurement(*bits),
            MeasurementEntryValue::Delta(delta) => MeasurementEntryValue::Delta(*delta),
        }
    }
}

impl MeasurementEntryValue {
    /// Whether the value has a wire form. Only a time before the Unix epoch has none.
    pub open spec fn sendable(self) -> bool {
        self matches MeasurementEntryValue::Time(time) ==> time.since_epoch() >= 0
    }

    /// The wire form of the value: a time is sent as whole milliseconds since the Unix epoch, every
    /// other value as it is.
    pub fn serialize(&self) -> (wire: WireValue)
        requires
            self.sendable(),
        ensures
            match *self {
                MeasurementEntryValue::Time(time) => wire matches WireValue::Integer(millis)
                    && millis == time.since_epoch() / NANOS_PER_MILLI as int,
                MeasurementEntryValue::FunctionName(name) => wire == WireValue::Text(name),
                MeasurementEntryValue::Measurement(bits) => wire == WireValue::Float(bits),
                MeasurementEntryValue::Delta(delta) => wire == WireValue::Integer(delta),
            },
    {
        match self {
            MeasurementEntryValue::Time(time) => WireValue::Integer(time.epoch_millis()),
            MeasurementEntryValue::FunctionName(name) => WireValue::Text(name.clone()),
            MeasurementEntryValue::Measurement(bits) => WireValue::Float(*bits),
            MeasurementEntryValue::Delta(delta) => WireValue::Integer(*delta),
        }
    }
}

/// What an entry holds: the time of the sample, the milliseconds since then, and the readings. A
/// reading that is itself called `TIME` or `DELTA` takes the place of that field.
pub open spec fn entry_map(
    time: Timestamp,
    delta: u128,
    readings: Map<Seq<char>, u64>,
) -> Map<Seq<char>, MeasurementEntryValue> {
    Map::<Seq<char>, MeasurementEntryValue>::empty().insert(
        "TIME"@,
        MeasurementEntryValue::Time(time),
    ).insert("DELTA"@, MeasurementEntryValue::Delta(delta)).union_prefer_right(
        readings.map_values(|bits: u64| MeasurementEntryValue::Measurement(bits)),
    )
}

/// Milliseconds from a sample to the moment it is recorded, rounded down.
pub open spec fn delta_millis(sampled: Timestamp, now: Timestamp) -> u128 {
    ((now.since_epoch() - sampled.since_epoch()) / NANOS_PER_MILLI as int) as u128
}

/// The entry for readings sampled at `sampled` and recorded at `now`.
pub fn measurement_entry(sampled: Timestamp, now: Timestamp, readings: &Readings) -> (entry:
    MeasurementEntry)
    requires
        sampled.since_epoch() <= now.since_epoch(),
    ensures
        entry@ == entry_map(sampled, delta_millis(sampled, now), readings@),
{
    let mut entry: MeasurementEntry = FieldMap::new();
    entry.insert("TIME".to_string(), MeasurementEntryValue::Time(sampled));
    entry.insert("DELTA".to_string(), MeasurementEntryValue::Delta(sampled.millis_until(&now)));
    let fields = readings.fields();
    let ghost stamped = entry@;
    let ghost measured = |bits: u64| MeasurementEntryValue::Measurement(bits);
    let mut index: usize = 0;
    proof {
        assert(entry@ =~= stamped.union_prefer_right(
            fields_map(fields@.take(0)).map_values(measured),
        ));
    }
    while index < fields.len()
        invariant
            index <= fields@.len(),
            measured == (|bits: u64| MeasurementEntryValue::Measurement(bits)),
            entry@ == stamped.union_prefer_right(
                fields_map(fields@.take(index as int)).map_values(measured),
            ),
        decreases fields@.len() - index,
    {
        entry.insert(fields[index].0.clone(), MeasurementEntryValue::Measurement(fields[index].1));
        proof {
            assert(fields@.take(index + 1).drop_last() == fields@.take(index as int));
            assert(entry@ =~= stamped.union_prefer_right(
                fields_map(fields@.take(index + 1)).map_values(measured),
            ));
        }
        index = index + 1;
    }
    proof {
        assert(fields@.take(index as int) == fields@);
    }
    entry
}

} // verus!
