//! What times, entries and refusals come to, by what goes in and what comes out.
use crate::entry::{
    delta_millis, entry_map, measurement_entry, MeasurementEntry, MeasurementEntryValue, Readings,
    WireValue,
};
use crate::error::{error_code_is, error_has_no_data, error_message_is, pid_text, ServiceError};
use crate::field_map::{lemma_fields_map, FieldMap};
use crate::laws::law_entry_holds_the_sample;
use crate::text::{decimal, decimal_text, frames_number, lemma_frames_number};
use crate::timestamp::Timestamp;
use vstd::prelude::*;

verus! {

/// The nanoseconds from `earlier` to `later`: a thousand million for each second and one for each
/// nanosecond between them.
pub open spec fn nanos_between(earlier: Timestamp, later: Timestamp) -> int {
    1_000_000_000 * (later.secs - earlier.secs) + (later.nanos - earlier.nanos)
}

/// `millis` whole milliseconds, and not one more, fit into `nanos` nanoseconds.
pub open spec fn whole_millis(nanos: int, millis: int) -> bool {
    1_000_000 * millis <= nanos < 1_000_000 * (millis + 1)
}

/// Times are counted from the Unix epoch, and a difference of counts is the time in between.
pub proof fn law_times_are_counted_from_the_epoch(one: Timestamp, other: Timestamp)
    ensures
        other.since_epoch() - one.since_epoch() == nanos_between(one, other),
        one.secs == 0 && one.nanos == 0 ==> one.since_epoch() == 0,
{
}

/// Times are ordered by what lies between them, and a time is at or after the epoch where no time
/// is missing up to the epoch.
pub proof fn law_times_are_ordered(one: Timestamp, other: Timestamp, ordered: bool, after: bool)
    requires
        call_ensures(Timestamp::not_after, (&one, &other), ordered),
        call_ensures(Timestamp::at_or_after_epoch, (&one,), after),
    ensures
        ordered <==> nanos_between(one, other) >= 0,
        after <==> nanos_between(Timestamp { secs: 0, nanos: 0 }, one) >= 0,
{
}

/// A time since the epoch is counted in whole milliseconds, and can be counted wherever it is not
/// before the epoch.
pub proof fn law_epoch_millis_are_whole(time: Timestamp, millis: u128)
    requires
        nanos_between(Timestamp { secs: 0, nanos: 0 }, time) >= 0,
    ensures
        call_requires(Timestamp::epoch_millis, (&time,)),
        call_ensures(Timestamp::epoch_millis, (&time,), millis) ==> whole_millis(
            nanos_between(Timestamp { secs: 0, nanos: 0 }, time),
            millis as int,
        ),
{
}

/// The time from one moment to a later one is counted in whole milliseconds, and can be counted
/// wherever the moments come in that order.
pub proof fn law_millis_until_are_whole(earlier: Timestamp, later: Timestamp, millis: u128)
    requires
        nanos_between(earlier, later) >= 0,
    ensures
        call_requires(Timestamp::millis_until, (&earlier, &later)),
        call_ensures(Timestamp::millis_until, (&earlier, &later), millis) ==> whole_millis(
            nanos_between(earlier, later),
            millis as int,
        ),
{
}

/// The entry is one of the readings, sampled at `sampled` and recorded at `now`: it has each of
/// them under its name; the time of the sample and the whole milliseconds since then, unless a
/// reading goes by the name of that field; and no other name.
pub open spec fn is_entry_of(
    entry: Map<Seq<char>, MeasurementEntryValue>,
    sampled: Timestamp,
    now: Timestamp,
    readings: Map<Seq<char>, u64>,
) -> bool {
    &&& forall|name: Seq<char>| #[trigger]
        entry.contains_key(name) <==> readings.contains_key(name) || name == "TIME"@ || name
            == "DELTA"@
    &&& forall|name: Seq<char>| #[trigger]
        readings.contains_key(name) ==> entry[name] == MeasurementEntryValue::Measurement(
            readings[name],
        )
    &&& !readings.contains_key("TIME"@) ==> entry["TIME"@] == MeasurementEntryValue::Time(sampled)
    &&& !readings.contains_key("DELTA"@) ==> {
        &&& entry["DELTA"@] matches MeasurementEntryValue::Delta(delta)
        &&& whole_millis(nanos_between(sampled, now), delta as int)
    }
}

/// The model of an entry is an entry of its sample.
pub proof fn lemma_is_entry_of(
    sampled: Timestamp,
    now: Timestamp,
    readings: Map<Seq<char>, u64>,
)
    requires
        nanos_between(sampled, now) >= 0,
    ensures
        is_entry_of(
            entry_map(sampled, delta_millis(sampled, now), readings),
            sampled,
            now,
            readings,
        ),
{
    let delta = delta_millis(sampled, now);
    let entry = entry_map(sampled, delta, readings);
    assert forall|name: Seq<char>| #[trigger] entry.contains_key(name) <==> readings.contains_key(
        name,
    ) || name == "TIME"@ || name == "DELTA"@ by {
        law_entry_holds_the_sample(sampled, delta, readings, name);
    }
    assert forall|name: Seq<char>| #[trigger] readings.contains_key(name) implies entry[name]
        == MeasurementEntryValue::Measurement(readings[name]) by {
        law_entry_holds_the_sample(sampled, delta, readings, name);
    }
    law_entry_holds_the_sample(sampled, delta, readings, "TIME"@);
}

/// Two entries of one sample, recorded at one time, are the same.
pub proof fn law_sample_decides_the_entry(
    one: Map<Seq<char>, MeasurementEntryValue>,
    other: Map<Seq<char>, MeasurementEntryValue>,
    sampled: Timestamp,
    now: Timestamp,
    readings: Map<Seq<char>, u64>,
)
    requires
        is_entry_of(one, sampled, now, readings),
        is_entry_of(other, sampled, now, readings),
    ensures
        one == other,
{
    assert(one.dom() =~= other.dom()) by {
        assert forall|name: Seq<char>| one.dom().contains(name) <==> other.dom().contains(name) by {
            assert(one.contains_key(name) <==> other.contains_key(name));
        }
    }
    assert forall|name: Seq<char>| one.dom().contains(name) implies #[trigger] one[name]
        == other[name] by {
        assert(one.contains_key(name));
        if readings.contains_key(name) {
        } else if name == "TIME"@ {
        } else {
            assert(name == "DELTA"@);
        }
    }
    assert(one =~= other);
}

/// An entry is made of the readings, the time of their sample and the time since, and can be made
/// wherever it is not recorded before its sample.
pub proof fn law_entry_is_made_of_its_sample(
    sampled: Timestamp,
    now: Timestamp,
    readings: Readings,
    entry: MeasurementEntry,
)
    requires
        nanos_between(sampled, now) >= 0,
    ensures
        call_requires(measurement_entry, (sampled, now, &readings)),
        call_ensures(measurement_entry, (sampled, now, &readings), entry) ==> is_entry_of(
            entry@,
            sampled,
            now,
            readings@,
        ),
{
    lemma_is_entry_of(sampled, now, readings@);
}

/// A copy of a value is that value.
pub proof fn law_value_is_copied(value: MeasurementEntryValue, copy: MeasurementEntryValue)
    requires
        call_ensures(MeasurementEntryValue::clone, (&value,), copy),
    ensures
        copy == value,
{
}

/// A time is sent as its whole milliseconds since the epoch, and every other value as it is. Only a
/// time before the epoch cannot be sent.
pub proof fn law_value_is_sent(value: MeasurementEntryValue, wire: WireValue)
    requires
        value matches MeasurementEntryValue::Time(time) ==> nanos_between(
            Timestamp { secs: 0, nanos: 0 },
            time,
        ) >= 0,
    ensures
        call_requires(MeasurementEntryValue::serialize, (&value,)),
        call_ensures(MeasurementEntryValue::serialize, (&value,), wire) ==> match value {
            MeasurementEntryValue::Time(time) => wire matches WireValue::Integer(millis)
                && whole_millis(
                nanos_between(Timestamp { secs: 0, nanos: 0 }, time),
                millis as int,
            ),
            MeasurementEntryValue::FunctionName(name) => wire matches WireValue::Text(text) && text@
                == name@,
            MeasurementEntryValue::Measurement(bits) => wire matches WireValue::Float(sent) && sent
                == bits,
            MeasurementEntryValue::Delta(delta) => wire matches WireValue::Integer(sent) && sent
                == delta,
        },
{
}

/// A client is told why its request is refused, and which process or which function is in the way.
pub proof fn law_refusal_says_why(error: ServiceError, text: String)
    requires
        call_ensures(ServiceError::message, (&error,), text),
    ensures
        match error {
            ServiceError::InProgress { pid } => frames_number(
                text@,
                "A measurement is already in progress for pid: "@,
                pid as int,
                "."@,
            ),
            ServiceError::NotMeasuring { pid } => frames_number(
                text@,
                "No measurement session is ongoing for pid: "@,
                pid as int,
                "."@,
            ),
            ServiceError::OtherFunction { function } => text@
                == "Current measurements involves a different function: "@ + function@ + "."@,
            ServiceError::NoFunction => text@ == "No function is currently being measured."@,
            ServiceError::UnknownProcess { pid } => frames_number(
                text@,
                "No ongoing measurement was made for pid: "@,
                pid as int,
                "."@,
            ),
            ServiceError::SessionFailed { pid, reason } => frames_number(
                text@,
                "Measurement session failed for pid: "@,
                pid as int,
                " due to "@ + reason@,
            ),
        },
{
    match error {
        ServiceError::InProgress { pid } => {
            lemma_frames_number(
                "A measurement is already in progress for pid: "@,
                pid as nat,
                "."@,
            );
        },
        ServiceError::NotMeasuring { pid } => {
            lemma_frames_number("No measurement session is ongoing for pid: "@, pid as nat, "."@);
        },
        ServiceError::UnknownProcess { pid } => {
            lemma_frames_number("No ongoing measurement was made for pid: "@, pid as nat, "."@);
        },
        ServiceError::SessionFailed { pid, reason } => {
            let opening = "Measurement session failed for pid: "@;
            lemma_frames_number(opening, pid as nat, " due to "@ + reason@);
            assert(opening + decimal(pid as nat) + " due to "@ + reason@ =~= opening + decimal(
                pid as nat,
            ) + (" due to "@ + reason@));
        },
        _ => {},
    }
}

/// A number in a text stands where it is put.
pub proof fn law_pid_is_put_in_the_text(prefix: &str, pid: u32, suffix: &str, text: String)
    requires
        call_ensures(pid_text, (prefix, pid, suffix), text),
    ensures
        frames_number(text@, prefix@, pid as int, suffix@),
{
    lemma_frames_number(prefix@, pid as nat, suffix@);
}

/// A refusal reaches the client as an invalid request, with the text that says why and no data.
pub proof fn law_refusal_is_an_invalid_request(
    error: ServiceError,
    text: String,
    object: jsonrpsee::types::ErrorObjectOwned,
    code: i32,
    message: &str,
    data: Option<&jsonrpsee::core::JsonRawValue>,
)
    requires
        call_ensures(ServiceError::message, (&error,), text),
        call_ensures(ServiceError::error_object, (&error,), object),
        call_ensures(jsonrpsee::types::ErrorObject::code, (&object,), code),
        call_ensures(jsonrpsee::types::ErrorObject::message, (&object,), message),
        call_ensures(jsonrpsee::types::ErrorObject::data, (&object,), data),
    ensures
        code == -32600,
        message@ == text@,
        data is None,
{
    assert(error_code_is(object, -32600));
    assert(error_message_is(object, text@));
    assert(error_has_no_data(object));
}

/// A new map has no name in it.
pub proof fn law_new_map_is_empty<V>(map: FieldMap<V>, name: Seq<char>)
    requires
        call_ensures(FieldMap::<V>::new, (), map),
    ensures
        !map@.contains_key(name),
{
}

/// A map says that it is empty exactly where no name is in it.
pub proof fn law_empty_map_has_no_name<V>(map: FieldMap<V>, empty: bool)
    requires
        call_ensures(FieldMap::<V>::is_empty, (&map,), empty),
    ensures
        empty <==> forall|name: Seq<char>| !#[trigger] map@.contains_key(name),
{
    if forall|name: Seq<char>| !#[trigger] map@.contains_key(name) {
        assert(map@ =~= Map::<Seq<char>, V>::empty());
    }
}

/// A value that is set is found under its name; every other name leads where it led before.
pub proof fn law_value_is_found_under_its_name<V>(
    map: &mut FieldMap<V>,
    name: String,
    value: V,
    asked: Seq<char>,
)
    requires
        call_ensures(FieldMap::<V>::insert, (map, name, value), ()),
    ensures
        final(map)@.contains_key(name@),
        final(map)@[name@] == value,
        asked != name@ ==> (final(map)@.contains_key(asked) <==> old(map)@.contains_key(asked)),
        asked != name@ && old(map)@.contains_key(asked) ==> final(map)@[asked] == old(map)@[asked],
{
}

/// Going through the fields of a map meets every name in it once, with the value it leads to.
pub proof fn law_fields_are_those_of_the_map<V>(
    map: FieldMap<V>,
    fields: &Vec<(String, V)>,
    asked: Seq<char>,
)
    requires
        call_ensures(FieldMap::<V>::fields, (&map,), fields),
    ensures
        forall|i: int|
            0 <= i < fields@.len() ==> map@.contains_key((#[trigger] fields@[i]).0@)
                && map@[fields@[i].0@] == fields@[i].1,
        forall|i: int, j: int|
            0 <= i < j < fields@.len() ==> (#[trigger] fields@[i]).0@ != (
            #[trigger] fields@[j]).0@,
        map@.contains_key(asked) ==> exists|i: int|
            0 <= i < fields@.len() && (#[trigger] fields@[i]).0@ == asked,
{
    lemma_fields_map(fields@);
}

/// A copy of a map has the names of that map, each with a copy of its value.
pub proof fn law_map_is_copied<V: Clone>(map: FieldMap<V>, copy: FieldMap<V>, asked: Seq<char>)
    requires
        call_ensures(FieldMap::<V>::clone, (&map,), copy),
    ensures
        copy@.contains_key(asked) <==> map@.contains_key(asked),
        map@.contains_key(asked) ==> cloned(map@[asked], copy@[asked]),
{
    assert(copy@.dom().contains(asked) <==> map@.dom().contains(asked));
}

/// Times can be compared, values copied, refusals put in words and maps used, whatever they hold.
pub proof fn law_values_can_always_be_used<V: Clone>(
    one: Timestamp,
    other: Timestamp,
    value: MeasurementEntryValue,
    error: ServiceError,
    prefix: &str,
    pid: u32,
    suffix: &str,
    map: &mut FieldMap<V>,
    asked: FieldMap<V>,
    name: String,
    field: V,
    number: u128,
)
    ensures
        call_requires(Timestamp::not_after, (&one, &other)),
        call_requires(Timestamp::at_or_after_epoch, (&one,)),
        call_requires(MeasurementEntryValue::clone, (&value,)),
        call_requires(ServiceError::message, (&error,)),
        call_requires(ServiceError::error_object, (&error,)),
        call_requires(pid_text, (prefix, pid, suffix)),
        call_requires(FieldMap::<V>::new, ()),
        call_requires(FieldMap::<V>::is_empty, (&asked,)),
        call_requires(FieldMap::<V>::insert, (map, name, field)),
        call_requires(FieldMap::<V>::fields, (&asked,)),
        call_requires(FieldMap::<V>::clone, (&asked,)),
        call_requires(decimal_text, (number,)),
{
}

} // verus!
