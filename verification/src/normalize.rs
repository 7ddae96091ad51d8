//! From one message to its rows.

use vstd::prelude::*;
use crate::clock::{
    local_to_utc_micros, naive_micros, now_micros, parse_naive_micros, parse_rfc3339_micros,
    resolve_timestamp, rfc3339_micros,
};
use crate::json::{fields_view, json_fields, parse_fields, JsonField, JsonFieldView};
use crate::measurement::{
    code_of_kind, is_measurement_key, kind_of_key, same_text, MeasurementType,
};
use crate::row::{kept_payload, rows_view, NormalizedRow, RowView};

verus! {

/// The last entry with the given key, if there is one.
pub open spec fn lookup(fields: Seq<JsonFieldView>, name: Seq<char>) -> Option<JsonFieldView>
    decreases fields.len(),
{
    if fields.len() == 0 {
        None
    } else if fields.last().name == name {
        Some(fields.last())
    } else {
        lookup(fields.drop_last(), name)
    }
}

/// An identity entry as text: a string as it stands, any other value written
/// out as JSON, a missing entry as `null`.
pub open spec fn label_text(field: Option<JsonFieldView>) -> Seq<char> {
    match field {
        Some(f) => match f.text {
            Some(text) => text,
            None => f.rendered,
        },
        None => "null"@,
    }
}

/// The text of the `time` entry, where it is a string.
pub open spec fn time_text(fields: Seq<JsonFieldView>) -> Option<Seq<char>> {
    match lookup(fields, "time"@) {
        Some(f) => f.text,
        None => None,
    }
}

/// What is known of a message's event time without looking at the clock or
/// the time zone: a `time` entry that is not of the local form and reads as
/// RFC 3339 gives that reading.
pub open spec fn admissible_time(fields: Seq<JsonFieldView>, timestamp: i64) -> bool {
    match time_text(fields) {
        Some(text) => naive_micros(text) is None ==> match rfc3339_micros(text) {
            Some(micros) => timestamp == micros,
            None => true,
        },
        None => true,
    }
}

/// Whether `rows` are the rows of the message with the given text, for some
/// admissible event time: none where the text is not one JSON document.
pub open spec fn is_normalization(text: Seq<char>, rows: Seq<RowView>) -> bool {
    match json_fields(text) {
        Some(fields) => exists|timestamp: i64|
            admissible_time(fields, timestamp) && rows == #[trigger] expected_rows(
                fields,
                text,
                timestamp,
            ),
        None => rows.len() == 0,
    }
}

/// The rows of a parsed message at an admissible event time are a
/// normalization of its text.
pub proof fn lemma_rows_are_normalization(
    text: Seq<char>,
    fields: Seq<JsonFieldView>,
    rows: Seq<RowView>,
)
    requires
        json_fields(text) == Some(fields),
        exists|timestamp: i64|
            admissible_time(fields, timestamp) && rows == #[trigger] expected_rows(
                fields,
                text,
                timestamp,
            ),
    ensures
        is_normalization(text, rows),
{
    assert(json_fields(text) is Some);
    assert(json_fields(text)->0 == fields);
}

/// An entry gives a row when its key is a recognized measurement name and
/// its value is a number.
pub open spec fn is_reading(field: JsonFieldView) -> bool {
    field.number_bits is Some && is_measurement_key(field.name)
}

/// The row that a reading gives.
pub open spec fn reading_row(
    field: JsonFieldView,
    timestamp: i64,
    sensor_id: Seq<char>,
    model: Seq<char>,
    text: Seq<char>,
) -> RowView {
    RowView {
        timestamp,
        sensor_id,
        model,
        measurement_type: code_of_kind(kind_of_key(field.name)),
        value_bits: field.number_bits->0,
        raw_json: kept_payload(Some(text)),
    }
}

/// The rows of the readings among `fields`, in the entries' order.
pub open spec fn readings(
    fields: Seq<JsonFieldView>,
    timestamp: i64,
    sensor_id: Seq<char>,
    model: Seq<char>,
    text: Seq<char>,
) -> Seq<RowView>
    decreases fields.len(),
{
    if fields.len() == 0 {
        Seq::empty()
    } else {
        let before = readings(fields.drop_last(), timestamp, sensor_id, model, text);
        if is_reading(fields.last()) {
            before.push(reading_row(fields.last(), timestamp, sensor_id, model, text))
        } else {
            before
        }
    }
}

/// How many of the entries are readings.
pub open spec fn recognized_count(fields: Seq<JsonFieldView>) -> nat
    decreases fields.len(),
{
    if fields.len() == 0 {
        0
    } else if is_reading(fields.last()) {
        recognized_count(fields.drop_last()) + 1
    } else {
        recognized_count(fields.drop_last())
    }
}

/// The rows of a message with the given entries, text and event time: one per
/// reading, all with the message's `id` and `model` and the whole text.
pub open spec fn expected_rows(fields: Seq<JsonFieldView>, text: Seq<char>, timestamp: i64) -> Seq<
    RowView,
> {
    readings(
        fields,
        timestamp,
        label_text(lookup(fields, "id"@)),
        label_text(lookup(fields, "model"@)),
        text,
    )
}

/// A message gives exactly one row per reading, and every row carries the
/// message's event time, sensor and model.
pub proof fn lemma_one_row_per_reading(
    fields: Seq<JsonFieldView>,
    timestamp: i64,
    sensor_id: Seq<char>,
    model: Seq<char>,
    text: Seq<char>,
)
    ensures
        readings(fields, timestamp, sensor_id, model, text).len() == recognized_count(fields),
        forall|i: int|
            0 <= i < readings(fields, timestamp, sensor_id, model, text).len() ==> {
                let row = #[trigger] readings(fields, timestamp, sensor_id, model, text)[i];
                &&& row.timestamp == timestamp
                &&& row.sensor_id == sensor_id
                &&& row.model == model
                &&& row.raw_json == kept_payload(Some(text))
                &&& row.measurement_type <= 3
            },
    decreases fields.len(),
{
    if fields.len() > 0 {
        lemma_one_row_per_reading(fields.drop_last(), timestamp, sensor_id, model, text);
    }
}

/// The rows come from one message: they agree in event time, sensor, model
/// and payload.
pub open spec fn same_origin(rows: Seq<RowView>) -> bool {
    forall|i: int, j: int|
        0 <= i < rows.len() && 0 <= j < rows.len() ==> {
            &&& (#[trigger] rows[i]).timestamp == (#[trigger] rows[j]).timestamp
            &&& rows[i].sensor_id == rows[j].sensor_id
            &&& rows[i].model == rows[j].model
            &&& rows[i].raw_json == rows[j].raw_json
        }
}

/// Normalizing a message with `k` readings gives exactly `k` rows, and they
/// all carry the same event time and the same sensor identity; with no
/// reading it gives no row.
pub proof fn lemma_normalization_counts(text: Seq<char>, rows: Seq<RowView>)
    requires
        is_normalization(text, rows),
    ensures
        same_origin(rows),
        match json_fields(text) {
            Some(fields) => rows.len() == recognized_count(fields),
            None => rows.len() == 0,
        },
{
    match json_fields(text) {
        Some(fields) => {
            let timestamp = choose|timestamp: i64|
                admissible_time(fields, timestamp) && rows == #[trigger] expected_rows(
                    fields,
                    text,
                    timestamp,
                );
            lemma_one_row_per_reading(
                fields,
                timestamp,
                label_text(lookup(fields, "id"@)),
                label_text(lookup(fields, "model"@)),
                text,
            );
        },
        None => {},
    }
}

/// A message without readings gives no row.
pub proof fn lemma_no_reading_no_row(fields: Seq<JsonFieldView>, text: Seq<char>, timestamp: i64)
    requires
        recognized_count(fields) == 0,
    ensures
        expected_rows(fields, text, timestamp) == Seq::<RowView>::empty(),
{
    lemma_one_row_per_reading(
        fields,
        timestamp,
        label_text(lookup(fields, "id"@)),
        label_text(lookup(fields, "model"@)),
        text,
    );
    assert(expected_rows(fields, text, timestamp) =~= Seq::<RowView>::empty());
}

/// The last entry with the given key.
pub fn find_field<'a>(fields: &'a Vec<JsonField>, name: &str) -> (found: Option<&'a JsonField>)
    ensures
        match found {
            Some(f) => lookup(fields_view(fields@), name@) == Some(f@),
            None => lookup(fields_view(fields@), name@) is None,
        },
{
    let mut found: Option<&JsonField> = None;
    let mut i: usize = 0;
    while i < fields.len()
        invariant
            i <= fields.len(),
            match found {
                Some(f) => lookup(fields_view(fields@).take(i as int), name@) == Some(f@),
                None => lookup(fields_view(fields@).take(i as int), name@) is None,
            },
        decreases fields.len() - i,
    {
        proof {
            let all = fields_view(fields@);
            assert(all.take(i + 1).drop_last() =~= all.take(i as int));
            assert(all.take(i + 1).last() == fields@[i as int]@);
        }
        if same_text(fields[i].name.as_str(), name) {
            found = Some(&fields[i]);
        }
        i += 1;
    }
    proof {
        let all = fields_view(fields@);
        assert(all.take(fields.len() as int) =~= all);
    }
    found
}

/// An identity entry as text.
pub fn label_of(fields: &Vec<JsonField>, name: &str) -> (label: String)
    ensures
        label@ == label_text(lookup(fields_view(fields@), name@)),
{
    match find_field(fields, name) {
        Some(f) => match &f.text {
            Some(text) => text.clone(),
            None => f.rendered.clone(),
        },
        None => "null".to_owned(),
    }
}

/// The rows of a message whose entries, text and event time are given.
pub fn rows_from_fields(fields: &Vec<JsonField>, text: &str, timestamp: i64) -> (rows: Vec<
    NormalizedRow,
>)
    ensures
        rows_view(rows@) == expected_rows(fields_view(fields@), text@, timestamp),
        rows@.len() == recognized_count(fields_view(fields@)),
        same_origin(rows_view(rows@)),
{
    let sensor_id = label_of(fields, "id");
    let model = label_of(fields, "model");
    let mut rows: Vec<NormalizedRow> = Vec::new();
    let mut i: usize = 0;
    while i < fields.len()
        invariant
            i <= fields.len(),
            rows_view(rows@) == readings(
                fields_view(fields@).take(i as int),
                timestamp,
                sensor_id@,
                model@,
                text@,
            ),
        decreases fields.len() - i,
    {
        let ghost all = fields_view(fields@);
        let ghost before = rows_view(rows@);
        proof {
            assert(all.take(i + 1).drop_last() =~= all.take(i as int));
            assert(all.take(i + 1).last() == fields@[i as int]@);
        }
        let field = &fields[i];
        match field.number_bits {
            Some(bits) => {
                let kind = MeasurementType::of_key(field.name.as_str());
                match kind {
                    MeasurementType::Unknown => {},
                    _ => {
                        let row = NormalizedRow::new(
                            timestamp,
                            sensor_id.clone(),
                            model.clone(),
                            kind.code(),
                            bits,
                            Some(text.to_owned()),
                        );
                        rows.push(row);
                        assert(rows_view(rows@) =~= before.push(row@));
                    },
                }
            },
            None => {},
        }
        i += 1;
    }
    proof {
        let all = fields_view(fields@);
        assert(all.take(fields.len() as int) =~= all);
        lemma_one_row_per_reading(all, timestamp, sensor_id@, model@, text@);
    }
    rows
}

/// The rows of one message. A text that is not one JSON document gives no
/// row, and so does a document that is not an object or holds no reading.
/// The event time is read from the `time` entry: as local time in the form
/// `YYYY-MM-DD HH:MM:SS`, else as RFC 3339, else it is the wall clock.
pub fn normalize_one_message(json_str: &str) -> (rows: Vec<NormalizedRow>)
    ensures
        is_normalization(json_str@, rows_view(rows@)),
        same_origin(rows_view(rows@)),
        match json_fields(json_str@) {
            Some(fields) => rows@.len() == recognized_count(fields),
            None => rows@.len() == 0,
        },
{
    match parse_fields(json_str) {
        Ok(fields) => {
            let rows = rows_of_message(&fields, json_str);
            proof {
                lemma_rows_are_normalization(json_str@, fields_view(fields@), rows_view(rows@));
            }
            rows
        },
        Err(_) => {
            let rows: Vec<NormalizedRow> = Vec::new();
            assert(is_normalization(json_str@, rows_view(rows@)));
            rows
        },
    }
}

/// The rows of a message whose entries and text are given; the event time is
/// read from the `time` entry or, failing that, from the wall clock.
pub fn rows_of_message(fields: &Vec<JsonField>, text: &str) -> (rows: Vec<NormalizedRow>)
    ensures
        rows@.len() == recognized_count(fields_view(fields@)),
        same_origin(rows_view(rows@)),
        exists|timestamp: i64|
            admissible_time(fields_view(fields@), timestamp) && rows_view(rows@)
                == #[trigger] expected_rows(fields_view(fields@), text@, timestamp),
{
    let timestamp = event_time(fields);
    let rows = rows_from_fields(fields, text, timestamp);
    assert(admissible_time(fields_view(fields@), timestamp) && rows_view(rows@) == expected_rows(
        fields_view(fields@),
        text@,
        timestamp,
    ));
    rows
}

/// The event time of a message with the given entries: the `time` entry read
/// as local time in the form `YYYY-MM-DD HH:MM:SS`, else as RFC 3339, else
/// the wall clock; the wall clock too where the entry is missing or no string.
pub fn event_time(fields: &Vec<JsonField>) -> (timestamp: i64)
    ensures
        admissible_time(fields_view(fields@), timestamp),
{
    let now = now_micros();
    match find_field(fields, "time") {
        Some(f) => match &f.text {
            Some(text) => {
                let local = match parse_naive_micros(text.as_str()) {
                    Some(naive) => local_to_utc_micros(naive),
                    None => None,
                };
                resolve_timestamp(local, parse_rfc3339_micros(text.as_str()), now)
            },
            None => now,
        },
        None => now,
    }
}

} // verus!
