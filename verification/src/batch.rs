//! The columnar batch that the store appends: one column per row field.

use vstd::prelude::*;
use crate::row::{kept_payload, rows_view, NormalizedRow, RowView};

verus! {

/// What a batch holds, column by column.
#[verifier::ext_equal]
pub struct BatchView {
    pub timestamp: Seq<i64>,
    pub model: Seq<Seq<char>>,
    pub sensor_id: Seq<Seq<char>>,
    pub measurement_type: Seq<u32>,
    pub value_bits: Seq<u64>,
    pub raw_json: Seq<Seq<char>>,
}

impl BatchView {
    /// The columns are equally long and every kind code fits the row's field.
    pub open spec fn wf(self) -> bool {
        &&& self.model.len() == self.timestamp.len()
        &&& self.sensor_id.len() == self.timestamp.len()
        &&& self.measurement_type.len() == self.timestamp.len()
        &&& self.value_bits.len() == self.timestamp.len()
        &&& self.raw_json.len() == self.timestamp.len()
        &&& forall|i: int|
            0 <= i < self.measurement_type.len() ==> #[trigger] self.measurement_type[i] <= u8::MAX
    }
}

/// The text stored for a payload: the payload, or the empty text for none.
pub open spec fn stored_payload(raw_json: Option<Seq<char>>) -> Seq<char> {
    match raw_json {
        Some(text) => text,
        None => Seq::empty(),
    }
}

/// The batch that holds the given rows, in their order.
pub open spec fn batch_of(rows: Seq<RowView>) -> BatchView {
    BatchView {
        timestamp: Seq::new(rows.len(), |i: int| rows[i].timestamp),
        model: Seq::new(rows.len(), |i: int| rows[i].model),
        sensor_id: Seq::new(rows.len(), |i: int| rows[i].sensor_id),
        measurement_type: Seq::new(rows.len(), |i: int| rows[i].measurement_type as u32),
        value_bits: Seq::new(rows.len(), |i: int| rows[i].value_bits),
        raw_json: Seq::new(rows.len(), |i: int| stored_payload(rows[i].raw_json)),
    }
}

/// The rows that a batch holds, in their order.
pub open spec fn rows_of(batch: BatchView) -> Seq<RowView> {
    Seq::new(
        batch.timestamp.len(),
        |i: int|
            RowView {
                timestamp: batch.timestamp[i],
                sensor_id: batch.sensor_id[i],
                model: batch.model[i],
                measurement_type: batch.measurement_type[i] as u8,
                value_bits: batch.value_bits[i],
                raw_json: kept_payload(Some(batch.raw_json[i])),
            },
    )
}

/// Every row of the sequence is well formed.
pub open spec fn all_wf(rows: Seq<RowView>) -> bool {
    forall|i: int| 0 <= i < rows.len() ==> (#[trigger] rows[i]).wf()
}

/// Rows written into a batch and read back are the rows that were written,
/// field by field, and a batch read as rows and written again is the same
/// batch.
pub proof fn lemma_batch_round_trip(rows: Seq<RowView>)
    requires
        all_wf(rows),
    ensures
        batch_of(rows).wf(),
        rows_of(batch_of(rows)) == rows,
{
    let back = rows_of(batch_of(rows));
    assert(back.len() == rows.len());
    assert forall|i: int| 0 <= i < rows.len() implies back[i] == rows[i] by {
        assert(rows[i].wf());
        assert(rows[i].measurement_type as u32 as u8 == rows[i].measurement_type);
    }
    assert(back =~= rows);
}

/// A well-formed batch read as rows gives well-formed rows, and writing
/// them again gives the batch.
pub proof fn lemma_rows_round_trip(batch: BatchView)
    requires
        batch.wf(),
    ensures
        all_wf(rows_of(batch)),
        batch_of(rows_of(batch)) == batch,
{
    let again = batch_of(rows_of(batch));
    assert forall|i: int| 0 <= i < batch.timestamp.len() implies again.measurement_type[i]
        == batch.measurement_type[i] by {
        assert(batch.measurement_type[i] <= u8::MAX);
    }
    assert(again =~~= batch);
}

/// A batch of rows in columns. All six columns are equally long.
#[derive(Debug)]
pub struct ColumnBatch {
    timestamp: Vec<i64>,
    model: Vec<String>,
    sensor_id: Vec<String>,
    measurement_type: Vec<u32>,
    value_bits: Vec<u64>,
    raw_json: Vec<String>,
}

/// The texts of a sequence of strings.
pub open spec fn texts(strings: Seq<String>) -> Seq<Seq<char>> {
    Seq::new(strings.len(), |i: int| strings[i]@)
}

impl View for ColumnBatch {
    type V = BatchView;

    closed spec fn view(&self) -> BatchView {
        BatchView {
            timestamp: self.timestamp@,
            model: texts(self.model@),
            sensor_id: texts(self.sensor_id@),
            measurement_type: self.measurement_type@,
            value_bits: self.value_bits@,
            raw_json: texts(self.raw_json@),
        }
    }
}

impl ColumnBatch {
    #[verifier::type_invariant]
    spec fn inv(self) -> bool {
        self@.wf()
    }

    /// The number of rows.
    pub fn num_rows(&self) -> (n: usize)
        ensures
            self@.wf(),
            n == self@.timestamp.len(),
    {
        proof {
            use_type_invariant(self);
        }
        self.timestamp.len()
    }

    /// The number of columns: one per row field.
    pub fn num_columns(&self) -> (n: usize)
        ensures
            n == 6,
    {
        6
    }

    /// The event times, in microseconds since the epoch.
    pub fn timestamp(&self) -> (column: &Vec<i64>)
        ensures
            column@ == self@.timestamp,
    {
        &self.timestamp
    }

    pub fn model(&self) -> (column: &Vec<String>)
        ensures
            texts(column@) == self@.model,
    {
        &self.model
    }

    pub fn sensor_id(&self) -> (column: &Vec<String>)
        ensures
            texts(column@) == self@.sensor_id,
    {
        &self.sensor_id
    }

    /// The kind codes.
    pub fn measurement_type(&self) -> (column: &Vec<u32>)
        ensures
            column@ == self@.measurement_type,
    {
        &self.measurement_type
    }

    /// The readings, as bit patterns of 64-bit IEEE 754 numbers.
    pub fn value_bits(&self) -> (column: &Vec<u64>)
        ensures
            column@ == self@.value_bits,
    {
        &self.value_bits
    }

    /// The payloads; the empty text where a row has none.
    pub fn raw_json(&self) -> (column: &Vec<String>)
        ensures
            texts(column@) == self@.raw_json,
    {
        &self.raw_json
    }

    /// The rows that the batch holds.
    pub fn rows(&self) -> (rows: Vec<NormalizedRow>)
        ensures
            rows_view(rows@) == rows_of(self@),
    {
        proof {
            use_type_invariant(self);
        }
        let n = self.timestamp.len();
        let mut rows: Vec<NormalizedRow> = Vec::new();
        let mut i: usize = 0;
        while i < n
            invariant
                i <= n,
                n == self@.timestamp.len(),
                self@.wf(),
                rows@.len() == i,
                forall|j: int| 0 <= j < i ==> (#[trigger] rows@[j])@ == rows_of(self@)[j],
            decreases n - i,
        {
            let code = self.measurement_type[i];
            assert(code == self@.measurement_type[i as int]);
            let row = NormalizedRow::new(
                self.timestamp[i],
                self.sensor_id[i].clone(),
                self.model[i].clone(),
                code as u8,
                self.value_bits[i],
                Some(self.raw_json[i].clone()),
            );
            rows.push(row);
            i += 1;
        }
        assert(rows_view(rows@) =~= rows_of(self@));
        rows
    }
}

/// Writes rows into a batch, one column per field: a row without payload
/// stores the empty text.
pub fn create_arrow_record_batch(rows: &[NormalizedRow]) -> (batch: ColumnBatch)
    ensures
        batch@ == batch_of(rows_view(rows@)),
        batch@.wf(),
{
    let n = rows.len();
    let mut timestamp: Vec<i64> = Vec::new();
    let mut model: Vec<String> = Vec::new();
    let mut sensor_id: Vec<String> = Vec::new();
    let mut measurement_type: Vec<u32> = Vec::new();
    let mut value_bits: Vec<u64> = Vec::new();
    let mut raw_json: Vec<String> = Vec::new();
    let mut i: usize = 0;
    while i < n
        invariant
            i <= n,
            n == rows@.len(),
            timestamp@.len() == i,
            model@.len() == i,
            sensor_id@.len() == i,
            measurement_type@.len() == i,
            value_bits@.len() == i,
            raw_json@.len() == i,
            forall|j: int| 0 <= j < i ==> #[trigger] timestamp@[j] == rows@[j]@.timestamp,
            forall|j: int| 0 <= j < i ==> (#[trigger] model@[j])@ == rows@[j]@.model,
            forall|j: int| 0 <= j < i ==> (#[trigger] sensor_id@[j])@ == rows@[j]@.sensor_id,
            forall|j: int|
                0 <= j < i ==> #[trigger] measurement_type@[j] == rows@[j]@.measurement_type,
            forall|j: int| 0 <= j < i ==> #[trigger] value_bits@[j] == rows@[j]@.value_bits,
            forall|j: int|
                0 <= j < i ==> (#[trigger] raw_json@[j])@ == stored_payload(rows@[j]@.raw_json),
        decreases n - i,
    {
        let row = &rows[i];
        timestamp.push(row.timestamp());
        model.push(row.model().to_owned());
        sensor_id.push(row.sensor_id().to_owned());
        measurement_type.push(row.measurement_type() as u32);
        value_bits.push(row.value_bits());
        raw_json.push(
            match row.raw_json() {
                Some(text) => text.to_owned(),
                None => String::new(),
            },
        );
        i += 1;
    }
    let batch = ColumnBatch { timestamp, model, sensor_id, measurement_type, value_bits, raw_json };
    assert(batch@ =~~= batch_of(rows_view(rows@)));
    batch
}

} // verus!
