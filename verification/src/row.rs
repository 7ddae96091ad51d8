//! One normalized observation and its mathematical view.

use vstd::prelude::*;

verus! {

/// What a row says, as plain mathematical values.
pub struct RowView {
    /// Microseconds since the epoch, UTC.
    pub timestamp: i64,
    pub sensor_id: Seq<char>,
    pub model: Seq<char>,
    /// The stored code of the measurement kind.
    pub measurement_type: u8,
    /// The reading, as the bit pattern of a 64-bit IEEE 754 number.
    pub value_bits: u64,
    /// The message the row was taken from, when it was kept.
    pub raw_json: Option<Seq<char>>,
}

impl RowView {
    /// A payload that is present is not empty: the store holds the empty
    /// text where no payload was kept.
    pub open spec fn wf(self) -> bool {
        self.raw_json matches Some(text) ==> text.len() > 0
    }
}

/// One observation taken from one message. Immutable once made.
#[derive(Debug)]
pub struct NormalizedRow {
    timestamp: i64,
    sensor_id: String,
    model: String,
    measurement_type: u8,
    value_bits: u64,
    raw_json: Option<String>,
}

/// The payload as it is kept: an empty text counts as no payload.
pub open spec fn kept_payload(raw_json: Option<Seq<char>>) -> Option<Seq<char>> {
    match raw_json {
        Some(text) => if text.len() == 0 { None } else { Some(text) },
        None => None,
    }
}

impl View for NormalizedRow {
    type V = RowView;

    closed spec fn view(&self) -> RowView {
        RowView {
            timestamp: self.timestamp,
            sensor_id: self.sensor_id@,
            model: self.model@,
            measurement_type: self.measurement_type,
            value_bits: self.value_bits,
            raw_json: match self.raw_json {
                Some(text) => Some(text@),
                None => None,
            },
        }
    }
}

/// The views of a sequence of rows, in the same order.
pub open spec fn rows_view(rows: Seq<NormalizedRow>) -> Seq<RowView> {
    rows.map_values(|row: NormalizedRow| row@)
}

impl NormalizedRow {
    #[verifier::type_invariant]
    spec fn inv(self) -> bool {
        self@.wf()
    }

    /// Makes a row from its six fields.
    pub fn new(
        timestamp: i64,
        sensor_id: String,
        model: String,
        measurement_type: u8,
        value_bits: u64,
        raw_json: Option<String>,
    ) -> (row: NormalizedRow)
        ensures
            row@ == (RowView {
                timestamp,
                sensor_id: sensor_id@,
                model: model@,
                measurement_type,
                value_bits,
                raw_json: kept_payload(
                    match raw_json {
                        Some(text) => Some(text@),
                        None => None,
                    },
                ),
            }),
            row@.wf(),
    {
        let kept = match raw_json {
            Some(text) => if text.as_str().unicode_len() == 0 {
                None
            } else {
                Some(text)
            },
            None => None,
        };
        NormalizedRow { timestamp, sensor_id, model, measurement_type, value_bits, raw_json: kept }
    }

    /// Microseconds since the epoch, UTC.
    pub fn timestamp(&self) -> (t: i64)
        ensures
            t == self@.timestamp,
    {
        self.timestamp
    }

    pub fn sensor_id(&self) -> (s: &str)
        ensures
            s@ == self@.sensor_id,
    {
        self.sensor_id.as_str()
    }

    pub fn model(&self) -> (s: &str)
        ensures
            s@ == self@.model,
    {
        self.model.as_str()
    }

    /// The stored code of the measurement kind.
    pub fn measurement_type(&self) -> (code: u8)
        ensures
            code == self@.measurement_type,
    {
        self.measurement_type
    }

    /// The reading, as the bit pattern of a 64-bit IEEE 754 number.
    pub fn value_bits(&self) -> (bits: u64)
        ensures
            bits == self@.value_bits,
    {
        self.value_bits
    }

    /// The kept payload; one that is present is not empty.
    pub fn raw_json(&self) -> (raw: Option<&str>)
        ensures
            self@.wf(),
            match raw {
                Some(text) => self@.raw_json == Some(text@),
                None => self@.raw_json is None,
            },
    {
        proof {
            use_type_invariant(self);
        }
        match &self.raw_json {
            Some(text) => Some(text.as_str()),
            None => None,
        }
    }

}

impl Clone for NormalizedRow {
    /// A second row that says the same.
    fn clone(&self) -> (row: NormalizedRow)
        ensures
            row@ == self@,
    {
        proof {
            use_type_invariant(self);
        }
        NormalizedRow {
            timestamp: self.timestamp,
            sensor_id: self.sensor_id.clone(),
            model: self.model.clone(),
            measurement_type: self.measurement_type,
            value_bits: self.value_bits,
            raw_json: match &self.raw_json {
                Some(text) => Some(text.clone()),
                None => None,
            },
        }
    }
}

} // verus!
