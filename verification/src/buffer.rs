//! The ingest buffer: rows in arrival order, held until a flush succeeds.

use vstd::prelude::*;
use crate::batch::create_arrow_record_batch;
use crate::command::{flush_command, DbCommand};
use crate::json::{error_text, fields_view, json_fields, parse_fields};
use crate::normalize::{is_normalization, lemma_rows_are_normalization, rows_of_message};
use crate::row::{rows_view, NormalizedRow, RowView};

verus! {

/// Why a message could not be taken.
#[derive(Debug)]
pub enum PushError {
    /// The text is not one JSON document; the parser's message.
    Malformed(String),
}

/// Rows that await their flush, in arrival order, and the buffer's capacity hint.
#[derive(Debug)]
pub struct MqttBuffer {
    rows: Vec<NormalizedRow>,
    capacity_hint: usize,
}

impl View for MqttBuffer {
    type V = Seq<RowView>;

    closed spec fn view(&self) -> Seq<RowView> {
        rows_view(self.rows@)
    }
}

impl MqttBuffer {
    /// An empty buffer made with room for `capacity` rows: a hint that it keeps, no limit.
    pub fn new(capacity: usize) -> (buffer: MqttBuffer)
        ensures
            buffer@ == Seq::<RowView>::empty(),
            buffer.hint() == capacity,
    {
        let buffer = MqttBuffer { rows: Vec::with_capacity(capacity), capacity_hint: capacity };
        assert(buffer@ =~= Seq::<RowView>::empty());
        buffer
    }

    /// The capacity hint that the buffer was made with: the number of rows
    /// for which room was asked at the start. It is no limit; the buffer
    /// takes any number of rows.
    pub closed spec fn hint(&self) -> usize {
        self.capacity_hint
    }

    /// The capacity hint that the buffer was made with.
    pub fn capacity_hint(&self) -> (capacity: usize)
        ensures
            capacity == self.hint(),
    {
        self.capacity_hint
    }

    /// The number of rows held.
    pub fn len(&self) -> (n: usize)
        ensures
            n == self@.len(),
    {
        self.rows.len()
    }

    pub fn is_empty(&self) -> (empty: bool)
        ensures
            empty == (self@.len() == 0),
    {
        self.rows.len() == 0
    }

    /// Drops every row.
    pub fn clear(&mut self)
        ensures
            final(self)@ == Seq::<RowView>::empty(),
            final(self).hint() == old(self).hint(),
    {
        self.rows.clear();
        assert(self@ =~= Seq::<RowView>::empty());
    }

    /// Adds one row behind the rows held.
    pub fn append(&mut self, row: NormalizedRow)
        ensures
            final(self)@ == old(self)@.push(row@),
            final(self).hint() == old(self).hint(),
    {
        self.rows.push(row);
        assert(self@ =~= old(self)@.push(row@));
    }

    /// Adds rows behind the rows held, in their order.
    pub fn extend(&mut self, rows: Vec<NormalizedRow>)
        ensures
            final(self)@ == old(self)@ + rows_view(rows@),
            final(self).hint() == old(self).hint(),
    {
        let mut rows = rows;
        let ghost added = rows@;
        self.rows.append(&mut rows);
        assert(self@ =~= old(self)@ + rows_view(added));
    }

    /// Hands out every row, in arrival order, and leaves the buffer empty.
    pub fn drain(&mut self) -> (rows: Vec<NormalizedRow>)
        ensures
            rows_view(rows@) == old(self)@,
            final(self)@ == Seq::<RowView>::empty(),
            final(self).hint() == old(self).hint(),
    {
        let mut rows: Vec<NormalizedRow> = Vec::new();
        rows.append(&mut self.rows);
        assert(rows_view(rows@) =~= old(self)@);
        assert(self@ =~= Seq::<RowView>::empty());
        rows
    }

    /// The rows held, in arrival order.
    pub fn rows(&self) -> (rows: &[NormalizedRow])
        ensures
            rows_view(rows@) == self@,
    {
        self.rows.as_slice()
    }

    /// Normalizes one message and adds its rows. A text that is not one JSON
    /// document is refused and leaves the buffer as it was.
    pub fn push_json(&mut self, raw_json: &str) -> (pushed: Result<(), PushError>)
        ensures
            final(self).hint() == old(self).hint(),
            match pushed {
                Ok(_) => {
                    &&& json_fields(raw_json@) is Some
                    &&& exists|rows: Seq<RowView>|
                        #[trigger] is_normalization(raw_json@, rows) && final(self)@ == old(self)@
                            + rows
                },
                Err(_) => json_fields(raw_json@) is None && final(self)@ == old(self)@,
            },
    {
        match parse_fields(raw_json) {
            Ok(fields) => {
                let rows = rows_of_message(&fields, raw_json);
                let ghost added = rows_view(rows@);
                self.extend(rows);
                proof {
                    lemma_rows_are_normalization(raw_json@, fields_view(fields@), added);
                }
                Ok(())
            },
            Err(error) => Err(PushError::Malformed(error_text(&error))),
        }
    }

    /// The command that flushes the rows held into the named table. An empty
    /// buffer has nothing to flush: no command is issued.
    pub fn flush_to_duckdb(&self, table: &str) -> (command: Option<DbCommand>)
        ensures
            command is None <==> self@.len() == 0,
            match command {
                Some(c) => flush_command(self@, table@) == Some(c@),
                None => flush_command(self@, table@) is None,
            },
    {
        if self.rows.len() == 0 {
            None
        } else {
            let batch = create_arrow_record_batch(self.rows.as_slice());
            Some(DbCommand::InsertBatch(batch, table.to_owned()))
        }
    }

    /// Takes the store's answer to a flush of the rows held: they leave the
    /// buffer once the store has them, and stay for the next try otherwise.
    pub fn flush_done(&mut self, stored: bool)
        ensures
            final(self).hint() == old(self).hint(),
            final(self)@ == if stored {
                Seq::<RowView>::empty()
            } else {
                old(self)@
            },
    {
        if stored {
            self.clear();
        }
    }
}

} // verus!
