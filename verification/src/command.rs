//! The closed set of storage commands and the replies to them.

use vstd::prelude::*;
use vstd::string::StringExecFns;
use crate::batch::{batch_of, create_arrow_record_batch, BatchView, ColumnBatch};
use crate::row::{rows_view, NormalizedRow};

verus! {

/// A storage operation, as it is queued for the storage actor.
#[derive(Debug)]
pub enum DbCommand {
    /// Run one administrative statement; no rows come back.
    Query(String),
    /// Append a batch to the named table.
    InsertBatch(ColumnBatch, String),
    /// Checkpoint: persist the write-ahead state.
    Flush,
    /// Close the store; the last command an actor takes.
    Shutdown,
}

/// What a command says, as plain mathematical values.
pub enum CommandView {
    Query(Seq<char>),
    InsertBatch(BatchView, Seq<char>),
    Flush,
    Shutdown,
}

impl View for DbCommand {
    type V = CommandView;

    open spec fn view(&self) -> CommandView {
        match self {
            DbCommand::Query(sql) => CommandView::Query(sql@),
            DbCommand::InsertBatch(batch, table) => CommandView::InsertBatch(batch@, table@),
            DbCommand::Flush => CommandView::Flush,
            DbCommand::Shutdown => CommandView::Shutdown,
        }
    }
}

/// The success marker of each command.
#[derive(Clone, Copy, Debug, PartialEq, Eq, Structural)]
pub enum DbResponse {
    QueryResult,
    InsertResult,
    FlushResult,
    ShutdownResult,
}

/// The statement that creates the measurements table under the given name,
/// unless it exists.
pub open spec fn create_table_sql(table: Seq<char>) -> Seq<char> {
    "CREATE TABLE IF NOT EXISTS "@ + table
        + " (timestamp TIMESTAMP, model VARCHAR, sensor_id VARCHAR, measurement_type INTEGER, value DOUBLE, raw_json VARCHAR)"@
}

/// The command that creates the measurements table under the given name:
/// one column per row field.
pub fn create_table(table: &str) -> (command: DbCommand)
    ensures
        command@ == CommandView::Query(create_table_sql(table@)),
{
    let mut sql = "CREATE TABLE IF NOT EXISTS ".to_owned();
    sql.append(table);
    sql.append(
        " (timestamp TIMESTAMP, model VARCHAR, sensor_id VARCHAR, measurement_type INTEGER, value DOUBLE, raw_json VARCHAR)",
    );
    DbCommand::Query(sql)
}

/// The command that a flush of the given rows issues, if any.
pub open spec fn flush_command(rows: Seq<crate::row::RowView>, table: Seq<char>) -> Option<
    CommandView,
> {
    if rows.len() == 0 {
        None
    } else {
        Some(CommandView::InsertBatch(batch_of(rows), table))
    }
}

/// Turns rows into the command that appends them to the named table as one
/// batch. Without rows there is nothing to flush and no command.
pub fn flush_to_duckdb(rows: Vec<NormalizedRow>, table: &str) -> (command: Option<DbCommand>)
    ensures
        match command {
            Some(c) => flush_command(rows_view(rows@), table@) == Some(c@),
            None => flush_command(rows_view(rows@), table@) is None,
        },
{
    if rows.len() == 0 {
        None
    } else {
        let batch = create_arrow_record_batch(rows.as_slice());
        Some(DbCommand::InsertBatch(batch, table.to_owned()))
    }
}

} // verus!
