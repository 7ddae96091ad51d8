//! The storage actor's protocol: one command at a time, one reply for each.
//!
//! The actor's thread owns the store. It takes a command from its queue,
//! asks `accept` what to do on the store, does it, and asks `complete` what
//! to answer. Here stand the decisions; the store itself is the driver's.

use vstd::prelude::*;
use crate::batch::{BatchView, ColumnBatch};
use crate::command::{CommandView, DbCommand, DbResponse};

verus! {

/// Which of the four commands.
#[derive(Clone, Copy, Debug, PartialEq, Eq, Structural)]
pub enum CommandKind {
    Query,
    InsertBatch,
    Flush,
    Shutdown,
}

/// What the actor does on the store for one command.
#[derive(Debug)]
pub enum StoreOp {
    /// Run the statement.
    Execute(String),
    /// Append the batch to the named table and flush the appender.
    Append(ColumnBatch, String),
    /// Close the connection.
    Close,
}

pub enum OpView {
    Execute(Seq<char>),
    Append(BatchView, Seq<char>),
    Close,
}

impl View for StoreOp {
    type V = OpView;

    open spec fn view(&self) -> OpView {
        match self {
            StoreOp::Execute(sql) => OpView::Execute(sql@),
            StoreOp::Append(batch, table) => OpView::Append(batch@, table@),
            StoreOp::Close => OpView::Close,
        }
    }
}

/// Where the actor stands.
#[derive(Clone, Copy, Debug, PartialEq, Eq, Structural)]
pub enum ActorPhase {
    /// Waiting for the next command.
    Ready,
    /// A command of this kind is being executed.
    Busy(CommandKind),
    /// The store is closed; terminal.
    Stopped,
}

/// What the actor sends back for one command, and what follows from it.
#[derive(Debug)]
pub struct Reply {
    /// The success marker of the command, or the store's error.
    pub response: Result<DbResponse, String>,
    /// Whether the unflushed counter starts again: after an insert that the
    /// store confirmed, and only then.
    pub reset_unflushed: bool,
    /// Whether the actor's loop ends with this reply.
    pub last: bool,
}

pub struct ReplyView {
    pub response: Result<DbResponse, Seq<char>>,
    pub reset_unflushed: bool,
    pub last: bool,
}

impl View for Reply {
    type V = ReplyView;

    open spec fn view(&self) -> ReplyView {
        ReplyView {
            response: match self.response {
                Ok(response) => Ok(response),
                Err(message) => Err(message@),
            },
            reset_unflushed: self.reset_unflushed,
            last: self.last,
        }
    }
}

/// The kind of a command.
pub open spec fn kind_of(command: CommandView) -> CommandKind {
    match command {
        CommandView::Query(_) => CommandKind::Query,
        CommandView::InsertBatch(_, _) => CommandKind::InsertBatch,
        CommandView::Flush => CommandKind::Flush,
        CommandView::Shutdown => CommandKind::Shutdown,
    }
}

/// The store operation of a command: a checkpoint is the statement
/// `CHECKPOINT`.
pub open spec fn op_of(command: CommandView) -> OpView {
    match command {
        CommandView::Query(sql) => OpView::Execute(sql),
        CommandView::InsertBatch(batch, table) => OpView::Append(batch, table),
        CommandView::Flush => OpView::Execute("CHECKPOINT"@),
        CommandView::Shutdown => OpView::Close,
    }
}

/// The success marker of each kind of command.
pub open spec fn response_of(kind: CommandKind) -> DbResponse {
    match kind {
        CommandKind::Query => DbResponse::QueryResult,
        CommandKind::InsertBatch => DbResponse::InsertResult,
        CommandKind::Flush => DbResponse::FlushResult,
        CommandKind::Shutdown => DbResponse::ShutdownResult,
    }
}

/// The reply to a command of the given kind whose store operation ended with
/// `outcome`.
pub open spec fn reply_of(kind: CommandKind, outcome: Result<(), Seq<char>>) -> ReplyView {
    ReplyView {
        response: match outcome {
            Ok(_) => Ok(response_of(kind)),
            Err(message) => Err(message),
        },
        reset_unflushed: kind == CommandKind::InsertBatch && outcome is Ok,
        last: kind == CommandKind::Shutdown,
    }
}

/// The phase after a reply: a failed command does not stop the actor, a
/// shutdown always does.
pub open spec fn phase_after(kind: CommandKind) -> ActorPhase {
    if kind == CommandKind::Shutdown {
        ActorPhase::Stopped
    } else {
        ActorPhase::Ready
    }
}

/// What reaches the actor: a command from the queue, or the end of the store
/// operation that it is executing.
pub enum ActorInput {
    Command(CommandView),
    Outcome(Result<(), Seq<char>>),
}

/// What the actor does with an input.
pub enum ActorOutput {
    /// Executes the operation on the store.
    Perform(OpView),
    /// Sends the reply of the command in execution.
    Answer(ReplyView),
    /// Nothing: a command while busy or stopped, an outcome without command.
    Refuse,
}

/// One step of the actor.
pub open spec fn actor_step(pre: ActorPhase, input: ActorInput) -> (ActorPhase, ActorOutput) {
    match (pre, input) {
        (ActorPhase::Ready, ActorInput::Command(command)) => (
            ActorPhase::Busy(kind_of(command)),
            ActorOutput::Perform(op_of(command)),
        ),
        (ActorPhase::Busy(kind), ActorInput::Outcome(outcome)) => (
            phase_after(kind),
            ActorOutput::Answer(reply_of(kind, outcome)),
        ),
        _ => (pre, ActorOutput::Refuse),
    }
}

/// The phase after a sequence of inputs.
pub open spec fn actor_run(pre: ActorPhase, inputs: Seq<ActorInput>) -> ActorPhase
    decreases inputs.len(),
{
    if inputs.len() == 0 {
        pre
    } else {
        actor_run(actor_step(pre, inputs.first()).0, inputs.drop_first())
    }
}

/// The number of store operations executed over a sequence of inputs.
pub open spec fn performed(pre: ActorPhase, inputs: Seq<ActorInput>) -> nat
    decreases inputs.len(),
{
    if inputs.len() == 0 {
        0
    } else {
        let (next, output) = actor_step(pre, inputs.first());
        let here: nat = if output is Perform {
            1
        } else {
            0
        };
        here + performed(next, inputs.drop_first())
    }
}

/// The number of replies sent over a sequence of inputs.
pub open spec fn answered(pre: ActorPhase, inputs: Seq<ActorInput>) -> nat
    decreases inputs.len(),
{
    if inputs.len() == 0 {
        0
    } else {
        let (next, output) = actor_step(pre, inputs.first());
        let here: nat = if output is Answer {
            1
        } else {
            0
        };
        here + answered(next, inputs.drop_first())
    }
}

/// One for a command in execution, zero otherwise.
pub open spec fn outstanding(phase: ActorPhase) -> nat {
    if phase is Busy {
        1
    } else {
        0
    }
}

/// Every command that is executed is answered exactly once: over any
/// sequence of inputs the replies sent and the commands still in execution
/// add up to the operations executed, and at most one command is in
/// execution at a time.
pub proof fn lemma_one_reply_per_command(pre: ActorPhase, inputs: Seq<ActorInput>)
    ensures
        answered(pre, inputs) + outstanding(actor_run(pre, inputs)) == performed(pre, inputs)
            + outstanding(pre),
    decreases inputs.len(),
{
    if inputs.len() > 0 {
        lemma_one_reply_per_command(actor_step(pre, inputs.first()).0, inputs.drop_first());
    }
}

/// After the shutdown nothing is executed and nothing is answered.
pub proof fn lemma_stopped_is_terminal(inputs: Seq<ActorInput>)
    ensures
        actor_run(ActorPhase::Stopped, inputs) == ActorPhase::Stopped,
        performed(ActorPhase::Stopped, inputs) == 0,
        answered(ActorPhase::Stopped, inputs) == 0,
    decreases inputs.len(),
{
    if inputs.len() > 0 {
        lemma_stopped_is_terminal(inputs.drop_first());
    }
}

/// The actor's side of the command protocol.
#[derive(Debug)]
pub struct StorageActor {
    phase: ActorPhase,
}

impl View for StorageActor {
    type V = ActorPhase;

    closed spec fn view(&self) -> ActorPhase {
        self.phase
    }
}

impl StorageActor {
    /// An actor whose store is open and that waits for its first command.
    pub fn new() -> (actor: StorageActor)
        ensures
            actor@ == ActorPhase::Ready,
    {
        StorageActor { phase: ActorPhase::Ready }
    }

    pub fn phase(&self) -> (phase: ActorPhase)
        ensures
            phase == self@,
    {
        self.phase
    }

    /// Takes the next command from the queue and says what to do on the
    /// store. A command that arrives while another is in execution, or after
    /// the shutdown, is handed back untouched.
    pub fn accept(&mut self, command: DbCommand) -> (taken: Result<StoreOp, DbCommand>)
        ensures
            final(self)@ == actor_step(old(self)@, ActorInput::Command(command@)).0,
            match taken {
                Ok(op) => actor_step(old(self)@, ActorInput::Command(command@)).1
                    == ActorOutput::Perform(op@),
                Err(back) => back@ == command@ && actor_step(
                    old(self)@,
                    ActorInput::Command(command@),
                ).1 == ActorOutput::Refuse,
            },
    {
        match self.phase {
            ActorPhase::Ready => match command {
                DbCommand::Query(sql) => {
                    self.phase = ActorPhase::Busy(CommandKind::Query);
                    Ok(StoreOp::Execute(sql))
                },
                DbCommand::InsertBatch(batch, table) => {
                    self.phase = ActorPhase::Busy(CommandKind::InsertBatch);
                    Ok(StoreOp::Append(batch, table))
                },
                DbCommand::Flush => {
                    self.phase = ActorPhase::Busy(CommandKind::Flush);
                    Ok(StoreOp::Execute("CHECKPOINT".to_owned()))
                },
                DbCommand::Shutdown => {
                    self.phase = ActorPhase::Busy(CommandKind::Shutdown);
                    Ok(StoreOp::Close)
                },
            },
            _ => Err(command),
        }
    }

    /// Takes the end of the store operation in execution and gives the reply
    /// to send. Without a command in execution there is nothing to answer.
    pub fn complete(&mut self, outcome: Result<(), String>) -> (reply: Option<Reply>)
        ensures
            final(self)@ == actor_step(old(self)@, ActorInput::Outcome(outcome_view(outcome))).0,
            match reply {
                Some(r) => actor_step(old(self)@, ActorInput::Outcome(outcome_view(outcome))).1
                    == ActorOutput::Answer(r@),
                None => actor_step(old(self)@, ActorInput::Outcome(outcome_view(outcome))).1
                    == ActorOutput::Refuse,
            },
    {
        match self.phase {
            ActorPhase::Busy(kind) => {
                let last = match kind {
                    CommandKind::Shutdown => true,
                    _ => false,
                };
                let inserted = match kind {
                    CommandKind::InsertBatch => true,
                    _ => false,
                };
                let reply = match outcome {
                    Ok(_) => Reply {
                        response: Ok(response_for(kind)),
                        reset_unflushed: inserted,
                        last,
                    },
                    Err(message) => Reply { response: Err(message), reset_unflushed: false, last },
                };
                self.phase = if last {
                    ActorPhase::Stopped
                } else {
                    ActorPhase::Ready
                };
                Some(reply)
            },
            _ => None,
        }
    }
}

/// The outcome of a store operation as plain mathematical values.
pub open spec fn outcome_view(outcome: Result<(), String>) -> Result<(), Seq<char>> {
    match outcome {
        Ok(_) => Ok(()),
        Err(message) => Err(message@),
    }
}

/// The success marker of each kind of command.
pub fn response_for(kind: CommandKind) -> (response: DbResponse)
    ensures
        response == response_of(kind),
{
    match kind {
        CommandKind::Query => DbResponse::QueryResult,
        CommandKind::InsertBatch => DbResponse::InsertResult,
        CommandKind::Flush => DbResponse::FlushResult,
        CommandKind::Shutdown => DbResponse::ShutdownResult,
    }
}

} // verus!
