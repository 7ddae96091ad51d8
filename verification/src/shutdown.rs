//! The shutdown coordinator: which signal leads to which step, in which
//! order.

use vstd::prelude::*;

verus! {

/// The signals that the process answers.
#[derive(Clone, Copy, Debug, PartialEq, Eq, Structural)]
pub enum Signal {
    /// Reload: checkpoint the store and go on.
    Hangup,
    Interrupt,
    Terminate,
}

/// How far the shutdown has come.
#[derive(Clone, Copy, Debug, PartialEq, Eq, Structural)]
pub enum Stage {
    /// No shutdown was asked for.
    Serving,
    /// The ingest loop was told to drain and has not stopped yet.
    AwaitingIngest,
    /// The store was told to close and has not answered yet.
    AwaitingStore,
    /// The actor's thread has not ended yet.
    AwaitingActor,
    /// The process may exit.
    Finished,
}

/// What reaches the coordinator. Each completion says whether it was clean;
/// an unclean one is for the log and changes nothing in the sequence.
#[derive(Clone, Copy, Debug, PartialEq, Eq, Structural)]
pub enum CoordinatorEvent {
    Signal(Signal),
    IngestStopped(bool),
    StoreClosed(bool),
    ActorExited(bool),
}

/// What the coordinator asks for.
#[derive(Clone, Copy, Debug, PartialEq, Eq, Structural)]
pub enum CoordinatorAction {
    /// Nothing.
    Ignore,
    /// Submit a checkpoint; ingestion goes on.
    Checkpoint,
    /// Tell the ingest loop to drain, and wait for it to stop.
    StopIngest,
    /// Submit the shutdown command to the storage actor, and wait for its reply.
    ShutdownStore,
    /// Wait for the actor's thread to end.
    JoinActor,
    /// Let the process exit.
    Exit,
}

/// One step of the coordinator: the stage after the event, and the action.
pub open spec fn advance(stage: Stage, event: CoordinatorEvent) -> (Stage, CoordinatorAction) {
    match (stage, event) {
        (Stage::Serving, CoordinatorEvent::Signal(Signal::Hangup)) => (
            Stage::Serving,
            CoordinatorAction::Checkpoint,
        ),
        (Stage::Serving, CoordinatorEvent::Signal(_)) => (
            Stage::AwaitingIngest,
            CoordinatorAction::StopIngest,
        ),
        (Stage::AwaitingIngest, CoordinatorEvent::IngestStopped(_)) => (
            Stage::AwaitingStore,
            CoordinatorAction::ShutdownStore,
        ),
        (Stage::AwaitingStore, CoordinatorEvent::StoreClosed(_)) => (
            Stage::AwaitingActor,
            CoordinatorAction::JoinActor,
        ),
        (Stage::AwaitingActor, CoordinatorEvent::ActorExited(_)) => (
            Stage::Finished,
            CoordinatorAction::Exit,
        ),
        _ => (stage, CoordinatorAction::Ignore),
    }
}

/// The steps of the shutdown sequence that are still to come at a stage, in
/// their order.
pub open spec fn remaining(stage: Stage) -> Seq<CoordinatorAction> {
    match stage {
        Stage::Serving => seq![
            CoordinatorAction::StopIngest,
            CoordinatorAction::ShutdownStore,
            CoordinatorAction::JoinActor,
            CoordinatorAction::Exit,
        ],
        Stage::AwaitingIngest => seq![
            CoordinatorAction::ShutdownStore,
            CoordinatorAction::JoinActor,
            CoordinatorAction::Exit,
        ],
        Stage::AwaitingStore => seq![CoordinatorAction::JoinActor, CoordinatorAction::Exit],
        Stage::AwaitingActor => seq![CoordinatorAction::Exit],
        Stage::Finished => seq![],
    }
}

/// Whether an action is a step of the shutdown sequence.
pub open spec fn is_shutdown_step(action: CoordinatorAction) -> bool {
    action != CoordinatorAction::Ignore && action != CoordinatorAction::Checkpoint
}

/// The stage after a sequence of events.
pub open spec fn stage_after(stage: Stage, events: Seq<CoordinatorEvent>) -> Stage
    decreases events.len(),
{
    if events.len() == 0 {
        stage
    } else {
        stage_after(advance(stage, events.first()).0, events.drop_first())
    }
}

/// The steps of the shutdown sequence asked for over a sequence of events,
/// in the order in which they were asked for.
pub open spec fn steps_taken(stage: Stage, events: Seq<CoordinatorEvent>) -> Seq<
    CoordinatorAction,
>
    decreases events.len(),
{
    if events.len() == 0 {
        seq![]
    } else {
        let (next, action) = advance(stage, events.first());
        let later = steps_taken(next, events.drop_first());
        if is_shutdown_step(action) {
            seq![action] + later
        } else {
            later
        }
    }
}

/// Whatever events arrive and in whatever order, the steps of the shutdown
/// are asked for in the one order: stop the ingest loop, shut the store down,
/// join the actor, exit; none twice, none before its predecessor is done.
/// What was asked for and what is still to come make up the whole sequence.
pub proof fn lemma_shutdown_order(stage: Stage, events: Seq<CoordinatorEvent>)
    ensures
        steps_taken(stage, events) + remaining(stage_after(stage, events)) == remaining(stage),
    decreases events.len(),
{
    if events.len() == 0 {
        assert(steps_taken(stage, events) + remaining(stage) =~= remaining(stage));
    } else {
        let (next, action) = advance(stage, events.first());
        lemma_shutdown_order(next, events.drop_first());
        let later = steps_taken(next, events.drop_first());
        let tail = remaining(stage_after(stage, events));
        if is_shutdown_step(action) {
            assert(remaining(stage) =~= seq![action] + remaining(next));
            assert((seq![action] + later) + tail =~= seq![action] + (later + tail));
        }
    }
}

/// A reload signal checkpoints and never starts the shutdown.
pub proof fn lemma_reload_keeps_serving(stage: Stage)
    ensures
        advance(stage, CoordinatorEvent::Signal(Signal::Hangup)).0 == stage,
        advance(stage, CoordinatorEvent::Signal(Signal::Hangup)).1 == if stage == Stage::Serving {
            CoordinatorAction::Checkpoint
        } else {
            CoordinatorAction::Ignore
        },
{
}

/// Whether a completion was clean does not change the sequence.
pub proof fn lemma_errors_do_not_abort(stage: Stage, clean: bool)
    ensures
        advance(stage, CoordinatorEvent::IngestStopped(clean)) == advance(
            stage,
            CoordinatorEvent::IngestStopped(true),
        ),
        advance(stage, CoordinatorEvent::StoreClosed(clean)) == advance(
            stage,
            CoordinatorEvent::StoreClosed(true),
        ),
        advance(stage, CoordinatorEvent::ActorExited(clean)) == advance(
            stage,
            CoordinatorEvent::ActorExited(true),
        ),
{
}

/// The coordinator of one process.
#[derive(Debug)]
pub struct Coordinator {
    stage: Stage,
}

impl View for Coordinator {
    type V = Stage;

    closed spec fn view(&self) -> Stage {
        self.stage
    }
}

impl Coordinator {
    /// A coordinator of a process that serves.
    pub fn new() -> (coordinator: Coordinator)
        ensures
            coordinator@ == Stage::Serving,
    {
        Coordinator { stage: Stage::Serving }
    }

    pub fn stage(&self) -> (stage: Stage)
        ensures
            stage == self@,
    {
        self.stage
    }

    /// Takes one event and says what to do next.
    pub fn on_event(&mut self, event: CoordinatorEvent) -> (action: CoordinatorAction)
        ensures
            final(self)@ == advance(old(self)@, event).0,
            action == advance(old(self)@, event).1,
    {
        match self.stage {
            Stage::Serving => match event {
                CoordinatorEvent::Signal(Signal::Hangup) => CoordinatorAction::Checkpoint,
                CoordinatorEvent::Signal(_) => {
                    self.stage = Stage::AwaitingIngest;
                    CoordinatorAction::StopIngest
                },
                _ => CoordinatorAction::Ignore,
            },
            Stage::AwaitingIngest => match event {
                CoordinatorEvent::IngestStopped(_) => {
                    self.stage = Stage::AwaitingStore;
                    CoordinatorAction::ShutdownStore
                },
                _ => CoordinatorAction::Ignore,
            },
            Stage::AwaitingStore => match event {
                CoordinatorEvent::StoreClosed(_) => {
                    self.stage = Stage::AwaitingActor;
                    CoordinatorAction::JoinActor
                },
                _ => CoordinatorAction::Ignore,
            },
            Stage::AwaitingActor => match event {
                CoordinatorEvent::ActorExited(_) => {
                    self.stage = Stage::Finished;
                    CoordinatorAction::Exit
                },
                _ => CoordinatorAction::Ignore,
            },
            Stage::Finished => CoordinatorAction::Ignore,
        }
    }
}

} // verus!
