//! The ingest loop as a state machine: one event in, one action out.
//!
//! The driver waits for the next bus event, timer tick or shutdown notice,
//! hands it to the loop and performs the action that comes back. A flush is
//! answered with `FlushDone` before any other event is handed in; an event
//! that arrives meanwhile is deferred, not lost.

use vstd::prelude::*;
use crate::batch::batch_of;
use crate::buffer::MqttBuffer;
use crate::command::{CommandView, DbCommand};
use crate::normalize::{is_normalization, normalize_one_message};
use crate::row::{rows_view, NormalizedRow, RowView};

verus! {

/// The number of unflushed messages at which a flush is due.
pub const FLUSH_THRESHOLD: u64 = 500;

/// The seconds between two timer ticks; a prime, so that the ticks do not
/// beat against other periodic work.
pub const FLUSH_INTERVAL_SECS: u64 = 113;

/// The seconds to wait after a connection error of the bus client.
pub const BACKOFF_SECS: u64 = 1;

/// The states of the loop as its users see them.
#[derive(Clone, Copy, Debug, PartialEq, Eq, Structural)]
pub enum LoopState {
    Running,
    Draining,
    Stopped,
}

/// Where the loop stands: idle, or waiting for the store's answer to a flush.
#[derive(Clone, Copy, Debug, PartialEq, Eq, Structural)]
pub enum Phase {
    /// Running, no flush in flight.
    Idle,
    /// Running; a flush that the volume trigger started is in flight.
    FlushingOnVolume,
    /// Running; a flush that the timer started is in flight.
    FlushingOnTimer,
    /// Shutdown was asked for; the final flush is in flight.
    Draining,
    /// Terminal.
    Stopped,
}

/// What the driver hands in.
#[derive(Debug)]
pub enum LoopEvent {
    /// A message was published: its payload as text.
    Publish(String),
    /// Another packet came in from the bus.
    Incoming,
    /// A packet went out to the bus.
    Outgoing,
    /// The bus client reported a connection error.
    ConnectionError,
    /// The flush timer ticked.
    TimerTick,
    /// Shutdown was asked for.
    ShutdownNotice,
    /// The store answered the flush in flight: whether it has the rows.
    FlushDone(bool),
}

/// An event with the message already normalized.
pub enum Input {
    Rows(Seq<RowView>),
    Incoming,
    Outgoing,
    ConnectionError,
    TimerTick,
    ShutdownNotice,
    FlushDone(bool),
}

/// What the driver is to do next.
#[derive(Debug)]
pub enum LoopAction {
    /// Nothing; wait for the next event.
    Idle,
    /// Submit this insert and hand its outcome in as `FlushDone`.
    Flush(DbCommand),
    /// Submit a checkpoint; its outcome is of no concern to the loop.
    Checkpoint,
    /// Wait this many seconds, then go on.
    Backoff(u64),
    /// A flush is in flight: hand this event in again after `FlushDone`.
    Defer,
    /// The loop has ended.
    Stop,
}

pub enum ActionView {
    Idle,
    Flush(CommandView),
    Checkpoint,
    Backoff(u64),
    Defer,
    Stop,
}

impl View for LoopAction {
    type V = ActionView;

    open spec fn view(&self) -> ActionView {
        match self {
            LoopAction::Idle => ActionView::Idle,
            LoopAction::Flush(command) => ActionView::Flush(command@),
            LoopAction::Checkpoint => ActionView::Checkpoint,
            LoopAction::Backoff(seconds) => ActionView::Backoff(*seconds),
            LoopAction::Defer => ActionView::Defer,
            LoopAction::Stop => ActionView::Stop,
        }
    }
}

/// The loop's state as plain mathematical values.
pub struct LoopView {
    pub phase: Phase,
    /// The buffered rows, in arrival order.
    pub rows: Seq<RowView>,
    /// The table that flushes go to.
    pub table: Seq<char>,
    /// Messages received since the start.
    pub total: u64,
    /// Messages received since the last flush that the store confirmed.
    pub unflushed: u64,
}

/// The user-visible state of a phase.
pub open spec fn state_of(phase: Phase) -> LoopState {
    match phase {
        Phase::Idle | Phase::FlushingOnVolume | Phase::FlushingOnTimer => LoopState::Running,
        Phase::Draining => LoopState::Draining,
        Phase::Stopped => LoopState::Stopped,
    }
}

/// Whether a flush is in flight in this phase.
pub open spec fn is_flushing(phase: Phase) -> bool {
    phase == Phase::FlushingOnVolume || phase == Phase::FlushingOnTimer || phase
        == Phase::Draining
}

/// A counter one message later; it stays at the largest value once there.
pub open spec fn bump(n: u64) -> u64 {
    if n < u64::MAX {
        (n + 1) as u64
    } else {
        n
    }
}

/// The volume trigger: the unflushed counter has reached the threshold.
pub open spec fn volume_trigger(unflushed: u64) -> bool {
    unflushed >= FLUSH_THRESHOLD
}

/// Starting a flush of the buffered rows and waiting for it in `next`. With
/// an empty buffer nothing is flushed and no command is issued.
pub open spec fn start_flush(pre: LoopView, next: Phase) -> (LoopView, ActionView) {
    if pre.rows.len() == 0 {
        (pre, ActionView::Idle)
    } else {
        (
            LoopView { phase: next, ..pre },
            ActionView::Flush(CommandView::InsertBatch(batch_of(pre.rows), pre.table)),
        )
    }
}

/// One step of an idle loop.
pub open spec fn step_idle(pre: LoopView, input: Input) -> (LoopView, ActionView) {
    match input {
        Input::Rows(rows) => {
            let taken = LoopView {
                rows: pre.rows + rows,
                total: bump(pre.total),
                unflushed: bump(pre.unflushed),
                ..pre
            };
            if volume_trigger(taken.unflushed) {
                start_flush(taken, Phase::FlushingOnVolume)
            } else {
                (taken, ActionView::Idle)
            }
        },
        Input::Incoming | Input::Outgoing | Input::FlushDone(_) => (pre, ActionView::Idle),
        Input::ConnectionError => (pre, ActionView::Backoff(BACKOFF_SECS)),
        Input::TimerTick => start_flush(pre, Phase::FlushingOnTimer),
        Input::ShutdownNotice => if pre.rows.len() == 0 {
            (LoopView { phase: Phase::Stopped, ..pre }, ActionView::Stop)
        } else {
            start_flush(pre, Phase::Draining)
        },
    }
}

/// The loop after the store's answer to the flush in flight: confirmed rows
/// leave the buffer and the unflushed counter starts again; after a failure
/// both stay as they were, for the next trigger to try again.
pub open spec fn settled(pre: LoopView, stored: bool, next: Phase) -> LoopView {
    if stored {
        LoopView { phase: next, rows: Seq::empty(), unflushed: 0, ..pre }
    } else {
        LoopView { phase: next, ..pre }
    }
}

/// One step of a loop that waits for a flush: only the store's answer moves
/// it, every other event is deferred.
pub open spec fn step_flushing(pre: LoopView, input: Input) -> (LoopView, ActionView) {
    match input {
        Input::FlushDone(stored) => match pre.phase {
            Phase::Draining => (settled(pre, stored, Phase::Stopped), ActionView::Stop),
            Phase::FlushingOnTimer => (
                settled(pre, stored, Phase::Idle),
                if stored {
                    ActionView::Checkpoint
                } else {
                    ActionView::Idle
                },
            ),
            _ => (settled(pre, stored, Phase::Idle), ActionView::Idle),
        },
        _ => (pre, ActionView::Defer),
    }
}

/// One step of the loop: the state after the event, and the action.
pub open spec fn step(pre: LoopView, input: Input) -> (LoopView, ActionView) {
    match pre.phase {
        Phase::Stopped => (pre, ActionView::Stop),
        Phase::Idle => step_idle(pre, input),
        _ => step_flushing(pre, input),
    }
}

/// The state after a sequence of events.
pub open spec fn run(pre: LoopView, inputs: Seq<Input>) -> LoopView
    decreases inputs.len(),
{
    if inputs.len() == 0 {
        pre
    } else {
        run(step(pre, inputs.first()).0, inputs.drop_first())
    }
}

/// The number of flushes issued over a sequence of events.
pub open spec fn flushes(pre: LoopView, inputs: Seq<Input>) -> nat
    decreases inputs.len(),
{
    if inputs.len() == 0 {
        0
    } else {
        let (next, action) = step(pre, inputs.first());
        let here: nat = if action is Flush {
            1
        } else {
            0
        };
        here + flushes(next, inputs.drop_first())
    }
}

/// With an empty buffer no trigger issues a command: the timer tick changes
/// nothing, a message without rows is counted and nothing more, and a
/// shutdown notice stops the loop without a flush.
pub proof fn lemma_empty_buffer_issues_nothing(pre: LoopView)
    requires
        pre.phase == Phase::Idle,
        pre.rows.len() == 0,
    ensures
        step(pre, Input::TimerTick) == (pre, ActionView::Idle),
        step(pre, Input::Rows(Seq::empty())).1 == ActionView::Idle,
        step(pre, Input::Rows(Seq::empty())).0.rows.len() == 0,
        step(pre, Input::ShutdownNotice).1 == ActionView::Stop,
{
    assert(pre.rows + Seq::<RowView>::empty() =~= pre.rows);
}

/// After a flush that the store confirmed, the unflushed counter is zero and
/// the buffer is empty; after one that failed, both are as before. The total
/// counter and the table never change with the answer.
pub proof fn lemma_flush_outcome(pre: LoopView, stored: bool)
    requires
        is_flushing(pre.phase),
    ensures
        stored ==> step(pre, Input::FlushDone(true)).0.unflushed == 0 && step(
            pre,
            Input::FlushDone(true),
        ).0.rows.len() == 0,
        !stored ==> step(pre, Input::FlushDone(false)).0.unflushed == pre.unflushed && step(
            pre,
            Input::FlushDone(false),
        ).0.rows == pre.rows,
        step(pre, Input::FlushDone(stored)).0.total == pre.total,
        step(pre, Input::FlushDone(stored)).0.table == pre.table,
        !(step(pre, Input::FlushDone(stored)).1 is Flush),
{
}

/// Nothing but the store's confirmation of the flush in flight resets the
/// unflushed counter or takes rows out of the buffer: after every other step
/// the counter is no smaller, the buffered rows are still there in their
/// order, and the total never shrinks at all.
pub proof fn lemma_only_confirmation_resets(pre: LoopView, input: Input)
    ensures
        step(pre, input).0.total >= pre.total,
        step(pre, input).0.table == pre.table,
        !(is_flushing(pre.phase) && input == Input::FlushDone(true)) ==> {
            &&& step(pre, input).0.unflushed >= pre.unflushed
            &&& pre.rows.is_prefix_of(step(pre, input).0.rows)
        },
{
    assert(pre.rows.is_prefix_of(pre.rows));
    match input {
        Input::Rows(rows) => {
            assert(pre.rows.is_prefix_of(pre.rows + rows));
        },
        _ => {},
    }
}

/// A message starts a flush exactly when it brings the unflushed counter to
/// the threshold and there are rows to flush.
pub proof fn lemma_volume_trigger(pre: LoopView, rows: Seq<RowView>)
    requires
        pre.phase == Phase::Idle,
    ensures
        step(pre, Input::Rows(rows)).1 is Flush <==> volume_trigger(bump(pre.unflushed)) && (
        pre.rows + rows).len() > 0,
        step(pre, Input::Rows(rows)).1 is Flush ==> step(pre, Input::Rows(rows)).1
            == ActionView::Flush(CommandView::InsertBatch(batch_of(pre.rows + rows), pre.table)),
{
}

/// Every input of the sequence is a message.
pub open spec fn all_messages(inputs: Seq<Input>) -> bool {
    forall|i: int| 0 <= i < inputs.len() ==> (#[trigger] inputs[i]) is Rows
}

/// Below the threshold no message starts a flush: an idle loop that takes
/// `k` messages while its counter stays under the threshold issues none, stays
/// idle, and has counted each message. This holds from a counter of zero, so
/// right after a reset too.
pub proof fn lemma_no_flush_below_threshold(pre: LoopView, inputs: Seq<Input>)
    requires
        pre.phase == Phase::Idle,
        all_messages(inputs),
        pre.unflushed + inputs.len() < FLUSH_THRESHOLD,
    ensures
        flushes(pre, inputs) == 0,
        run(pre, inputs).phase == Phase::Idle,
        run(pre, inputs).unflushed == pre.unflushed + inputs.len(),
    decreases inputs.len(),
{
    if inputs.len() > 0 {
        assert(inputs[0] is Rows);
        let next = step(pre, inputs.first()).0;
        assert(all_messages(inputs.drop_first())) by {
            assert forall|i: int| 0 <= i < inputs.drop_first().len() implies (
            #[trigger] inputs.drop_first()[i]) is Rows by {
                assert(inputs[i + 1] is Rows);
            }
        }
        lemma_no_flush_below_threshold(next, inputs.drop_first());
    }
}

/// Once the final flush is in flight, or the loop has stopped, no further
/// flush is issued, whatever events follow.
pub proof fn lemma_no_flush_after_drain(pre: LoopView, inputs: Seq<Input>)
    requires
        pre.phase == Phase::Draining || pre.phase == Phase::Stopped,
    ensures
        flushes(pre, inputs) == 0,
        run(pre, inputs).phase == Phase::Draining || run(pre, inputs).phase == Phase::Stopped,
    decreases inputs.len(),
{
    if inputs.len() > 0 {
        lemma_no_flush_after_drain(step(pre, inputs.first()).0, inputs.drop_first());
    }
}

/// Shutdown flushes the residual rows exactly once: from the shutdown notice
/// on, one flush is issued if rows are buffered and none if not, whatever
/// events follow; and that flush carries all the buffered rows.
pub proof fn lemma_shutdown_flushes_once(pre: LoopView, rest: Seq<Input>)
    requires
        pre.phase == Phase::Idle,
    ensures
        flushes(pre, seq![Input::ShutdownNotice] + rest) == if pre.rows.len() > 0 {
            1nat
        } else {
            0nat
        },
        pre.rows.len() > 0 ==> step(pre, Input::ShutdownNotice).1 == ActionView::Flush(
            CommandView::InsertBatch(batch_of(pre.rows), pre.table),
        ),
{
    let inputs = seq![Input::ShutdownNotice] + rest;
    assert(inputs.first() == Input::ShutdownNotice);
    assert(inputs.drop_first() =~= rest);
    lemma_no_flush_after_drain(step(pre, Input::ShutdownNotice).0, rest);
}

/// The ingest loop: the buffer, the two counters and the phase.
#[derive(Debug)]
pub struct IngestLoop {
    phase: Phase,
    buffer: MqttBuffer,
    table: String,
    total: u64,
    unflushed: u64,
}

impl View for IngestLoop {
    type V = LoopView;

    closed spec fn view(&self) -> LoopView {
        LoopView {
            phase: self.phase,
            rows: self.buffer@,
            table: self.table@,
            total: self.total,
            unflushed: self.unflushed,
        }
    }
}

/// The event as the state machine reads it, for every event but a message.
pub open spec fn input_of(event: LoopEvent) -> Input {
    match event {
        LoopEvent::Publish(_) => Input::Rows(Seq::empty()),
        LoopEvent::Incoming => Input::Incoming,
        LoopEvent::Outgoing => Input::Outgoing,
        LoopEvent::ConnectionError => Input::ConnectionError,
        LoopEvent::TimerTick => Input::TimerTick,
        LoopEvent::ShutdownNotice => Input::ShutdownNotice,
        LoopEvent::FlushDone(stored) => Input::FlushDone(stored),
    }
}

/// The rows that the loop takes from a payload: its normalization while the
/// loop is idle, and any rows at all while it is not, since the message is
/// then deferred unread.
pub open spec fn reads_as(pre: LoopView, payload: Seq<char>, rows: Seq<RowView>) -> bool {
    pre.phase == Phase::Idle ==> is_normalization(payload, rows)
}

fn bump_counter(n: u64) -> (m: u64)
    ensures
        m == bump(n),
{
    if n < u64::MAX {
        n + 1
    } else {
        n
    }
}

impl IngestLoop {
    /// A loop at its start: idle, nothing buffered, nothing counted.
    pub fn new(table: String) -> (ingest: IngestLoop)
        ensures
            ingest@ == (LoopView {
                phase: Phase::Idle,
                rows: Seq::empty(),
                table: table@,
                total: 0,
                unflushed: 0,
            }),
    {
        IngestLoop { phase: Phase::Idle, buffer: MqttBuffer::new(0), table, total: 0, unflushed: 0 }
    }

    pub fn phase(&self) -> (phase: Phase)
        ensures
            phase == self@.phase,
    {
        self.phase
    }

    pub fn state(&self) -> (state: LoopState)
        ensures
            state == state_of(self@.phase),
    {
        match self.phase {
            Phase::Idle | Phase::FlushingOnVolume | Phase::FlushingOnTimer => LoopState::Running,
            Phase::Draining => LoopState::Draining,
            Phase::Stopped => LoopState::Stopped,
        }
    }

    /// The number of buffered rows.
    pub fn buffered(&self) -> (n: usize)
        ensures
            n == self@.rows.len(),
    {
        self.buffer.len()
    }

    /// Messages received since the start.
    pub fn total_messages(&self) -> (n: u64)
        ensures
            n == self@.total,
    {
        self.total
    }

    /// Messages received since the last flush that the store confirmed.
    pub fn unflushed_messages(&self) -> (n: u64)
        ensures
            n == self@.unflushed,
    {
        self.unflushed
    }

    fn begin_flush(&mut self, next: Phase) -> (action: LoopAction)
        ensures
            final(self)@ == start_flush(old(self)@, next).0,
            action@ == start_flush(old(self)@, next).1,
    {
        match self.buffer.flush_to_duckdb(self.table.as_str()) {
            Some(command) => {
                self.phase = next;
                LoopAction::Flush(command)
            },
            None => LoopAction::Idle,
        }
    }

    fn settle(&mut self, stored: bool, next: Phase)
        ensures
            final(self)@ == settled(old(self)@, stored, next),
    {
        self.buffer.flush_done(stored);
        if stored {
            self.unflushed = 0;
        }
        self.phase = next;
    }

    /// Takes a message whose rows are given. Handing in a message while the
    /// loop is not idle defers it: the rows are not taken.
    pub fn on_rows(&mut self, rows: Vec<NormalizedRow>) -> (action: LoopAction)
        ensures
            final(self)@ == step(old(self)@, Input::Rows(rows_view(rows@))).0,
            action@ == step(old(self)@, Input::Rows(rows_view(rows@))).1,
    {
        match self.phase {
            Phase::Stopped => LoopAction::Stop,
            Phase::Idle => {
                self.total = bump_counter(self.total);
                self.unflushed = bump_counter(self.unflushed);
                self.buffer.extend(rows);
                if self.unflushed >= FLUSH_THRESHOLD {
                    self.begin_flush(Phase::FlushingOnVolume)
                } else {
                    LoopAction::Idle
                }
            },
            _ => LoopAction::Defer,
        }
    }

    /// Takes one event and says what to do next. A published message is
    /// normalized and goes the way of `on_rows`; while the loop is not idle
    /// the message is deferred unread.
    pub fn handle(&mut self, event: LoopEvent) -> (action: LoopAction)
        ensures
            match event {
                LoopEvent::Publish(payload) => exists|rows: Seq<RowView>|
                    #[trigger] reads_as(old(self)@, payload@, rows) && final(self)@ == step(
                        old(self)@,
                        Input::Rows(rows),
                    ).0 && action@ == step(old(self)@, Input::Rows(rows)).1,
                _ => final(self)@ == step(old(self)@, input_of(event)).0 && action@ == step(
                    old(self)@,
                    input_of(event),
                ).1,
            },
    {
        match event {
            LoopEvent::Publish(payload) => {
                let rows = match self.phase {
                    Phase::Idle => normalize_one_message(payload.as_str()),
                    _ => Vec::new(),
                };
                let ghost taken = rows_view(rows@);
                let action = self.on_rows(rows);
                assert(reads_as(old(self)@, payload@, taken));
                action
            },
            LoopEvent::FlushDone(stored) => match self.phase {
                Phase::Stopped => LoopAction::Stop,
                Phase::Idle => LoopAction::Idle,
                Phase::Draining => {
                    self.settle(stored, Phase::Stopped);
                    LoopAction::Stop
                },
                Phase::FlushingOnTimer => {
                    self.settle(stored, Phase::Idle);
                    if stored {
                        LoopAction::Checkpoint
                    } else {
                        LoopAction::Idle
                    }
                },
                Phase::FlushingOnVolume => {
                    self.settle(stored, Phase::Idle);
                    LoopAction::Idle
                },
            },
            _ => match self.phase {
                Phase::Stopped => LoopAction::Stop,
                Phase::Idle => match event {
                    LoopEvent::ConnectionError => LoopAction::Backoff(BACKOFF_SECS),
                    LoopEvent::TimerTick => self.begin_flush(Phase::FlushingOnTimer),
                    LoopEvent::ShutdownNotice => {
                        if self.buffer.is_empty() {
                            self.phase = Phase::Stopped;
                            LoopAction::Stop
                        } else {
                            self.begin_flush(Phase::Draining)
                        }
                    },
                    _ => LoopAction::Idle,
                },
                _ => LoopAction::Defer,
            },
        }
    }
}

} // verus!
