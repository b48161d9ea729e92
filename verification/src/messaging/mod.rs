//! The stream consumer: envelopes, handler dispatch, offsets and the poll loop.
//!
//! The loop itself waits on the broker, which this crate does not do. What
//! it decides is here: [`PollLoop::step`] takes what the last wait brought
//! and says what to do next.

pub mod config;
pub mod consumer;
pub mod handlers;
pub mod model;
pub mod offset_tracker;
pub mod registry;

use crate::messaging::consumer::{
    lemma_rebalance_keeps_wf, post_rebalance, rebalanced, Rebalance,
};
use crate::messaging::model::{decode_envelope, Envelope};
use crate::messaging::offset_tracker::{lists_exactly, TrackerState};
use crate::messaging::registry::{handler_result, HandlerFunc, Registry};
use crate::misc::context::{enqueue, Context};
use crate::misc::error::Error;
use crate::misc::time::{elapsed_seconds, seconds_between};
use crate::service::bg::{Message, MessageView};
use chrono::NaiveDateTime;
use vstd::prelude::*;

verus! {

/// The name under which the shared context is registered as a service.
pub const SS_CONTEXT_NAME: &'static str = "MESSAGING_CONTEXT";

/// The one topic that the consumer subscribes to.
pub const TOPIC: &'static str = "cloudengineering.selfservice.audit";

/// Offsets are committed when this many seconds have passed since the last
/// commit and a poll brought no message.
pub const COMMIT_INTERVAL_SECONDS: i64 = 30;

/// What became of one message.
#[derive(Debug, Clone, Copy, PartialEq, Eq, Structural)]
pub enum MessageOutcome {
    /// The header could not be decoded; the message is dropped.
    Malformed(Error),
    /// No handler is registered for the event type; the message is skipped.
    Unhandled,
    /// The handler succeeded and what it made went to the sink's channel.
    Handled,
    /// The handler succeeded, but the sink's channel did not take what it
    /// made; the message is not retried.
    Undelivered,
    /// The handler ran and failed; the message is not retried.
    Failed(Error),
}

/// What the dispatch of a message decides, before anything is sent.
pub ghost enum Dispatched {
    /// The header cannot be decoded.
    Malformed(Error),
    /// No handler is registered for the event type.
    Unhandled,
    /// The handler of the event type fails.
    Failed(Error),
    /// The handler of the event type makes this message for the sink.
    Enqueue(MessageView),
}

/// What dispatching the message `text` against the handlers in `table` decides.
pub open spec fn dispatch(table: Map<Seq<char>, HandlerFunc>, text: Seq<char>) -> Dispatched {
    match decode_envelope(text) {
        Err(error) => Dispatched::Malformed(error),
        Ok(header) => if table.contains_key(header.0) {
            match handler_result(table[header.0], text) {
                Ok(message) => Dispatched::Enqueue(message),
                Err(error) => Dispatched::Failed(error),
            }
        } else {
            Dispatched::Unhandled
        },
    }
}

/// Whether `outcome`, and the step from `before` to `after` in what was sent
/// to the sink, are what `decided` asks for. A message that a handler made
/// is sent, alone and as made, or the channel refuses it and nothing is sent;
/// in every other case nothing is sent.
pub open spec fn delivered_as(
    outcome: MessageOutcome,
    decided: Dispatched,
    before: Seq<Message>,
    after: Seq<Message>,
) -> bool {
    match decided {
        Dispatched::Malformed(error) => outcome == MessageOutcome::Malformed(error) && after
            == before,
        Dispatched::Unhandled => outcome == MessageOutcome::Unhandled && after == before,
        Dispatched::Failed(error) => outcome == MessageOutcome::Failed(error) && after == before,
        Dispatched::Enqueue(message) => {
            ||| {
                &&& outcome == MessageOutcome::Handled
                &&& after.len() == before.len() + 1
                &&& after.drop_last() == before
                &&& after.last()@ == message
            }
            ||| outcome == MessageOutcome::Undelivered && after == before
        },
    }
}

/// What became of a message that a handler made, given whether the sink's
/// channel took it.
pub fn delivery_outcome(accepted: bool) -> (outcome: MessageOutcome)
    ensures
        outcome == (if accepted {
            MessageOutcome::Handled
        } else {
            MessageOutcome::Undelivered
        }),
{
    if accepted {
        MessageOutcome::Handled
    } else {
        MessageOutcome::Undelivered
    }
}

/// Handles the message that was read from `partition` at `offset`: decodes
/// its header, runs the handler of its type, if there is one, sends what the
/// handler made to the sink's channel, without blocking, and moves the
/// partition's position past the message whatever came of it.
pub fn process_message(
    registry: &Registry,
    context: &mut Context,
    partition: i32,
    offset: i64,
    payload: &str,
) -> (outcome: MessageOutcome)
    requires
        offset < i64::MAX,
    ensures
        delivered_as(outcome, dispatch(registry@, payload@), old(context).sent(), final(context).sent()),
        final(context).offset_tracker@ == old(context).offset_tracker@.advance(
            partition,
            (offset + 1) as i64,
        ),
        final(context).bg_receiver == old(context).bg_receiver,
{
    let outcome = match Envelope::decode(payload) {
        Err(error) => MessageOutcome::Malformed(error),
        Ok(envelope) => match registry.get_handler(envelope._type.as_str()) {
            None => MessageOutcome::Unhandled,
            Some(handler) => {
                let handled = handler.call(
                    crate::messaging::model::Context {
                        event: envelope,
                        msg: payload.to_owned(),
                        context: &*context,
                    },
                );
                match handled {
                    Err(error) => MessageOutcome::Failed(error),
                    Ok(message) => {
                        let accepted = enqueue(&mut context.bg_sender, message);
                        proof {
                            if accepted {
                                assert(context.sent().drop_last() =~= old(context).sent());
                            }
                        }
                        delivery_outcome(accepted)
                    },
                }
            },
        },
    };
    context.offset_tracker.advance(partition, offset + 1);
    outcome
}

/// Where the poll loop stands.
#[derive(Debug, Clone, Copy, PartialEq, Eq, Structural)]
pub enum LoopState {
    /// Waiting for the next message.
    Polling,
    /// The broker is adding partitions.
    RebalanceAssign,
    /// The broker is taking partitions away.
    RebalanceRevoke,
    /// A commit of the tracked offsets is under way.
    Committing,
    /// The loop has ended; nothing moves it again.
    Stopped,
}

/// What the last wait on the broker brought.
#[derive(Debug)]
pub enum PollEvent {
    /// Shutdown was requested.
    Cancelled,
    /// A rebalance is about to happen.
    PreRebalance(Rebalance),
    /// A rebalance has happened.
    PostRebalance(Rebalance),
    /// The poll timed out without a message.
    Idle,
    /// The poll returned an error of the transport.
    TransportError,
    /// A message arrived. `payload` is `None` where the message has none or
    /// it is not UTF-8.
    Delivered { partition: i32, offset: i64, payload: Option<String> },
    /// The commit that the loop asked for has been made or has failed.
    Committed,
}

/// What the loop does next.
#[derive(Debug)]
pub enum LoopAction {
    /// Poll the broker, for at most a second.
    Poll,
    /// Commit exactly these positions, synchronously, then report
    /// [`PollEvent::Committed`].
    Commit(Vec<(i32, i64)>),
    /// Leave the loop.
    Stop,
}

/// The result of one step.
#[derive(Debug)]
pub struct Step {
    pub action: LoopAction,
    /// What became of the message, where the event was one.
    pub outcome: Option<MessageOutcome>,
}

/// The state of the poll loop between two waits.
pub struct PollLoop {
    pub state: LoopState,
    pub last_offset_update_time: NaiveDateTime,
}

/// Whether enough time has passed for the next commit.
pub open spec fn commit_due(elapsed: i64) -> bool {
    elapsed >= COMMIT_INTERVAL_SECONDS
}

/// Whether any position is on record.
pub open spec fn has_positions(offsets: Map<i32, i64>) -> bool {
    exists|partition: i32| offsets.contains_key(partition)
}

/// The text of a delivered payload; a missing one reads as empty.
pub open spec fn payload_text(payload: Option<String>) -> Seq<char> {
    match payload {
        Some(text) => text@,
        None => Seq::empty(),
    }
}

/// The state after `event`. `commit` says whether an idle poll leads to a
/// commit.
pub open spec fn next_state(state: LoopState, event: PollEvent, commit: bool) -> LoopState {
    if state is Stopped {
        LoopState::Stopped
    } else {
        match event {
            PollEvent::Cancelled => LoopState::Stopped,
            PollEvent::PreRebalance(Rebalance::Assign(_)) => LoopState::RebalanceAssign,
            PollEvent::PreRebalance(Rebalance::Revoke(_)) => LoopState::RebalanceRevoke,
            PollEvent::PreRebalance(Rebalance::Error) => state,
            PollEvent::Idle => if commit {
                LoopState::Committing
            } else {
                LoopState::Polling
            },
            _ => LoopState::Polling,
        }
    }
}

/// The tracker's content after `event`.
pub open spec fn next_tracker(state: LoopState, event: PollEvent, tracker: TrackerState) -> TrackerState {
    if state is Stopped {
        tracker
    } else {
        match event {
            PollEvent::PostRebalance(rebalance) => rebalanced(tracker, rebalance),
            PollEvent::Delivered { partition, offset, payload } => tracker.advance(
                partition,
                (offset + 1) as i64,
            ),
            _ => tracker,
        }
    }
}

/// Whether `event` restarts the commit interval: a finished commit does, and
/// so does an idle poll at which a commit was due but nothing was tracked.
pub open spec fn restarts_interval(state: LoopState, event: PollEvent, elapsed: i64, any: bool) -> bool {
    !(state is Stopped) && match event {
        PollEvent::Committed => true,
        PollEvent::Idle => commit_due(elapsed) && !any,
        _ => false,
    }
}

/// What the dispatch of the message decides, where `event` is a message that
/// a running loop got.
pub open spec fn step_dispatch(
    state: LoopState,
    event: PollEvent,
    table: Map<Seq<char>, HandlerFunc>,
) -> Option<Dispatched> {
    if state is Stopped {
        None
    } else {
        match event {
            PollEvent::Delivered { partition, offset, payload } => Some(
                dispatch(table, payload_text(payload)),
            ),
            _ => None,
        }
    }
}

/// Whether the outcome of a step, and the step from `before` to `after` in
/// what was sent to the sink, are what `decided` asks for. A step without a
/// message has no outcome and sends nothing.
pub open spec fn step_delivers(
    outcome: Option<MessageOutcome>,
    decided: Option<Dispatched>,
    before: Seq<Message>,
    after: Seq<Message>,
) -> bool {
    match decided {
        Some(decided) => outcome is Some && delivered_as(outcome->Some_0, decided, before, after),
        None => outcome is None && after == before,
    }
}

/// Whether `action` is what follows `event`: a stopped or cancelled loop
/// stops; an idle poll at which a commit is due and positions are tracked
/// commits exactly those positions; everything else polls again.
pub open spec fn action_follows(
    action: LoopAction,
    state: LoopState,
    event: PollEvent,
    elapsed: i64,
    offsets: Map<i32, i64>,
) -> bool {
    if state is Stopped || event is Cancelled {
        action is Stop
    } else if event is Idle && commit_due(elapsed) && has_positions(offsets) {
        action is Commit && lists_exactly(action->Commit_0@, offsets)
    } else {
        action is Poll
    }
}

/// Whatever a delivered message holds, a running loop moves the partition's
/// position past it and polls again. In particular a text that is no JSON
/// document, or one without the header, is dropped as malformed and stops
/// nothing.
pub proof fn lemma_delivery_always_advances(
    state: LoopState,
    partition: i32,
    offset: i64,
    payload: Option<String>,
    elapsed: i64,
    tracker: TrackerState,
    table: Map<Seq<char>, HandlerFunc>,
    action: LoopAction,
)
    requires
        !(state is Stopped),
        action_follows(
            action,
            state,
            PollEvent::Delivered { partition, offset, payload },
            elapsed,
            tracker.offsets,
        ),
    ensures
        action is Poll,
        next_state(state, PollEvent::Delivered { partition, offset, payload }, false)
            == LoopState::Polling,
        next_state(state, PollEvent::Delivered { partition, offset, payload }, true)
            == LoopState::Polling,
        next_tracker(state, PollEvent::Delivered { partition, offset, payload }, tracker)
            == tracker.advance(partition, (offset + 1) as i64),
        step_dispatch(state, PollEvent::Delivered { partition, offset, payload }, table) == Some(
            dispatch(table, payload_text(payload)),
        ),
        decode_envelope(payload_text(payload)) is Err ==> dispatch(table, payload_text(payload))
            == Dispatched::Malformed(decode_envelope(payload_text(payload))->Err_0),
{
}

/// In every state, a step keeps positions within the assigned partitions,
/// provided that a message arrives only on a partition that is assigned: a
/// partition then has a position only while it is assigned.
pub proof fn lemma_step_keeps_wf(state: LoopState, event: PollEvent, tracker: TrackerState)
    requires
        tracker.wf(),
        match event {
            PollEvent::Delivered { partition, offset, payload } => tracker.assigned.contains(
                partition,
            ),
            _ => true,
        },
    ensures
        next_tracker(state, event, tracker).wf(),
{
    match event {
        PollEvent::PostRebalance(rebalance) => {
            lemma_rebalance_keeps_wf(tracker, rebalance);
        },
        _ => {},
    }
}

impl PollLoop {
    /// A loop that is about to poll for the first time.
    pub fn new(now: NaiveDateTime) -> (poll_loop: PollLoop)
        ensures
            poll_loop.state == LoopState::Polling,
            poll_loop.last_offset_update_time == now,
    {
        PollLoop { state: LoopState::Polling, last_offset_update_time: now }
    }

    /// One step of the loop, given the seconds that have passed since the
    /// commit interval last started.
    ///
    /// Nothing that goes wrong with a message ends the loop or holds its
    /// offset back: the partition's position moves past every delivered
    /// message. A loop that has stopped stays stopped and changes nothing.
    pub fn step_after(
        &mut self,
        event: PollEvent,
        elapsed: i64,
        now: NaiveDateTime,
        registry: &Registry,
        context: &mut Context,
    ) -> (step: Step)
        requires
            match event {
                PollEvent::Delivered { partition, offset, payload } => offset < i64::MAX,
                _ => true,
            },
        ensures
            final(self).state == next_state(
                old(self).state,
                event,
                commit_due(elapsed) && has_positions(old(context).offset_tracker@.offsets),
            ),
            final(self).last_offset_update_time == (if restarts_interval(
                old(self).state,
                event,
                elapsed,
                has_positions(old(context).offset_tracker@.offsets),
            ) {
                now
            } else {
                old(self).last_offset_update_time
            }),
            final(context).offset_tracker@ == next_tracker(
                old(self).state,
                event,
                old(context).offset_tracker@,
            ),
            step_delivers(
                step.outcome,
                step_dispatch(old(self).state, event, registry@),
                old(context).sent(),
                final(context).sent(),
            ),
            final(context).bg_receiver == old(context).bg_receiver,
            action_follows(
                step.action,
                old(self).state,
                event,
                elapsed,
                old(context).offset_tracker@.offsets,
            ),
    {
        if let LoopState::Stopped = self.state {
            return Step { action: LoopAction::Stop, outcome: None };
        }
        match event {
            PollEvent::Cancelled => {
                self.state = LoopState::Stopped;
                Step { action: LoopAction::Stop, outcome: None }
            },
            PollEvent::PreRebalance(rebalance) => {
                match rebalance {
                    Rebalance::Assign(_) => {
                        self.state = LoopState::RebalanceAssign;
                    },
                    Rebalance::Revoke(_) => {
                        self.state = LoopState::RebalanceRevoke;
                    },
                    Rebalance::Error => {},
                }
                Step { action: LoopAction::Poll, outcome: None }
            },
            PollEvent::PostRebalance(rebalance) => {
                post_rebalance(&mut context.offset_tracker, &rebalance);
                self.state = LoopState::Polling;
                Step { action: LoopAction::Poll, outcome: None }
            },
            PollEvent::Idle => {
                if elapsed >= COMMIT_INTERVAL_SECONDS {
                    let positions = context.offset_tracker.snapshot();
                    if positions.len() > 0 {
                        proof {
                            assert(context.offset_tracker@.offsets.contains_key(positions@[0].0));
                        }
                        self.state = LoopState::Committing;
                        return Step { action: LoopAction::Commit(positions), outcome: None };
                    }
                    self.last_offset_update_time = now;
                }
                self.state = LoopState::Polling;
                Step { action: LoopAction::Poll, outcome: None }
            },
            PollEvent::TransportError => {
                self.state = LoopState::Polling;
                Step { action: LoopAction::Poll, outcome: None }
            },
            PollEvent::Delivered { partition, offset, payload } => {
                let outcome = match &payload {
                    Some(text) => process_message(registry, context, partition, offset, text.as_str()),
                    None => {
                        proof {
                            reveal_strlit("");
                            assert(""@ =~= Seq::<char>::empty());
                        }
                        process_message(registry, context, partition, offset, "")
                    },
                };
                self.state = LoopState::Polling;
                Step { action: LoopAction::Poll, outcome: Some(outcome) }
            },
            PollEvent::Committed => {
                self.last_offset_update_time = now;
                self.state = LoopState::Polling;
                Step { action: LoopAction::Poll, outcome: None }
            },
        }
    }

    /// One step of the loop at the time `now`.
    ///
    /// This is [`PollLoop::step_after`] with the seconds that `chrono` counts
    /// from the start of the commit interval to `now`.
    pub fn step(
        &mut self,
        event: PollEvent,
        now: NaiveDateTime,
        registry: &Registry,
        context: &mut Context,
    ) -> (step: Step)
        requires
            match event {
                PollEvent::Delivered { partition, offset, payload } => offset < i64::MAX,
                _ => true,
            },
        ensures
            final(self).state == next_state(
                old(self).state,
                event,
                commit_due(seconds_between(now, old(self).last_offset_update_time)) && has_positions(
                    old(context).offset_tracker@.offsets,
                ),
            ),
            final(self).last_offset_update_time == (if restarts_interval(
                old(self).state,
                event,
                seconds_between(now, old(self).last_offset_update_time),
                has_positions(old(context).offset_tracker@.offsets),
            ) {
                now
            } else {
                old(self).last_offset_update_time
            }),
            final(context).offset_tracker@ == next_tracker(
                old(self).state,
                event,
                old(context).offset_tracker@,
            ),
            step_delivers(
                step.outcome,
                step_dispatch(old(self).state, event, registry@),
                old(context).sent(),
                final(context).sent(),
            ),
            final(context).bg_receiver == old(context).bg_receiver,
            action_follows(
                step.action,
                old(self).state,
                event,
                seconds_between(now, old(self).last_offset_update_time),
                old(context).offset_tracker@.offsets,
            ),
    {
        let elapsed = elapsed_seconds(&now, &self.last_offset_update_time);
        self.step_after(event, elapsed, now, registry, context)
    }
}

} // verus!
