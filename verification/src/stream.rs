//! The life of a message stream: poll, deliver, poll again, until the
//! partition has been quiet for too long or something fails.
//!
//! The stream itself neither polls nor waits. Whoever drives it reports what
//! happened as a [`StreamEvent`] and is told what to do next as a
//! [`StreamAction`].

use crate::error::KafkaClientError;
use crate::message::KafkaMessage;
use vstd::prelude::*;

verus! {

/// How long a stream that ends when the partition is drained waits for the
/// next message, in milliseconds.
pub const IDLE_TIMEOUT_EXIT_MS: u64 = 3_000;

/// How long a stream that follows the partition waits for the next message,
/// in milliseconds: an hour.
pub const IDLE_TIMEOUT_TAIL_MS: u64 = 3_600_000;

/// The idle timeout of a stream, in milliseconds.
pub open spec fn idle_timeout(exit_on_done: bool) -> u64 {
    if exit_on_done {
        IDLE_TIMEOUT_EXIT_MS
    } else {
        IDLE_TIMEOUT_TAIL_MS
    }
}

/// The idle timeout of a stream, in milliseconds.
pub fn idle_timeout_ms(exit_on_done: bool) -> (t: u64)
    ensures
        t == idle_timeout(exit_on_done),
{
    if exit_on_done {
        IDLE_TIMEOUT_EXIT_MS
    } else {
        IDLE_TIMEOUT_TAIL_MS
    }
}

/// Where a stream stands.
#[derive(Clone, Copy, Debug, PartialEq, Eq, Structural)]
pub enum StreamState {
    /// Not started.
    Idle,
    /// Waiting for the next message.
    Polling,
    /// A message was handed out and is being worked on.
    Delivering,
    /// Ended because the partition stayed quiet: the normal end.
    Finished,
    /// Ended by an error.
    Failed,
}

/// What the driver of a stream reports.
#[derive(Debug)]
pub enum StreamEvent {
    /// The stream is asked for its first message.
    Started,
    /// A message arrived.
    Message(KafkaMessage),
    /// No message has arrived for this many milliseconds.
    Quiet(u64),
    /// Polling failed.
    ConnectionError(KafkaClientError),
    /// The message handed out last has been dealt with.
    Handled,
    /// Dealing with the message handed out last failed.
    HandlerError(KafkaClientError),
}

/// What the driver of a stream is to do next.
#[derive(Debug)]
pub enum StreamAction {
    /// Wait for a message, at most this many milliseconds.
    Poll(u64),
    /// Hand this message to whoever consumes the stream.
    Deliver(KafkaMessage),
    /// End the stream; nothing went wrong.
    Finish,
    /// End the stream with this error.
    Abort(KafkaClientError),
    /// The event does not belong to the state the stream is in; nothing
    /// changes.
    Ignore,
}

/// What a poll that was waited for comes to as an event: the message or the
/// error it ended with, or, where the wait ran out first, the quiet spell so
/// far.
pub fn poll_event(outcome: Option<Result<KafkaMessage, KafkaClientError>>, idle_ms: u64) -> (event:
    StreamEvent)
    ensures
        event == match outcome {
            Some(Ok(m)) => StreamEvent::Message(m),
            Some(Err(e)) => StreamEvent::ConnectionError(e),
            None => StreamEvent::Quiet(idle_ms),
        },
{
    match outcome {
        Some(Ok(m)) => StreamEvent::Message(m),
        Some(Err(e)) => StreamEvent::ConnectionError(e),
        None => StreamEvent::Quiet(idle_ms),
    }
}

/// The transition table.
pub open spec fn next(state: StreamState, exit_on_done: bool, event: StreamEvent) -> (
    StreamState,
    StreamAction,
) {
    match (state, event) {
        (StreamState::Idle, StreamEvent::Started) => (
            StreamState::Polling,
            StreamAction::Poll(idle_timeout(exit_on_done)),
        ),
        (StreamState::Polling, StreamEvent::Message(m)) => (
            StreamState::Delivering,
            StreamAction::Deliver(m),
        ),
        (StreamState::Polling, StreamEvent::Quiet(idle_ms)) => if idle_ms >= idle_timeout(
            exit_on_done,
        ) {
            (StreamState::Finished, StreamAction::Finish)
        } else {
            (
                StreamState::Polling,
                StreamAction::Poll((idle_timeout(exit_on_done) - idle_ms) as u64),
            )
        },
        (StreamState::Polling, StreamEvent::ConnectionError(e)) => (
            StreamState::Failed,
            StreamAction::Abort(e),
        ),
        (StreamState::Delivering, StreamEvent::Handled) => (
            StreamState::Polling,
            StreamAction::Poll(idle_timeout(exit_on_done)),
        ),
        (StreamState::Delivering, StreamEvent::HandlerError(e)) => (
            StreamState::Failed,
            StreamAction::Abort(e),
        ),
        _ => (state, StreamAction::Ignore),
    }
}

/// A stream of messages from one consumer.
#[derive(Clone, Copy, Debug, PartialEq, Eq, Structural)]
pub struct MessageStream {
    /// Where the stream stands.
    pub state: StreamState,
    /// Whether the stream ends once the partition is drained.
    pub exit_on_done: bool,
}

impl MessageStream {
    /// A stream that has not started.
    pub fn new(exit_on_done: bool) -> (s: MessageStream)
        ensures
            s == (MessageStream { state: StreamState::Idle, exit_on_done }),
    {
        MessageStream { state: StreamState::Idle, exit_on_done }
    }

    /// Whether the stream has ended, one way or the other.
    pub open spec fn ended(self) -> bool {
        self.state is Finished || self.state is Failed
    }

    /// Whether the stream has ended, one way or the other.
    pub fn is_ended(&self) -> (b: bool)
        ensures
            b == self.ended(),
    {
        match self.state {
            StreamState::Finished => true,
            StreamState::Failed => true,
            _ => false,
        }
    }

    /// Takes in what happened and says what to do next.
    pub fn advance(&mut self, event: StreamEvent) -> (action: StreamAction)
        ensures
            (final(self).state, action) == next(old(self).state, old(self).exit_on_done, event),
            final(self).exit_on_done == old(self).exit_on_done,
    {
        let timeout: u64 = idle_timeout_ms(self.exit_on_done);
        match self.state {
            StreamState::Idle => match event {
                StreamEvent::Started => {
                    self.state = StreamState::Polling;
                    StreamAction::Poll(timeout)
                },
                _ => StreamAction::Ignore,
            },
            StreamState::Polling => match event {
                StreamEvent::Message(m) => {
                    self.state = StreamState::Delivering;
                    StreamAction::Deliver(m)
                },
                StreamEvent::Quiet(idle_ms) => {
                    if idle_ms >= timeout {
                        self.state = StreamState::Finished;
                        StreamAction::Finish
                    } else {
                        StreamAction::Poll(timeout - idle_ms)
                    }
                },
                StreamEvent::ConnectionError(e) => {
                    self.state = StreamState::Failed;
                    StreamAction::Abort(e)
                },
                _ => StreamAction::Ignore,
            },
            StreamState::Delivering => match event {
                StreamEvent::Handled => {
                    self.state = StreamState::Polling;
                    StreamAction::Poll(timeout)
                },
                StreamEvent::HandlerError(e) => {
                    self.state = StreamState::Failed;
                    StreamAction::Abort(e)
                },
                _ => StreamAction::Ignore,
            },
            StreamState::Finished => StreamAction::Ignore,
            StreamState::Failed => StreamAction::Ignore,
        }
    }
}

/// The state after a series of events and the actions they were answered
/// with.
pub open spec fn run(state: StreamState, exit_on_done: bool, events: Seq<StreamEvent>) -> (
    StreamState,
    Seq<StreamAction>,
)
    decreases events.len(),
{
    if events.len() == 0 {
        (state, Seq::empty())
    } else {
        let (mid, action) = next(state, exit_on_done, events[0]);
        let (end, actions) = run(mid, exit_on_done, events.drop_first());
        (end, seq![action] + actions)
    }
}

/// Whether the driver may report this event in this state: it answers the
/// action it was given last.
pub open spec fn answers(state: StreamState, event: StreamEvent) -> bool {
    match state {
        StreamState::Idle => event is Started,
        StreamState::Polling => event is Message || event is Quiet || event is ConnectionError,
        StreamState::Delivering => event is Handled || event is HandlerError,
        StreamState::Finished => false,
        StreamState::Failed => false,
    }
}

/// Whether every event of the series answers the action given just before
/// it.
pub open spec fn conforms(state: StreamState, exit_on_done: bool, events: Seq<StreamEvent>) -> bool
    decreases events.len(),
{
    events.len() == 0 || (answers(state, events[0]) && conforms(
        next(state, exit_on_done, events[0]).0,
        exit_on_done,
        events.drop_first(),
    ))
}

/// The messages that arrived, in order of arrival.
pub open spec fn arrived(events: Seq<StreamEvent>) -> Seq<KafkaMessage>
    decreases events.len(),
{
    if events.len() == 0 {
        Seq::empty()
    } else {
        match events[0] {
            StreamEvent::Message(m) => seq![m] + arrived(events.drop_first()),
            _ => arrived(events.drop_first()),
        }
    }
}

/// The messages that were handed out, in order.
pub open spec fn delivered(actions: Seq<StreamAction>) -> Seq<KafkaMessage>
    decreases actions.len(),
{
    if actions.len() == 0 {
        Seq::empty()
    } else {
        match actions[0] {
            StreamAction::Deliver(m) => seq![m] + delivered(actions.drop_first()),
            _ => delivered(actions.drop_first()),
        }
    }
}

/// Whether an event can end a stream: an error, or a quiet spell as long as
/// the idle timeout.
pub open spec fn can_end(exit_on_done: bool, event: StreamEvent) -> bool {
    match event {
        StreamEvent::Quiet(idle_ms) => idle_ms >= idle_timeout(exit_on_done),
        StreamEvent::ConnectionError(_) => true,
        StreamEvent::HandlerError(_) => true,
        _ => false,
    }
}

/// A stream that ends when the partition is drained ends once no message has
/// arrived for three seconds, and this end is not a failure.
pub proof fn law_drained_stream_finishes(idle_ms: u64)
    requires
        idle_ms >= IDLE_TIMEOUT_EXIT_MS,
    ensures
        next(StreamState::Polling, true, StreamEvent::Quiet(idle_ms)) == (
            StreamState::Finished,
            StreamAction::Finish,
        ),
{
}

/// A stream that follows the partition stays open through any quiet spell
/// shorter than an hour, and polls on for what is left of the hour.
pub proof fn law_following_stream_stays_open(idle_ms: u64)
    requires
        idle_ms < IDLE_TIMEOUT_TAIL_MS,
    ensures
        next(StreamState::Polling, false, StreamEvent::Quiet(idle_ms)) == (
            StreamState::Polling,
            StreamAction::Poll((IDLE_TIMEOUT_TAIL_MS - idle_ms) as u64),
        ),
{
}

/// Nothing but an error or a long enough quiet spell ends a stream: while
/// neither is reported, the stream has not ended, whatever else is.
pub proof fn law_stream_ends_for_cause(
    state: StreamState,
    exit_on_done: bool,
    events: Seq<StreamEvent>,
)
    requires
        !(state is Finished),
        !(state is Failed),
        forall|i: int| 0 <= i < events.len() ==> !can_end(exit_on_done, #[trigger] events[i]),
    ensures
        !(run(state, exit_on_done, events).0 is Finished),
        !(run(state, exit_on_done, events).0 is Failed),
    decreases events.len(),
{
    if events.len() > 0 {
        let mid = next(state, exit_on_done, events[0]).0;
        assert(!can_end(exit_on_done, events[0]));
        assert forall|i: int| 0 <= i < events.drop_first().len() implies !can_end(
            exit_on_done,
            #[trigger] events.drop_first()[i],
        ) by {
            assert(events.drop_first()[i] == events[i + 1]);
        }
        law_stream_ends_for_cause(mid, exit_on_done, events.drop_first());
    }
}

/// A stream fails only by an error, and finishes only by a quiet spell: the
/// two ends cannot be mistaken for each other.
pub proof fn law_ends_are_distinct(state: StreamState, exit_on_done: bool, event: StreamEvent)
    ensures
        ({
            let (after, action) = next(state, exit_on_done, event);
            &&& action is Finish <==> state is Polling && after is Finished
            &&& action is Finish ==> event is Quiet
            &&& action is Abort <==> !(state is Failed) && after is Failed
            &&& action is Abort ==> event is ConnectionError || event is HandlerError
        }),
{
}

/// Once a stream has ended it stays as it ended, and every further event is
/// ignored.
pub proof fn law_ended_stream_is_final(
    state: StreamState,
    exit_on_done: bool,
    events: Seq<StreamEvent>,
)
    requires
        state is Finished || state is Failed,
    ensures
        run(state, exit_on_done, events).0 == state,
        run(state, exit_on_done, events).1.len() == events.len(),
        forall|i: int|
            0 <= i < events.len() ==> (#[trigger] run(state, exit_on_done, events).1[i]) is Ignore,
    decreases events.len(),
{
    if events.len() > 0 {
        law_ended_stream_is_final(state, exit_on_done, events.drop_first());
        let rest = run(state, exit_on_done, events.drop_first()).1;
        let all = run(state, exit_on_done, events).1;
        assert(all == seq![StreamAction::Ignore] + rest);
        assert forall|i: int| 0 <= i < events.len() implies (#[trigger] all[i]) is Ignore by {
            if i > 0 {
                assert(all[i] == rest[i - 1]);
            }
        }
    }
}

/// Messages are handed out in the order they arrive, none dropped, none
/// twice: whenever the driver reports only what answers the action it was
/// given, the messages delivered are the messages that arrived.
pub proof fn law_delivery_in_order(
    state: StreamState,
    exit_on_done: bool,
    events: Seq<StreamEvent>,
)
    requires
        conforms(state, exit_on_done, events),
    ensures
        delivered(run(state, exit_on_done, events).1) == arrived(events),
    decreases events.len(),
{
    if events.len() > 0 {
        let (mid, action) = next(state, exit_on_done, events[0]);
        let rest = run(mid, exit_on_done, events.drop_first()).1;
        law_delivery_in_order(mid, exit_on_done, events.drop_first());
        let all = seq![action] + rest;
        assert(all.drop_first() == rest);
        assert(all[0] == action);
    }
}

} // verus!
