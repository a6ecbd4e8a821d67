//! A consumer of one partition: how it is positioned and what it asks the
//! broker. The consumer holds the connection but never calls through it; each
//! method says what to do next and what to make of the answer.

use crate::config::ConsumerConfigView;
use crate::config::KafkaConsumerConfig;
use crate::engine::first_raw;
use crate::engine::partition_entries;
use crate::engine::valid_topic;
use crate::engine::PartitionEntry;
use crate::error::broker_error;
use crate::error::KafkaClientError;
use crate::offset::ConcreteOffset;
use crate::offset::KafkaOffset;
use crate::offset::Resolution;
use crate::offset::MAX_TAIL;
use crate::offset::RAW_TAIL_BASE;
use crate::partitions::is_valid_topic;
use crate::partitions::partition_offset;
use crate::partitions::PartitionOffset;
use crate::partitions::PartitionOffsetView;
use crate::stream::MessageStream;
use crate::stream::StreamState;
use rdkafka::error::KafkaError;
use rdkafka::TopicPartitionList;
use vstd::prelude::*;

verus! {

/// How long a time lookup may take, in milliseconds.
pub const LOOKUP_TIMEOUT_MS: u64 = 1_000;

/// How long a watermark query may take, in milliseconds.
pub const WATERMARK_TIMEOUT_MS: u64 = 3_000;

/// The next thing to do when positioning a consumer.
#[derive(Debug)]
pub enum AssignStep {
    /// Assign the consumer to this partition at this offset. It replaces
    /// whatever was assigned before.
    Assign(PartitionOffset),
    /// Ask the broker which offset of this partition belongs to the
    /// timestamp that stands in the offset's place, waiting at most so many
    /// milliseconds, and report the answer.
    Lookup(PartitionOffset, u64),
    /// Give up with this error. Nothing is to be assigned.
    Fail(KafkaClientError),
}

/// A watermark query: which partition, and how long to wait for the answer.
#[derive(Clone, Debug, PartialEq, Eq)]
pub struct WatermarkQuery {
    /// The topic asked about.
    pub topic: String,
    /// The partition asked about.
    pub partition: i32,
    /// How long to wait for the answer, in milliseconds.
    pub timeout_ms: u64,
}

/// An [`AssignStep`] as contracts see it.
pub enum StepView {
    /// Assign the consumer to this.
    Assign(PartitionOffsetView),
    /// Look up the offset at the timestamp in this, within so many
    /// milliseconds.
    Lookup(PartitionOffsetView, u64),
    /// Give up with this error.
    Fail(KafkaClientError),
}

impl View for AssignStep {
    type V = StepView;

    open spec fn view(&self) -> StepView {
        match *self {
            AssignStep::Assign(target) => StepView::Assign(target@),
            AssignStep::Lookup(request, timeout_ms) => StepView::Lookup(request@, timeout_ms),
            AssignStep::Fail(e) => StepView::Fail(e),
        }
    }
}

/// The consumer's partition at the given offset.
pub open spec fn at_offset(config: ConsumerConfigView, offset: ConcreteOffset) -> PartitionOffsetView {
    PartitionOffsetView { topic: config.topic, partition: config.assigned_partition(), offset }
}

/// The first step of positioning a consumer.
///
/// A topic name that the engine cannot take fails the positioning. Else
/// every request but a time interval is resolved on the spot, and the step
/// is the assignment of the consumer's partition at the resolved offset,
/// whatever that offset is. A time interval leads to one lookup for its
/// first bound, on the consumer's partition, with a timeout of a second.
pub open spec fn first_step(config: ConsumerConfigView, offset: KafkaOffset) -> StepView {
    if !valid_topic(config.topic) {
        StepView::Fail(KafkaClientError::InvalidTopic)
    } else {
        match offset.resolution() {
            Resolution::Ready(o) => StepView::Assign(at_offset(config, o)),
            Resolution::NeedsTimeLookup(t) => StepView::Lookup(
                at_offset(config, ConcreteOffset::Offset(t)),
                LOOKUP_TIMEOUT_MS,
            ),
        }
    }
}

/// What follows a time lookup that the broker answered with the given list:
/// the assignment of the consumer's partition at the offset the list holds
/// for it. A topic name that the engine cannot take fails it, and so does a
/// list that holds nothing for the partition.
pub open spec fn assignment_after(config: ConsumerConfigView, answer: Seq<PartitionEntry>) -> Result<
    PartitionOffsetView,
    KafkaClientError,
> {
    if !valid_topic(config.topic) {
        Err(KafkaClientError::InvalidTopic)
    } else {
        match first_raw(answer, config.topic, config.assigned_partition()) {
            None => Err(KafkaClientError::MissingPartition),
            Some(raw) => Ok(at_offset(config, ConcreteOffset::of_raw(raw))),
        }
    }
}

/// An assignment, or the reason there is none, as contracts see it.
pub open spec fn target_view(r: Result<PartitionOffset, KafkaClientError>) -> Result<
    PartitionOffsetView,
    KafkaClientError,
> {
    match r {
        Ok(target) => Ok(target@),
        Err(e) => Err(e),
    }
}

/// A consumer bound to one partition of one topic, over a connection `S`.
pub struct RdkafkaConsumer<S> {
    /// The connection.
    pub stream: S,
    /// What the consumer was configured with.
    pub config: KafkaConsumerConfig,
}

impl<S> RdkafkaConsumer<S> {
    /// A consumer over an existing connection.
    pub fn new(stream: S, config: KafkaConsumerConfig) -> (c: Self)
        ensures
            c.stream == stream,
            c.config == config,
    {
        RdkafkaConsumer { stream, config }
    }

    /// The consumer's partition at the given offset.
    fn at(&self, offset: ConcreteOffset) -> (target: PartitionOffset)
        ensures
            target@ == at_offset(self.config@, offset),
    {
        PartitionOffset {
            topic: self.config.topic.clone(),
            partition: self.config.assigned_partition(),
            offset,
        }
    }

    /// The first step of positioning the consumer at `offset`.
    pub fn begin_assign(&self, offset: KafkaOffset) -> (step: AssignStep)
        ensures
            step@ == first_step(self.config@, offset),
    {
        if !is_valid_topic(self.config.topic.as_str()) {
            return AssignStep::Fail(KafkaClientError::InvalidTopic);
        }
        match offset.resolve() {
            Resolution::Ready(o) => AssignStep::Assign(self.at(o)),
            Resolution::NeedsTimeLookup(t) => AssignStep::Lookup(
                self.at(ConcreteOffset::Offset(t)),
                LOOKUP_TIMEOUT_MS,
            ),
        }
    }

    /// What follows a time lookup, given its outcome: what to assign the
    /// consumer to, or the reason to give up with nothing assigned. A lookup
    /// that failed is such a reason: the broker error that carries the
    /// engine's.
    pub fn finish_lookup(&self, answer: Result<TopicPartitionList, KafkaError>) -> (r: Result<
        PartitionOffset,
        KafkaClientError,
    >)
        ensures
            target_view(r) == match answer {
                Ok(found) => assignment_after(self.config@, partition_entries(found)),
                Err(e) => Err(KafkaClientError::BrokerRoundTrip(e)),
            },
    {
        match answer {
            Err(e) => Err(broker_error(e)),
            Ok(found) => {
                if !is_valid_topic(self.config.topic.as_str()) {
                    return Err(KafkaClientError::InvalidTopic);
                }
                match partition_offset(
                    &found,
                    self.config.topic.as_str(),
                    self.config.assigned_partition(),
                ) {
                    None => Err(KafkaClientError::MissingPartition),
                    Some(o) => Ok(self.at(o)),
                }
            },
        }
    }

    /// A fresh stream of the consumer's messages, not yet started. It ends
    /// on a drained partition if the consumer is configured so.
    pub fn message_stream(&self) -> (s: MessageStream)
        ensures
            s == (MessageStream {
                state: StreamState::Idle,
                exit_on_done: self.config@.exit_on_done,
            }),
    {
        MessageStream::new(self.config.exit_on_done)
    }

    /// The query for the low and high watermarks of the consumer's
    /// partition, with a timeout of three seconds.
    pub fn watermark_query(&self) -> (q: WatermarkQuery)
        ensures
            q.topic@ == self.config@.topic,
            q.partition == self.config@.assigned_partition(),
            q.timeout_ms == WATERMARK_TIMEOUT_MS,
    {
        WatermarkQuery {
            topic: self.config.topic.clone(),
            partition: self.config.assigned_partition(),
            timeout_ms: WATERMARK_TIMEOUT_MS,
        }
    }
}

/// Without a time interval the broker is not asked: the first step is an
/// assignment or a failure.
pub proof fn law_no_lookup_without_time(config: ConsumerConfigView, offset: KafkaOffset)
    requires
        !(offset is TimeInterval),
    ensures
        !(first_step(config, offset) is Lookup),
{
}

/// An exact offset is assigned as it is.
pub proof fn law_absolute_is_assigned(config: ConsumerConfigView, n: i64)
    requires
        valid_topic(config.topic),
        n >= 0,
    ensures
        first_step(config, KafkaOffset::Offset(n)) == StepView::Assign(
            at_offset(config, ConcreteOffset::Offset(n)),
        ),
        at_offset(config, ConcreteOffset::Offset(n)).list() == Ok::<
            Seq<PartitionEntry>,
            KafkaClientError,
        >(seq![(config.topic, config.assigned_partition(), n)]),
{
}

/// A negative offset `n` is assigned as the distance `-n - 1` from the tail,
/// distance zero for `-1` and every distance down to the one for `i64::MIN`.
pub proof fn law_tail_is_assigned(config: ConsumerConfigView, n: i64)
    requires
        valid_topic(config.topic),
        n < 0,
    ensures
        first_step(config, KafkaOffset::Offset(n)) == StepView::Assign(
            at_offset(config, ConcreteOffset::OffsetTail((-n - 1) as i64)),
        ),
{
}

/// Of the distances from the tail, the engine takes those from one up to
/// `MAX_TAIL`: for a negative offset `n` the list for the engine is built
/// exactly when `-n - 1` is such a distance, and holds its encoding. For the
/// others, distance zero among them, building the list fails with
/// `InvalidOffset`, and nothing else is stored in the distance's place.
pub proof fn law_tail_list(config: ConsumerConfigView, n: i64)
    requires
        valid_topic(config.topic),
        n < 0,
    ensures
        at_offset(config, ConcreteOffset::OffsetTail((-n - 1) as i64)).list() == if 0 < -n - 1
            <= MAX_TAIL {
            Ok::<Seq<PartitionEntry>, KafkaClientError>(
                seq![
                    (
                        config.topic,
                        config.assigned_partition(),
                        (RAW_TAIL_BASE - (-n - 1)) as i64,
                    ),
                ],
            )
        } else {
            Err(KafkaClientError::InvalidOffset(ConcreteOffset::OffsetTail((-n - 1) as i64)))
        },
{
}

/// A time interval takes one lookup, for its first bound on the consumer's
/// topic and partition; nothing is assigned before the answer is in. The
/// list that asks for it holds the bound, if the bound is not negative.
pub proof fn law_one_lookup_for_time(config: ConsumerConfigView, begin_ms: i64, end_ms: i64)
    requires
        valid_topic(config.topic),
    ensures
        first_step(config, KafkaOffset::TimeInterval(begin_ms, end_ms)) == StepView::Lookup(
            at_offset(config, ConcreteOffset::Offset(begin_ms)),
            LOOKUP_TIMEOUT_MS,
        ),
        begin_ms >= 0 ==> at_offset(config, ConcreteOffset::Offset(begin_ms)).list() == Ok::<
            Seq<PartitionEntry>,
            KafkaClientError,
        >(seq![(config.topic, config.assigned_partition(), begin_ms)]),
{
}

/// What the broker answers for the consumer's partition is what gets
/// assigned: if the answer holds the stored offset `raw` for it, the
/// assignment is at the offset `raw` stands for, and where a list can hold
/// that offset, the list stores `raw` again.
pub proof fn law_answer_is_assigned(config: ConsumerConfigView, answer: Seq<PartitionEntry>, raw: i64)
    requires
        valid_topic(config.topic),
        first_raw(answer, config.topic, config.assigned_partition()) == Some(raw),
    ensures
        assignment_after(config, answer) == Ok::<PartitionOffsetView, KafkaClientError>(
            at_offset(config, ConcreteOffset::of_raw(raw)),
        ),
        ConcreteOffset::of_raw(raw).representable() ==> at_offset(
            config,
            ConcreteOffset::of_raw(raw),
        ).list() == Ok::<Seq<PartitionEntry>, KafkaClientError>(
            seq![(config.topic, config.assigned_partition(), raw)],
        ),
{
}

/// An assignment names the consumer's partition and nothing else, whatever
/// was assigned before, and so does the list built for it: positioning a
/// consumer again replaces its position and never adds a second one.
pub proof fn law_assignment_is_single(config: ConsumerConfigView, offset: KafkaOffset)
    ensures
        first_step(config, offset) matches StepView::Assign(target) ==> {
            &&& target.topic == config.topic
            &&& target.partition == config.assigned_partition()
            &&& offset.resolution() == Resolution::Ready(target.offset)
            &&& target.list() matches Ok(list) ==> {
                &&& list.len() == 1
                &&& list[0].0 == config.topic
                &&& list[0].1 == config.assigned_partition()
                &&& Some(list[0].2) == target.offset.raw()
            }
        },
{
}

} // verus!
