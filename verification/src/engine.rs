//! The boundary with librdkafka: its types as this library carries them, and
//! each of its calls that the library makes, with what is taken on trust
//! about the call. Nothing here is proved; everything else is proved from it.

use crate::message::MessageTimestamp;
use crate::offset::ConcreteOffset;
use crate::offset::MAX_TAIL;
use rdkafka::error::KafkaError;
use rdkafka::message::Timestamp;
use rdkafka::ClientConfig;
use rdkafka::Offset;
use rdkafka::TopicPartitionList;
use vstd::prelude::*;

verus! {

/// `rdkafka::ClientConfig`: the parameters a client is created with. Carried
/// as it is; what it holds is spoken of through [`config_entries`].
#[verifier::external_type_specification]
#[verifier::external_body]
pub struct ExClientConfig(ClientConfig);

/// `rdkafka::TopicPartitionList`: topics and partitions with an offset each.
/// Carried as it is; what it holds is spoken of through
/// [`partition_entries`].
#[verifier::external_type_specification]
#[verifier::external_body]
pub struct ExTopicPartitionList(TopicPartitionList);

/// `rdkafka::error::KafkaError`: the engine's errors. Carried as it is, from
/// the call that failed to the caller; nothing is known of what it holds.
#[verifier::external_type_specification]
#[verifier::external_body]
pub struct ExKafkaError(KafkaError);

/// Parameter names and their values.
pub type ConfigEntries = Map<Seq<char>, Seq<char>>;

/// One element of a partition list: topic, partition, stored offset.
pub type PartitionEntry = (Seq<char>, i32, i64);

/// The parameters a client configuration holds: each name that was set, with
/// the value set last.
pub uninterp spec fn config_entries(config: ClientConfig) -> Map<Seq<char>, Seq<char>>;

/// The elements of a partition list in the order they were added: topic,
/// partition, and the offset as librdkafka stores it.
pub uninterp spec fn partition_entries(list: TopicPartitionList) -> Seq<(Seq<char>, i32, i64)>;

/// A topic name that can be handed to librdkafka, which takes C strings: one
/// without a NUL character.
pub open spec fn valid_topic(topic: Seq<char>) -> bool {
    !topic.contains('\0')
}

/// Whether an element for this topic and partition is in the list.
pub open spec fn has_partition(
    entries: Seq<(Seq<char>, i32, i64)>,
    topic: Seq<char>,
    partition: i32,
) -> bool {
    exists|i: int|
        0 <= i < entries.len() && (#[trigger] entries[i]).0 == topic && entries[i].1 == partition
}

/// The stored offset of the first element for this topic and partition.
pub open spec fn first_raw(
    entries: Seq<(Seq<char>, i32, i64)>,
    topic: Seq<char>,
    partition: i32,
) -> Option<i64>
    decreases entries.len(),
{
    if entries.len() == 0 {
        None
    } else if entries[0].0 == topic && entries[0].1 == partition {
        Some(entries[0].2)
    } else {
        first_raw(entries.drop_first(), topic, partition)
    }
}

/// `ClientConfig::new`: a configuration with no parameter set.
#[verifier::external_body]
pub(crate) fn new_client_config() -> (config: ClientConfig)
    ensures
        config_entries(config) == ConfigEntries::empty(),
{
    ClientConfig::new()
}

/// `ClientConfig::set`: sets one parameter, replacing any value the name had,
/// and leaves the others as they were.
#[verifier::external_body]
pub(crate) fn set_config(config: &mut ClientConfig, key: &str, value: &str)
    ensures
        config_entries(*final(config)) == config_entries(*old(config)).insert(key@, value@),
{
    config.set(key, value);
}

/// `TopicPartitionList::new`: an empty list.
#[verifier::external_body]
pub(crate) fn new_partition_list() -> (list: TopicPartitionList)
    ensures
        partition_entries(list) == Seq::<PartitionEntry>::empty(),
{
    TopicPartitionList::new()
}

/// `TopicPartitionList::add_partition_offset`, for a topic and partition that
/// the list does not hold yet. It appends an element for them and then
/// stores the offset in the first element that the list holds for them,
/// which is the new one. It fails exactly when the offset has no encoding;
/// nothing is said of the list then.
///
/// The call panics on a topic name with a NUL, and the encoding of a distance
/// from the tail above `MAX_TAIL` overflows: both are ruled out.
#[verifier::external_body]
pub(crate) fn add_partition_offset(
    list: &mut TopicPartitionList,
    topic: &str,
    partition: i32,
    offset: ConcreteOffset,
) -> (r: Result<(), KafkaError>)
    requires
        valid_topic(topic@),
        !has_partition(partition_entries(*old(list)), topic@, partition),
        offset matches ConcreteOffset::OffsetTail(n) ==> n <= MAX_TAIL,
    ensures
        r is Ok <==> offset.representable(),
        r is Ok ==> partition_entries(*final(list)) == partition_entries(*old(list)).push(
            (topic@, partition, offset.raw()->0),
        ),
{
    let offset = match offset {
        ConcreteOffset::Beginning => Offset::Beginning,
        ConcreteOffset::End => Offset::End,
        ConcreteOffset::Stored => Offset::Stored,
        ConcreteOffset::Invalid => Offset::Invalid,
        ConcreteOffset::Offset(n) => Offset::Offset(n),
        ConcreteOffset::OffsetTail(n) => Offset::OffsetTail(n),
    };
    list.add_partition_offset(topic, partition, offset)
}

/// `TopicPartitionList::find_partition`, followed by
/// `TopicPartitionListElem::offset` on what it found: the offset of the first
/// element for this topic and partition, decoded, or `None` if there is no
/// such element.
///
/// The call panics on a topic name with a NUL, which is ruled out.
#[verifier::external_body]
pub(crate) fn find_partition_offset(list: &TopicPartitionList, topic: &str, partition: i32) -> (r:
    Option<ConcreteOffset>)
    requires
        valid_topic(topic@),
    ensures
        r == match first_raw(partition_entries(*list), topic@, partition) {
            Some(raw) => Some(ConcreteOffset::of_raw(raw)),
            None => None,
        },
{
    match list.find_partition(topic, partition)?.offset() {
        Offset::Beginning => Some(ConcreteOffset::Beginning),
        Offset::End => Some(ConcreteOffset::End),
        Offset::Stored => Some(ConcreteOffset::Stored),
        Offset::Invalid => Some(ConcreteOffset::Invalid),
        Offset::Offset(n) => Some(ConcreteOffset::Offset(n)),
        Offset::OffsetTail(n) => Some(ConcreteOffset::OffsetTail(n)),
    }
}

/// `Timestamp::to_millis`: the time in epoch milliseconds, or `None` where the
/// record has no time or carries `-1` in its place.
#[verifier::external_body]
pub(crate) fn timestamp_millis(timestamp: MessageTimestamp) -> (r: Option<i64>)
    ensures
        r == timestamp.millis(),
{
    let timestamp = match timestamp {
        MessageTimestamp::NotAvailable => Timestamp::NotAvailable,
        MessageTimestamp::CreateTime(t) => Timestamp::CreateTime(t),
        MessageTimestamp::LogAppendTime(t) => Timestamp::LogAppendTime(t),
    };
    timestamp.to_millis()
}

} // verus!
