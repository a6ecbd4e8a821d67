//! Partition lists of one element: the only kind a single-partition consumer
//! sends or reads.

use crate::engine::add_partition_offset;
use crate::engine::find_partition_offset;
use crate::engine::first_raw;
use crate::engine::new_partition_list;
use crate::engine::partition_entries;
use crate::engine::valid_topic;
use crate::engine::PartitionEntry;
use crate::error::KafkaClientError;
use crate::offset::ConcreteOffset;
use crate::offset::MAX_TAIL;
use rdkafka::TopicPartitionList;
use vstd::prelude::*;

verus! {

/// Whether the topic name can be handed to the engine.
pub fn is_valid_topic(topic: &str) -> (b: bool)
    ensures
        b == valid_topic(topic@),
{
    for c in it: topic.chars()
        invariant
            it.seq() == topic@,
            forall|j: int| 0 <= j < it.index() ==> topic@[j] != '\0',
    {
        if c == '\0' {
            return false;
        }
    }
    true
}

/// One partition of one topic at one offset: what a consumer is to be
/// assigned to, or what the broker is to be asked about.
///
/// These are the library's own values. Whether the engine can take them is
/// found out when the list for it is built, by [`PartitionOffset::to_list`].
#[derive(Clone, Debug, PartialEq, Eq)]
pub struct PartitionOffset {
    /// The topic.
    pub topic: String,
    /// The partition.
    pub partition: i32,
    /// The offset in that partition.
    pub offset: ConcreteOffset,
}

/// A [`PartitionOffset`] as contracts see it.
pub struct PartitionOffsetView {
    pub topic: Seq<char>,
    pub partition: i32,
    pub offset: ConcreteOffset,
}

impl View for PartitionOffset {
    type V = PartitionOffsetView;

    open spec fn view(&self) -> PartitionOffsetView {
        PartitionOffsetView { topic: self.topic@, partition: self.partition, offset: self.offset }
    }
}

impl PartitionOffsetView {
    /// The elements of the list that holds this and nothing else, or why
    /// there is no such list.
    pub open spec fn list(self) -> Result<Seq<PartitionEntry>, KafkaClientError> {
        single_list(self.topic, self.partition, self.offset)
    }
}

impl PartitionOffset {
    /// Builds the list for the engine that holds this and nothing else.
    ///
    /// It fails with `InvalidOffset` exactly where the topic name is valid
    /// and the engine has no encoding for the offset, and with
    /// `InvalidTopic` exactly where the topic name is not valid.
    pub fn to_list(&self) -> (r: Result<TopicPartitionList, KafkaClientError>)
        ensures
            list_view(r) == self@.list(),
    {
        single_partition_list(self.topic.as_str(), self.partition, self.offset)
    }
}

/// A list, or the reason there is none, as contracts see it: the list by its
/// elements.
pub open spec fn list_view(r: Result<TopicPartitionList, KafkaClientError>) -> Result<
    Seq<PartitionEntry>,
    KafkaClientError,
> {
    match r {
        Ok(list) => Ok(partition_entries(list)),
        Err(e) => Err(e),
    }
}

/// The elements of the list that holds the given topic and partition at the
/// given offset, and nothing else.
///
/// There is such a list when the topic name is valid and the offset has an
/// encoding. Otherwise the error says which of the two failed, the topic
/// first.
pub open spec fn single_list(topic: Seq<char>, partition: i32, offset: ConcreteOffset) -> Result<
    Seq<PartitionEntry>,
    KafkaClientError,
> {
    if !valid_topic(topic) {
        Err(KafkaClientError::InvalidTopic)
    } else if !offset.representable() {
        Err(KafkaClientError::InvalidOffset(offset))
    } else {
        Ok(seq![(topic, partition, offset.raw()->0)])
    }
}

/// The offset that a list holds for the given topic and partition: that of
/// the first such element, decoded. There is none if the list has no such
/// element, or if the topic name is not valid.
pub open spec fn found_offset(entries: Seq<PartitionEntry>, topic: Seq<char>, partition: i32) -> Option<
    ConcreteOffset,
> {
    if valid_topic(topic) {
        match first_raw(entries, topic, partition) {
            Some(raw) => Some(ConcreteOffset::of_raw(raw)),
            None => None,
        }
    } else {
        None
    }
}

/// Builds the list that holds the given topic and partition at the given
/// offset, and nothing else.
pub fn single_partition_list(topic: &str, partition: i32, offset: ConcreteOffset) -> (r: Result<
    TopicPartitionList,
    KafkaClientError,
>)
    ensures
        list_view(r) == single_list(topic@, partition, offset),
{
    if !is_valid_topic(topic) {
        return Err(KafkaClientError::InvalidTopic);
    }
    if let ConcreteOffset::OffsetTail(n) = offset {
        if n > MAX_TAIL {
            return Err(KafkaClientError::InvalidOffset(offset));
        }
    }
    let mut list = new_partition_list();
    match add_partition_offset(&mut list, topic, partition, offset) {
        Ok(()) => Ok(list),
        Err(_) => Err(KafkaClientError::InvalidOffset(offset)),
    }
}

/// Reads the offset that the list holds for the given topic and partition.
pub fn partition_offset(list: &TopicPartitionList, topic: &str, partition: i32) -> (r: Option<
    ConcreteOffset,
>)
    ensures
        r == found_offset(partition_entries(*list), topic@, partition),
{
    if !is_valid_topic(topic) {
        return None;
    }
    find_partition_offset(list, topic, partition)
}

/// A list is built exactly for a valid topic name and an offset with an
/// encoding. It then holds one element: the topic, the partition, and the
/// encoding of that very offset. Where it is not built, the error is
/// `InvalidTopic` for the topic name and else `InvalidOffset` with the offset
/// that was asked for.
pub proof fn law_list_holds_what_was_asked(topic: Seq<char>, partition: i32, offset: ConcreteOffset)
    ensures
        single_list(topic, partition, offset) is Ok <==> valid_topic(topic)
            && offset.representable(),
        single_list(topic, partition, offset) matches Ok(list) ==> {
            &&& list.len() == 1
            &&& list[0].0 == topic
            &&& list[0].1 == partition
            &&& ConcreteOffset::of_raw(list[0].2) == offset
        },
        single_list(topic, partition, offset) matches Err(e) ==> e == if !valid_topic(topic) {
            KafkaClientError::InvalidTopic
        } else {
            KafkaClientError::InvalidOffset(offset)
        },
{
}

} // verus!
