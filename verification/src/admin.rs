//! Topic administration, as far as this library goes: creating a topic.

use vstd::prelude::*;

verus! {

/// The replication factor every new topic gets.
pub const REPLICATION_FACTOR: i32 = 1;

/// A request to create a topic.
#[derive(Clone, Debug, PartialEq, Eq)]
pub struct TopicRequest {
    /// The name of the new topic.
    pub name: String,
    /// How many partitions it starts with.
    pub num_partitions: i32,
    /// On how many brokers each partition is kept.
    pub replication: i32,
}

/// The admin client to Kafka, over a connection `A`.
pub struct RdKafkaAdmin<A> {
    /// The connection.
    pub admin_client: A,
}

impl<A> RdKafkaAdmin<A> {
    /// An admin client over an existing connection.
    pub fn new(admin_client: A) -> (a: Self)
        ensures
            a.admin_client == admin_client,
    {
        RdKafkaAdmin { admin_client }
    }

    /// The request that creates a topic with the given name and number of
    /// partitions, each kept on a single broker, with no further settings.
    pub fn topic_request(&self, name: &str, num_partitions: i32) -> (r: TopicRequest)
        ensures
            r.name@ == name@,
            r.num_partitions == num_partitions,
            r.replication == REPLICATION_FACTOR,
    {
        TopicRequest {
            name: String::from_str(name),
            num_partitions,
            replication: REPLICATION_FACTOR,
        }
    }
}

/// The first topic of a request that was not created, by its position in
/// the request, given for each topic whether it was. Creating topics has
/// failed as soon as there is one.
pub fn first_failure(created: &Vec<bool>) -> (r: Option<usize>)
    ensures
        match r {
            Some(i) => i < created@.len() && !created@[i as int] && forall|j: int|
                0 <= j < i ==> created@[j],
            None => forall|j: int| 0 <= j < created@.len() ==> created@[j],
        },
{
    let mut i: usize = 0;
    while i < created.len()
        invariant
            i <= created@.len(),
            forall|j: int| 0 <= j < i ==> created@[j],
        decreases created@.len() - i,
    {
        if !created[i] {
            return Some(i);
        }
        i += 1;
    }
    None
}

} // verus!
