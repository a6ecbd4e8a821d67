//! A Kafka client layer over librdkafka: how a consumer is configured and
//! positioned, how received records become messages, how a stream of them
//! ends, and what a producer sends.
//!
//! Everything that decides is here and proved. The broker round-trips
//! themselves are left to the caller, who performs each step the library
//! hands out and reports back what happened.

use vstd::prelude::*;

pub mod admin;
pub mod client_config;
pub mod config;
pub mod consumer;
pub mod engine;
pub mod error;
pub mod headers;
pub mod message;
pub mod offset;
pub mod partitions;
pub mod producer;
pub mod stream;

verus! {

/// The librdkafka engine binding.
pub struct RdKafka {}

} // verus!
