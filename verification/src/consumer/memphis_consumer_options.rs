//! How a consumer is configured. Durations are carried in milliseconds.

use vstd::prelude::*;

verus! {

/// The name, group, batching, redelivery and start-position switches a
/// consumer registers with.
#[derive(Debug)]
pub struct MemphisConsumerOptions {
    pub consumer_name: String,
    pub consumer_group: String,
    pub pull_interval_ms: u64,
    pub batch_size: usize,
    pub batch_max_time_to_wait_ms: u64,
    pub max_ack_time_ms: u64,
    pub max_msg_deliveries: i32,
    pub generate_unique_suffix: bool,
    pub start_consume_from_sequence: i32,
    pub last_messages: i32,
}

impl MemphisConsumerOptions {
    /// The defaults every builder starts from: no group, one-second pull
    /// interval, batches of ten with a five-second wait, thirty seconds of
    /// ack time, ten deliveries, start from the first sequence.
    pub fn new(consumer_name: &str) -> (o: Self)
        ensures
            o.consumer_name@ == consumer_name@,
            o.consumer_group@.len() == 0,
            o.pull_interval_ms == 1000u64,
            o.batch_size == 10usize,
            o.batch_max_time_to_wait_ms == 5000u64,
            o.max_ack_time_ms == 30000u64,
            o.max_msg_deliveries == 10i32,
            !o.generate_unique_suffix,
            o.start_consume_from_sequence == 1i32,
            o.last_messages == -1i32,
    {
        MemphisConsumerOptions {
            consumer_name: consumer_name.to_owned(),
            consumer_group: String::new(),
            pull_interval_ms: 1000,
            batch_size: 10,
            batch_max_time_to_wait_ms: 5000,
            max_ack_time_ms: 30000,
            max_msg_deliveries: 10,
            generate_unique_suffix: false,
            start_consume_from_sequence: 1,
            last_messages: -1,
        }
    }

    pub fn with_consumer_name(self, consumer_name: String) -> (o: Self)
        ensures
            o == (Self { consumer_name, ..self }),
    {
        Self { consumer_name, ..self }
    }

    pub fn with_consumer_group(self, consumer_group: &str) -> (o: Self)
        ensures
            o.consumer_group@ == consumer_group@,
            o == (Self { consumer_group: o.consumer_group, ..self }),
    {
        Self { consumer_group: consumer_group.to_owned(), ..self }
    }

    pub fn with_pull_interval(self, pull_interval_ms: u64) -> (o: Self)
        ensures
            o == (Self { pull_interval_ms, ..self }),
    {
        Self { pull_interval_ms, ..self }
    }

    pub fn with_batch_size(self, batch_size: usize) -> (o: Self)
        ensures
            o == (Self { batch_size, ..self }),
    {
        Self { batch_size, ..self }
    }

    pub fn with_batch_max_time_to_wait(self, batch_max_time_to_wait_ms: u64) -> (o: Self)
        ensures
            o == (Self { batch_max_time_to_wait_ms, ..self }),
    {
        Self { batch_max_time_to_wait_ms, ..self }
    }

    pub fn with_max_ack_time(self, max_ack_time_ms: u64) -> (o: Self)
        ensures
            o == (Self { max_ack_time_ms, ..self }),
    {
        Self { max_ack_time_ms, ..self }
    }

    pub fn with_max_msg_deliveries(self, max_msg_deliveries: i32) -> (o: Self)
        ensures
            o == (Self { max_msg_deliveries, ..self }),
    {
        Self { max_msg_deliveries, ..self }
    }

    pub fn with_generate_unique_suffix(self, generate_unique_suffix: bool) -> (o: Self)
        ensures
            o == (Self { generate_unique_suffix, ..self }),
    {
        Self { generate_unique_suffix, ..self }
    }

    pub fn with_start_consume_from_sequence(self, start_consume_from_sequence: i32) -> (o: Self)
        ensures
            o == (Self { start_consume_from_sequence, ..self }),
    {
        Self { start_consume_from_sequence, ..self }
    }

    pub fn with_last_messages(self, last_messages: i32) -> (o: Self)
        ensures
            o == (Self { last_messages, ..self }),
    {
        Self { last_messages, ..self }
    }
}

} // verus!
