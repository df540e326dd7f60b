//! The consumer: name canonicalisation and the start-sequence check at
//! creation, the durable name, the stream names its pull loops and liveness
//! pings address, the dead-letter subject, cancellation, and the per-message
//! decision that suppresses duplicate deliveries. The loops themselves are
//! I/O and live with the caller; every decision they take is settled here.

use vstd::prelude::*;
use crate::consumer::consumer_error::ConsumerError;
use crate::consumer::incoming_message::MemphisMessage;
use crate::consumer::memphis_consumer_options::MemphisConsumerOptions;
use crate::memphis_constants::MemphisSubscriptions;
use crate::memphis_util::{internal_of, is_hex_char, lower_of, sanitize_name};
use crate::models::request::{CreateConsumerRequest, DestroyConsumerRequest};
use crate::models::response::{consumer_partitions, probe_create_response};
use crate::producer::composable_message::pairs_view;
use crate::station::in_flight::InFlightSet;
use crate::station::memphis_station::MemphisStation;
use crate::text::push_char;

verus! {

/// A registered consumer.
#[derive(Debug)]
pub struct MemphisConsumer {
    pub station: MemphisStation,
    pub options: MemphisConsumerOptions,
    pub partitions_list: Option<Vec<u32>>,
    pub cancelled: bool,
}

impl MemphisConsumer {
    /// The broker-side durable name: the canonical consumer group when one
    /// is set, else the canonical consumer name.
    pub open spec fn durable_name(&self) -> Seq<char> {
        if self.options.consumer_group@.len() == 0 {
            internal_of(self.options.consumer_name@)
        } else {
            internal_of(self.options.consumer_group@)
        }
    }

    /// Canonicalises the consumer name, refuses a non-positive start
    /// sequence before anything is sent, and states the registration
    /// request. The caller sends the request and hands the reply to
    /// `apply_create_response`.
    pub fn prepare(station: MemphisStation, options: MemphisConsumerOptions) -> (r: Result<
        (MemphisConsumer, CreateConsumerRequest),
        ConsumerError,
    >)
        ensures
            options.start_consume_from_sequence <= 0 <==> (match r {
                Result::Err(e) => e is InvalidSequence,
                _ => false,
            }),
            (match r {
                Result::Ok((consumer, request)) => {
                    &&& consumer.station == station
                    &&& consumer.partitions_list is None
                    &&& !consumer.cancelled
                    &&& consumer.options.consumer_group == options.consumer_group
                    &&& consumer.options.max_ack_time_ms == options.max_ack_time_ms
                    &&& consumer.options.batch_size == options.batch_size
                    &&& consumer.options.batch_max_time_to_wait_ms
                        == options.batch_max_time_to_wait_ms
                    &&& !options.generate_unique_suffix
                        ==> consumer.options.consumer_name@ == lower_of(options.consumer_name@)
                    &&& options.generate_unique_suffix ==> {
                        let lowered = lower_of(options.consumer_name@);
                        &&& consumer.options.consumer_name@.len() == lowered.len() + 9
                        &&& consumer.options.consumer_name@.take(lowered.len() as int) == lowered
                        &&& consumer.options.consumer_name@[lowered.len() as int] == '_'
                        &&& forall|i: int|
                            lowered.len() + 1 <= i < consumer.options.consumer_name@.len()
                                ==> is_hex_char(#[trigger] consumer.options.consumer_name@[i])
                    }
                    &&& request.consumer_name@ == consumer.options.consumer_name@
                    &&& request.station_name@ == station.options.station_name@
                    &&& request.connection_id@ == station.connection_id@
                    &&& request.consumer_type@ == "application"@
                    &&& request.consumer_group@ == options.consumer_group@
                    &&& options.max_ack_time_ms <= i32::MAX
                        ==> request.max_ack_time_ms == options.max_ack_time_ms as i32
                    &&& request.max_msg_deliveries == options.max_msg_deliveries
                    &&& request.start_consume_from_sequence
                        == options.start_consume_from_sequence
                    &&& request.last_messages == options.last_messages
                    &&& request.req_version == 2u32
                    &&& request.username@ == station.username@
                },
                Result::Err(e) => e is InvalidSequence,
            }),
    {
        if options.start_consume_from_sequence <= 0 {
            return Result::Err(ConsumerError::InvalidSequence);
        }
        let mut options = options;
        sanitize_name(&mut options.consumer_name, options.generate_unique_suffix);
        let max_ack_time_ms: i32 = if options.max_ack_time_ms > i32::MAX as u64 {
            i32::MAX
        } else {
            options.max_ack_time_ms as i32
        };
        let request = CreateConsumerRequest {
            consumer_name: options.consumer_name.clone(),
            station_name: station.options.station_name.clone(),
            connection_id: station.connection_id.clone(),
            consumer_type: "application".to_owned(),
            consumer_group: options.consumer_group.clone(),
            max_ack_time_ms,
            max_msg_deliveries: options.max_msg_deliveries,
            start_consume_from_sequence: options.start_consume_from_sequence,
            last_messages: options.last_messages,
            req_version: 2,
            username: station.username.clone(),
        };
        let consumer = MemphisConsumer {
            station,
            options,
            partitions_list: Option::None,
            cancelled: false,
        };
        Result::Ok((consumer, request))
    }

    /// Installs the partition list the broker answered with.
    pub fn set_partitions(&mut self, partitions: Option<Vec<u32>>)
        ensures
            final(self).station == old(self).station,
            final(self).options == old(self).options,
            final(self).cancelled == old(self).cancelled,
            final(self).partitions_list == partitions,
    {
        self.partitions_list = partitions;
    }

    /// Reads the broker's create response: an empty body means a legacy
    /// broker without partitions; a JSON body must carry the partition
    /// list, kept in broker order; any other body is refused with its text.
    /// The installed list is returned, so callers see exactly what was
    /// applied.
    pub fn apply_create_response(&mut self, body: &str) -> (r: Result<
        Option<Vec<u32>>,
        ConsumerError,
    >)
        ensures
            final(self).station == old(self).station,
            final(self).options == old(self).options,
            final(self).cancelled == old(self).cancelled,
            body@.len() == 0 ==> (match r {
                Result::Ok(applied) => applied is None,
                _ => false,
            }),
            match r {
                Result::Ok(Option::Some(list)) => match final(self).partitions_list {
                    Option::Some(installed) => installed@ == list@,
                    Option::None => false,
                },
                Result::Ok(Option::None) => final(self).partitions_list is None,
                Result::Err(e) => final(self).partitions_list == old(self).partitions_list && (
                match e {
                    ConsumerError::InvalidResponse(t) => t@ == body@,
                    _ => false,
                }),
            },
    {
        let shape = probe_create_response(body);
        match consumer_partitions(shape, body) {
            Result::Err(t) => Result::Err(ConsumerError::InvalidResponse(t)),
            Result::Ok(Option::None) => {
                self.set_partitions(Option::None);
                Result::Ok(Option::None)
            },
            Result::Ok(Option::Some(list)) => {
                let installed = crate::models::response::duplicate_list(&list);
                self.set_partitions(Option::Some(installed));
                Result::Ok(Option::Some(list))
            },
        }
    }

    /// The registered consumer name.
    pub fn get_name(&self) -> (r: String)
        ensures
            r@ == self.options.consumer_name@,
    {
        self.options.consumer_name.clone()
    }

    /// The broker-side durable name.
    pub fn get_internal_name(&self) -> (r: String)
        ensures
            r@ == self.durable_name(),
    {
        if self.options.consumer_group.as_str().unicode_len() == 0 {
            crate::memphis_util::get_internal_name(self.options.consumer_name.as_str())
        } else {
            crate::memphis_util::get_internal_name(self.options.consumer_group.as_str())
        }
    }

    /// The stream names the pull loops and liveness pings address: one per
    /// partition, or the bare stream when the station is unpartitioned.
    pub fn stream_names(&self) -> (r: Vec<String>)
        ensures
            match self.partitions_list {
                Option::None => r@.len() == 1 && r@[0]@ == self.station.internal_name_of(
                    Option::None,
                ),
                Option::Some(list) => r@.len() == list@.len() && forall|i: int|
                    0 <= i < list@.len() ==> (#[trigger] r@[i])@ == self.station.internal_name_of(
                        Option::Some(list@[i]),
                    ),
            },
    {
        match &self.partitions_list {
            Option::None => {
                let mut names: Vec<String> = Vec::new();
                names.push(self.station.get_internal_name(Option::None));
                names
            },
            Option::Some(list) => {
                let mut names: Vec<String> = Vec::new();
                let mut i: usize = 0;
                while i < list.len()
                    invariant
                        i <= list@.len(),
                        names@.len() == i,
                        forall|j: int|
                            0 <= j < i ==> (#[trigger] names@[j])@
                                == self.station.internal_name_of(Option::Some(list@[j])),
                    decreases list@.len() - i,
                {
                    names.push(self.station.get_internal_name(Option::Some(list[i])));
                    i = i + 1;
                }
                names
            },
        }
    }

    /// The dead-letter subject this consumer's group subscribes on:
    /// `$memphis_dls_<stream>_<durable>`, with the unpartitioned stream
    /// name.
    pub fn dls_subject(&self) -> (r: String)
        ensures
            r@ == MemphisSubscriptions::DlsPrefix.text() + internal_of(
                self.station.options.station_name@,
            ) + "_"@ + self.durable_name(),
    {
        let mut s = MemphisSubscriptions::DlsPrefix.to_string();
        let stream = self.station.get_internal_name(Option::None);
        s.append(stream.as_str());
        push_char(&mut s, '_');
        let durable = self.get_internal_name();
        s.append(durable.as_str());
        proof {
            reveal_strlit("_");
            assert("_"@ =~= seq!['_']);
            assert(s@ =~= MemphisSubscriptions::DlsPrefix.text() + internal_of(
                self.station.options.station_name@,
            ) + "_"@ + self.durable_name());
        }
        s
    }

    /// Cancels the consumer: its loops take no further decisions. The
    /// broker-side registration stays.
    pub fn stop(&mut self)
        ensures
            final(self).cancelled,
            final(self).station == old(self).station,
            final(self).options == old(self).options,
            final(self).partitions_list == old(self).partitions_list,
    {
        self.cancelled = true;
    }

    /// The consume-side decision for one pulled message: a cancelled
    /// consumer forwards nothing and touches nothing; otherwise the key is
    /// probed and inserted in one step, and the message is handed to the
    /// application exactly when the key was not in flight.
    pub fn on_incoming(
        &self,
        set: &mut InFlightSet,
        subject: String,
        sequence: u64,
        payload: Vec<u8>,
        headers: Vec<(String, String)>,
    ) -> (r: Option<MemphisMessage>)
        requires
            old(set).wf(),
        ensures
            final(set).wf(),
            self.cancelled ==> r is None && final(set).view() == old(set).view(),
            !self.cancelled ==> {
                &&& final(set).view() =~= old(set).view().insert((subject@, sequence))
                &&& (r is Some <==> !old(set).view().contains((subject@, sequence)))
            },
            match r {
                Option::Some(m) => {
                    &&& m.subject@ == subject@
                    &&& m.sequence == sequence
                    &&& m.payload@ == payload@
                    &&& pairs_view(m.headers@) == pairs_view(headers@)
                    &&& m.consumer_group@ == self.options.consumer_group@
                    &&& m.max_ack_time_ms == self.options.max_ack_time_ms
                },
                Option::None => true,
            },
    {
        if self.cancelled {
            return Option::None;
        }
        let fresh = set.probe_insert(&subject, sequence);
        if !fresh {
            return Option::None;
        }
        Option::Some(
            MemphisMessage {
                subject,
                sequence,
                payload,
                headers,
                consumer_group: self.options.consumer_group.clone(),
                max_ack_time_ms: self.options.max_ack_time_ms,
            },
        )
    }

    /// The deregistration request for this consumer.
    pub fn destroy_request(&self) -> (r: DestroyConsumerRequest)
        ensures
            r.consumer_name@ == self.options.consumer_name@,
            r.station_name@ == self.station.options.station_name@,
            r.connection_id@ == self.station.connection_id@,
            r.username@ == self.station.username@,
            r.req_version == 1u32,
    {
        DestroyConsumerRequest {
            consumer_name: self.options.consumer_name.clone(),
            station_name: self.station.options.station_name.clone(),
            connection_id: self.station.connection_id.clone(),
            username: self.station.username.clone(),
            req_version: 1,
        }
    }
}

} // verus!
