//! The producer: name canonicalisation at creation, round-robin partition
//! selection, header stamping, the schema-validation gate, and the exact
//! publish plan handed to the transport. Publishing itself is I/O and lives
//! with the caller.

use vstd::prelude::*;
use crate::memphis_util::{is_hex_char, lower_of, sanitize_name};
use crate::models::request::{CreateProducerRequest, DestroyProducerRequest, NotificationRequest};
use crate::models::response::{probe_create_response, producer_partitions};
use crate::partition_iterator::PartitionIterator;
use crate::producer::composable_message::{
    header_insert, header_lookup, lemma_header_insert_other, lemma_header_insert_same, pairs_view,
    ComposableMessage,
};
use crate::producer::dls_message::{DlsMessage, DlsMessageProducer};
use crate::producer::memphis_producer_options::MemphisProducerOptions;
use crate::producer::producer_error::ProducerError;
use crate::request_error::RequestError;
use crate::schemaverse::json::{draft7_accepts, JsonSchemaValidator};
use crate::schemaverse::schema::SchemaValidationError;
use crate::station::memphis_station::MemphisStation;
use crate::text::{bytes_to_utf8, utf8_decoded};

verus! {

/// Everything the transport needs to publish one message: the subject, the
/// stamped headers, and the payload bytes.
#[derive(Debug)]
pub struct ProducePlan {
    pub subject: String,
    pub headers: Vec<(String, String)>,
    pub payload: Vec<u8>,
}

/// A refused produce call, together with the duties the refusal brings: the
/// alert to the notification subject and, when the station routes schema
/// failures there, the dead-letter request.
#[derive(Debug)]
pub struct ProduceFailure {
    pub error: ProducerError,
    pub notification: Option<NotificationRequest>,
    pub dls_message: Option<DlsMessage>,
}

/// A registered producer.
pub struct MemphisProducer {
    pub station: MemphisStation,
    pub options: MemphisProducerOptions,
    pub partitions_iterator: Option<PartitionIterator>,
}

impl MemphisProducer {
    /// The iterator, when there is one, keeps its cursor inside its list.
    pub open spec fn wf(&self) -> bool {
        match self.partitions_iterator {
            Option::Some(it) => it.wf(),
            Option::None => true,
        }
    }

    /// The headers the plan carries: the message's own, with the producer
    /// name and connection id stamped over them, and the dedup id as
    /// `msg-id` when the message has one.
    pub open spec fn stamped_headers(&self, message: &ComposableMessage) -> Seq<
        (Seq<char>, Seq<char>),
    > {
        let with_producer = header_insert(
            message.headers_view(),
            "$memphis_producedBy"@,
            self.options.producer_name@,
        );
        let with_connection = header_insert(
            with_producer,
            "$memphis_connectionId"@,
            self.station.connection_id@,
        );
        match message.msg_id_view() {
            Option::Some(id) => header_insert(with_connection, "msg-id"@, id),
            Option::None => with_connection,
        }
    }

    /// The plan a successful produce hands out, exactly.
    pub open spec fn plan_matches(
        &self,
        partition: Option<u32>,
        message: &ComposableMessage,
        plan: &ProducePlan,
    ) -> bool {
        &&& plan.subject@ == self.station.subject_name_of(partition)
        &&& pairs_view(plan.headers@) == self.stamped_headers(message)
        &&& plan.payload@ == message.payload@
    }

    /// The duties a validation refusal brings, exactly: the schema error,
    /// the alert with the station, producer and failure text, the payload as
    /// the alert's code when it is UTF-8, and the dead-letter request (with
    /// the stamped message) exactly when the station asks for it.
    pub open spec fn failure_matches(
        &self,
        message: &ComposableMessage,
        f: &ProduceFailure,
    ) -> bool {
        match f.error {
            ProducerError::SchemaValidationError(e) => {
                let detail = e.detail_text();
                &&& e is SchemaInvalid
                &&& match f.notification {
                    Option::Some(n) => {
                        &&& n.title@ == "Schema validation has failed "@
                        &&& n.msg@ == "Station "@ + self.station.options.station_name@
                            + "\nProducer: "@ + self.options.producer_name@ + "\nError: "@ + detail
                        &&& n.msg_type@ == "schema_validation_fail_alert"@
                        &&& n.code@ == match utf8_decoded(message.payload@) {
                            Option::Some(s) => s,
                            Option::None => "no valid utf8 supplied"@,
                        }
                    },
                    Option::None => false,
                }
                &&& if self.station.options.send_schema_failed_msg_to_dls {
                    match f.dls_message {
                        Option::Some(d) => {
                            &&& d.station_name@ == self.station.options.station_name@
                            &&& d.producer.name@ == self.options.producer_name@
                            &&& d.producer.connection_id@ == self.station.connection_id@
                            &&& d.message.headers_view() == self.stamped_headers(message)
                            &&& d.message.payload@ == message.payload@
                            &&& d.message.msg_id_view() == message.msg_id_view()
                            &&& d.validation_error@ == detail
                        },
                        Option::None => false,
                    }
                } else {
                    f.dls_message is None
                }
            },
            _ => false,
        }
    }

    /// The partition argument fits the producer: an unpartitioned producer
    /// takes any argument; a partitioned one takes only a partition from its
    /// list.
    pub open spec fn partition_admissible(&self, partition: Option<u32>) -> bool {
        match self.partitions_iterator {
            Option::None => true,
            Option::Some(it) => match partition {
                Option::Some(p) => it.list().contains(p),
                Option::None => false,
            },
        }
    }

    /// A failure that brings no duties: no alert, no dead-letter request.
    pub open spec fn bare_failure(f: &ProduceFailure, e: ProducerError) -> bool {
        &&& f.error == e
        &&& f.notification is None
        &&& f.dls_message is None
    }

    /// Canonicalises the producer name and states the registration request.
    /// The caller sends the request and hands the reply to
    /// `apply_create_response`.
    pub fn prepare(station: MemphisStation, options: MemphisProducerOptions) -> (r: (
        MemphisProducer,
        CreateProducerRequest,
    ))
        ensures
            ({
                let (producer, request) = r;
                &&& producer.station == station
                &&& producer.partitions_iterator is None
                &&& producer.wf()
                &&& producer.options.generate_unique_suffix == options.generate_unique_suffix
                &&& !options.generate_unique_suffix ==> producer.options.producer_name@ == lower_of(
                    options.producer_name@,
                )
                &&& options.generate_unique_suffix ==> {
                    let lowered = lower_of(options.producer_name@);
                    &&& producer.options.producer_name@.len() == lowered.len() + 9
                    &&& producer.options.producer_name@.take(lowered.len() as int) == lowered
                    &&& producer.options.producer_name@[lowered.len() as int] == '_'
                    &&& forall|i: int|
                        lowered.len() + 1 <= i < producer.options.producer_name@.len()
                            ==> is_hex_char(#[trigger] producer.options.producer_name@[i])
                }
                &&& request.producer_name@ == producer.options.producer_name@
                &&& request.station_name@ == station.options.station_name@
                &&& request.producer_type@ == "application"@
                &&& request.connection_id@ == station.connection_id@
                &&& request.req_version == 2u32
                &&& request.username@ == station.username@
            }),
    {
        let mut options = options;
        sanitize_name(&mut options.producer_name, options.generate_unique_suffix);
        let request = CreateProducerRequest {
            producer_name: options.producer_name.clone(),
            station_name: station.options.station_name.clone(),
            producer_type: "application".to_owned(),
            connection_id: station.connection_id.clone(),
            req_version: 2,
            username: station.username.clone(),
        };
        let producer = MemphisProducer { station, options, partitions_iterator: Option::None };
        (producer, request)
    }

    /// Installs the partition list the broker answered with: a list builds
    /// the round-robin iterator in broker order with the cursor at the
    /// start; no list leaves the producer unpartitioned.
    pub fn set_partitions(&mut self, partitions: Option<Vec<u32>>)
        ensures
            final(self).station == old(self).station,
            final(self).options == old(self).options,
            final(self).wf(),
            match partitions {
                Option::Some(list) => match final(self).partitions_iterator {
                    Option::Some(it) => it.list() == list@ && it.cursor() == 0,
                    Option::None => false,
                },
                Option::None => final(self).partitions_iterator is None,
            },
    {
        match partitions {
            Option::None => {
                self.partitions_iterator = Option::None;
            },
            Option::Some(list) => {
                self.partitions_iterator = Option::Some(PartitionIterator::new(list));
            },
        }
    }

    /// Reads the broker's create response: an empty or list-less body leaves
    /// the producer unpartitioned; a partition list builds the round-robin
    /// iterator in broker order; any other body is refused with its text.
    /// The installed list is returned, so callers see exactly what was
    /// applied.
    pub fn apply_create_response(&mut self, body: &str) -> (r: Result<
        Option<Vec<u32>>,
        RequestError,
    >)
        requires
            old(self).wf(),
        ensures
            final(self).station == old(self).station,
            final(self).options == old(self).options,
            final(self).wf(),
            body@.len() == 0 ==> (match r {
                Result::Ok(applied) => applied is None,
                _ => false,
            }),
            match r {
                Result::Ok(Option::Some(list)) => match final(self).partitions_iterator {
                    Option::Some(it) => it.list() == list@ && it.cursor() == 0,
                    Option::None => false,
                },
                Result::Ok(Option::None) => final(self).partitions_iterator is None,
                Result::Err(e) => final(self).partitions_iterator == old(
                    self,
                ).partitions_iterator && (match e {
                    RequestError::MemphisError(t) => t@ == body@,
                    _ => false,
                }),
            },
    {
        let shape = probe_create_response(body);
        match producer_partitions(shape, body) {
            Result::Err(t) => Result::Err(RequestError::MemphisError(t)),
            Result::Ok(Option::None) => {
                self.set_partitions(Option::None);
                Result::Ok(Option::None)
            },
            Result::Ok(Option::Some(list)) => {
                let installed = crate::models::response::duplicate_list(&list);
                self.set_partitions(Option::Some(installed));
                Result::Ok(Option::Some(list))
            },
        }
    }

    /// The registered producer name.
    pub fn get_name(&self) -> (r: String)
        ensures
            r@ == self.options.producer_name@,
    {
        self.options.producer_name.clone()
    }

    /// The deregistration request for this producer.
    pub fn destroy_request(&self) -> (r: DestroyProducerRequest)
        ensures
            r.producer_name@ == self.options.producer_name@,
            r.station_name@ == self.station.options.station_name@,
            r.connection_id@ == self.station.connection_id@,
            r.username@ == self.station.username@,
            r.req_version == 1u32,
    {
        DestroyProducerRequest {
            producer_name: self.options.producer_name.clone(),
            station_name: self.station.options.station_name.clone(),
            connection_id: self.station.connection_id.clone(),
            username: self.station.username.clone(),
            req_version: 1,
        }
    }

    /// Plans one publish to a given partition: an empty payload and a
    /// partition outside the station's list are refused outright; otherwise
    /// the headers are stamped and, when a validator is bound, the payload
    /// must pass it — a refusal brings the alert and dead-letter duties.
    /// The caller hands the validator snapshot it captured for this call.
    pub fn produce_to_partition(
        &self,
        partition: Option<u32>,
        message: ComposableMessage,
        schema: Option<&JsonSchemaValidator>,
    ) -> (r: Result<ProducePlan, ProduceFailure>)
        ensures
            message.payload@.len() == 0 ==> (match r {
                Result::Err(f) => Self::bare_failure(&f, ProducerError::PayloadEmpty),
                _ => false,
            }),
            message.payload@.len() > 0 && self.partitions_iterator is Some && partition is None
                ==> (match r {
                Result::Err(f) => Self::bare_failure(&f, ProducerError::PartitionRequired),
                _ => false,
            }),
            message.payload@.len() > 0 && self.partitions_iterator is Some && partition is Some
                && !self.partition_admissible(partition) ==> (match (partition, r) {
                (Option::Some(p), Result::Err(f)) => Self::bare_failure(
                    &f,
                    ProducerError::PartitionNotValid(p),
                ),
                _ => false,
            }),
            message.payload@.len() > 0 && self.partition_admissible(partition) ==> (match r {
                Result::Ok(plan) => self.plan_matches(partition, &message, &plan),
                Result::Err(f) => schema is Some && self.failure_matches(&message, &f),
            }),
            message.payload@.len() > 0 && self.partition_admissible(partition) ==> ((r is Ok)
                <==> (match schema {
                Option::Some(v) => draft7_accepts(v.schema_text(), message.payload@),
                Option::None => true,
            })),
    {
        if message.payload.len() == 0 {
            return Result::Err(
                ProduceFailure {
                    error: ProducerError::PayloadEmpty,
                    notification: Option::None,
                    dls_message: Option::None,
                },
            );
        }
        match &self.partitions_iterator {
            Option::Some(it) => {
                match partition {
                    Option::None => {
                        return Result::Err(
                            ProduceFailure {
                                error: ProducerError::PartitionRequired,
                                notification: Option::None,
                                dls_message: Option::None,
                            },
                        );
                    },
                    Option::Some(p) => {
                        if !it.contains_partition(p) {
                            return Result::Err(
                                ProduceFailure {
                                    error: ProducerError::PartitionNotValid(p),
                                    notification: Option::None,
                                    dls_message: Option::None,
                                },
                            );
                        }
                    },
                }
            },
            Option::None => {},
        }
        let ghost unstamped = message;
        let mut message = message;
        message.insert_header("$memphis_producedBy", self.options.producer_name.as_str());
        message.insert_header("$memphis_connectionId", self.station.connection_id.as_str());
        let message_id = match &message.msg_id {
            Option::Some(id) => Option::Some(id.clone()),
            Option::None => Option::None,
        };
        match &message_id {
            Option::Some(id) => {
                message.insert_header("msg-id", id.as_str());
            },
            Option::None => {},
        }
        proof {
            assert(message.headers_view() == self.stamped_headers(&unstamped));
        }
        match schema {
            Option::None => Result::Ok(self.plan_for(partition, message)),
            Option::Some(validator) => {
                match validator.validate(&message.payload) {
                    Result::Ok(_) => Result::Ok(self.plan_for(partition, message)),
                    Result::Err(e) => Result::Err(self.validation_failure(message, e)),
                }
            },
        }
    }

    /// The exact plan for a stamped message.
    fn plan_for(&self, partition: Option<u32>, message: ComposableMessage) -> (plan: ProducePlan)
        ensures
            plan.subject@ == self.station.subject_name_of(partition),
            pairs_view(plan.headers@) == message.headers_view(),
            plan.payload@ == message.payload@,
    {
        let subject = self.station.get_internal_subject_name(partition);
        ProducePlan { subject, headers: message.headers, payload: message.payload }
    }

    /// The exact duties of a validation refusal for a stamped message.
    fn validation_failure(&self, message: ComposableMessage, e: SchemaValidationError) -> (f:
        ProduceFailure)
        ensures
            f.error == ProducerError::SchemaValidationError(e),
            match f.notification {
                Option::Some(n) => {
                    &&& n.title@ == "Schema validation has failed "@
                    &&& n.msg@ == "Station "@ + self.station.options.station_name@
                        + "\nProducer: "@ + self.options.producer_name@ + "\nError: "@
                        + e.detail_text()
                    &&& n.msg_type@ == "schema_validation_fail_alert"@
                    &&& n.code@ == match utf8_decoded(message.payload@) {
                        Option::Some(s) => s,
                        Option::None => "no valid utf8 supplied"@,
                    }
                },
                Option::None => false,
            },
            if self.station.options.send_schema_failed_msg_to_dls {
                match f.dls_message {
                    Option::Some(d) => {
                        &&& d.station_name@ == self.station.options.station_name@
                        &&& d.producer.name@ == self.options.producer_name@
                        &&& d.producer.connection_id@ == self.station.connection_id@
                        &&& d.message.headers_view() == message.headers_view()
                        &&& d.message.payload@ == message.payload@
                        &&& d.message.msg_id_view() == message.msg_id_view()
                        &&& d.validation_error@ == e.detail_text()
                    },
                    Option::None => false,
                }
            } else {
                f.dls_message is None
            },
    {
        let detail = e.detail();
        let mut msg = String::new();
        msg.append("Station ");
        msg.append(self.station.options.station_name.as_str());
        msg.append("\nProducer: ");
        msg.append(self.options.producer_name.as_str());
        msg.append("\nError: ");
        msg.append(detail.as_str());
        proof {
            assert(msg@ =~= "Station "@ + self.station.options.station_name@ + "\nProducer: "@
                + self.options.producer_name@ + "\nError: "@ + e.detail_text());
        }
        let code = match bytes_to_utf8(&message.payload) {
            Option::Some(s) => s,
            Option::None => "no valid utf8 supplied".to_owned(),
        };
        let notification = NotificationRequest {
            title: "Schema validation has failed ".to_owned(),
            msg,
            msg_type: crate::memphis_constants::MemphisNotificationType::SchemaValidationFailAlert.to_string(),
            code,
        };
        let dls_message = if self.station.options.send_schema_failed_msg_to_dls {
            Option::Some(
                DlsMessage {
                    station_name: self.station.options.station_name.clone(),
                    producer: DlsMessageProducer {
                        name: self.options.producer_name.clone(),
                        connection_id: self.station.connection_id.clone(),
                    },
                    message,
                    validation_error: detail,
                },
            )
        } else {
            Option::None
        };
        ProduceFailure {
            error: ProducerError::SchemaValidationError(e),
            notification: Option::Some(notification),
            dls_message,
        }
    }

    /// Plans one publish, choosing the partition round-robin. An empty
    /// payload is refused before partition selection, so the cursor is
    /// untouched by that failure; otherwise the cursor advances once per
    /// call and wraps around in broker order, and an empty partition list
    /// refuses the call. The stamping and validation rules are those of
    /// `produce_to_partition`.
    pub fn produce(
        &mut self,
        message: ComposableMessage,
        schema: Option<&JsonSchemaValidator>,
    ) -> (r: Result<ProducePlan, ProduceFailure>)
        requires
            old(self).wf(),
        ensures
            final(self).wf(),
            final(self).station == old(self).station,
            final(self).options == old(self).options,
            message.payload@.len() == 0 ==> {
                &&& (match r {
                    Result::Err(f) => Self::bare_failure(&f, ProducerError::PayloadEmpty),
                    _ => false,
                })
                &&& (match (old(self).partitions_iterator, final(self).partitions_iterator) {
                    (Option::None, Option::None) => true,
                    (Option::Some(it), Option::Some(it2)) => it2.list() == it.list()
                        && it2.cursor() == it.cursor(),
                    _ => false,
                })
            },
            message.payload@.len() > 0 ==> (match old(self).partitions_iterator {
                Option::None => {
                    &&& final(self).partitions_iterator is None
                    &&& (match r {
                        Result::Ok(plan) => old(self).plan_matches(Option::None, &message, &plan),
                        Result::Err(f) => schema is Some && old(self).failure_matches(
                            &message,
                            &f,
                        ),
                    })
                    &&& ((r is Ok) <==> (match schema {
                        Option::Some(v) => draft7_accepts(v.schema_text(), message.payload@),
                        Option::None => true,
                    }))
                },
                Option::Some(it) => if it.list().len() == 0 {
                    &&& (match final(self).partitions_iterator {
                        Option::Some(it2) => it2.list() == it.list() && it2.cursor()
                            == it.cursor(),
                        Option::None => false,
                    })
                    &&& (match r {
                        Result::Err(f) => Self::bare_failure(
                            &f,
                            ProducerError::PartitionUnavailable,
                        ),
                        _ => false,
                    })
                } else {
                    let len = it.list().len() as int;
                    let pos = PartitionIterator::position_at(len, it.cursor(), 0);
                    let chosen = it.list()[pos];
                    &&& (match final(self).partitions_iterator {
                        Option::Some(it2) => it2.list() == it.list() && it2.cursor() == pos,
                        Option::None => false,
                    })
                    &&& (match r {
                        Result::Ok(plan) => old(self).plan_matches(
                            Option::Some(chosen),
                            &message,
                            &plan,
                        ),
                        Result::Err(f) => schema is Some && old(self).failure_matches(
                            &message,
                            &f,
                        ),
                    })
                    &&& ((r is Ok) <==> (match schema {
                        Option::Some(v) => draft7_accepts(v.schema_text(), message.payload@),
                        Option::None => true,
                    }))
                },
            }),
    {
        if message.payload.len() == 0 {
            return Result::Err(
                ProduceFailure {
                    error: ProducerError::PayloadEmpty,
                    notification: Option::None,
                    dls_message: Option::None,
                },
            );
        }
        let partition: Option<u32> = match &mut self.partitions_iterator {
            Option::None => Option::None,
            Option::Some(iterator) => {
                match iterator.next() {
                    Option::Some(p) => Option::Some(p),
                    Option::None => {
                        return Result::Err(
                            ProduceFailure {
                                error: ProducerError::PartitionUnavailable,
                                notification: Option::None,
                                dls_message: Option::None,
                            },
                        );
                    },
                }
            },
        };
        proof {
            match old(self).partitions_iterator {
                Option::Some(it) => {
                    if it.list().len() > 0 {
                        let len = it.list().len() as int;
                        let pos = PartitionIterator::position_at(len, it.cursor(), 0);
                        assert(partition == Option::Some(it.list()[pos]));
                        assert(it.list().contains(it.list()[pos]));
                    }
                },
                Option::None => {},
            }
        }
        self.produce_to_partition(partition, message, schema)
    }
}

/// Round trip, the producer's half: the plan a produce hands to the
/// transport carries the payload bytes unchanged, and its headers answer
/// the producer's name under `$memphis_producedBy` and the client's
/// connection id under `$memphis_connectionId`.
pub proof fn lemma_produce_round_trip(
    producer: &MemphisProducer,
    partition: Option<u32>,
    message: &ComposableMessage,
    plan: &ProducePlan,
)
    requires
        producer.plan_matches(partition, message, plan),
    ensures
        plan.payload@ == message.payload@,
        header_lookup(pairs_view(plan.headers@), "$memphis_producedBy"@) == Option::Some(
            producer.options.producer_name@,
        ),
        header_lookup(pairs_view(plan.headers@), "$memphis_connectionId"@) == Option::Some(
            producer.station.connection_id@,
        ),
{
    reveal_strlit("$memphis_producedBy");
    reveal_strlit("$memphis_connectionId");
    reveal_strlit("msg-id");
    assert("$memphis_producedBy"@.len() == 19);
    assert("$memphis_connectionId"@.len() == 21);
    assert("msg-id"@.len() == 6);
    let produced_by = "$memphis_producedBy"@;
    let connection = "$memphis_connectionId"@;
    let message_id = "msg-id"@;
    let h0 = message.headers_view();
    let h1 = header_insert(h0, produced_by, producer.options.producer_name@);
    let h2 = header_insert(h1, connection, producer.station.connection_id@);
    lemma_header_insert_same(h0, produced_by, producer.options.producer_name@);
    lemma_header_insert_same(h1, connection, producer.station.connection_id@);
    lemma_header_insert_other(h1, connection, producer.station.connection_id@, produced_by);
    match message.msg_id_view() {
        Option::Some(id) => {
            lemma_header_insert_other(h2, message_id, id, produced_by);
            lemma_header_insert_other(h2, message_id, id, connection);
        },
        Option::None => {},
    }
}

} // verus!
