//! The control-plane request values and their exact JSON wire forms. The
//! broker reads these bytes; each encoder's contract pins every one of them.

use vstd::prelude::*;
use crate::json_text::{append_json_bool, append_json_str, json_bool, json_str};
use crate::text::{append_dec_i64, append_dec_u64, dec_digits, int_dec};

verus! {

/// Registers a producer with the broker.
#[derive(Debug)]
pub struct CreateProducerRequest {
    pub producer_name: String,
    pub station_name: String,
    pub producer_type: String,
    pub connection_id: String,
    pub req_version: u32,
    pub username: String,
}

impl CreateProducerRequest {
    /// The exact wire form.
    pub open spec fn json(&self) -> Seq<char> {
        "{\"name\":"@ + json_str(self.producer_name@) + ",\"station_name\":"@ + json_str(
            self.station_name@,
        ) + ",\"producer_type\":"@ + json_str(self.producer_type@) + ",\"connection_id\":"@
            + json_str(self.connection_id@) + ",\"req_version\":"@ + dec_digits(
            self.req_version as nat,
        ) + ",\"username\":"@ + json_str(self.username@) + "}"@
    }

    pub fn encode(&self) -> (s: String)
        ensures
            s@ == self.json(),
    {
        let mut s = String::new();
        s.append("{\"name\":");
        append_json_str(&mut s, self.producer_name.as_str());
        s.append(",\"station_name\":");
        append_json_str(&mut s, self.station_name.as_str());
        s.append(",\"producer_type\":");
        append_json_str(&mut s, self.producer_type.as_str());
        s.append(",\"connection_id\":");
        append_json_str(&mut s, self.connection_id.as_str());
        s.append(",\"req_version\":");
        append_dec_u64(&mut s, self.req_version as u64);
        s.append(",\"username\":");
        append_json_str(&mut s, self.username.as_str());
        s.append("}");
        proof {
            assert(s@ =~= self.json());
        }
        s
    }
}

/// Deregisters a producer.
#[derive(Debug)]
pub struct DestroyProducerRequest {
    pub producer_name: String,
    pub station_name: String,
    pub connection_id: String,
    pub username: String,
    pub req_version: u32,
}

impl DestroyProducerRequest {
    /// The exact wire form.
    pub open spec fn json(&self) -> Seq<char> {
        "{\"name\":"@ + json_str(self.producer_name@) + ",\"station_name\":"@ + json_str(
            self.station_name@,
        ) + ",\"connection_id\":"@ + json_str(self.connection_id@) + ",\"username\":"@ + json_str(
            self.username@,
        ) + ",\"req_version\":"@ + dec_digits(self.req_version as nat) + "}"@
    }

    pub fn encode(&self) -> (s: String)
        ensures
            s@ == self.json(),
    {
        let mut s = String::new();
        s.append("{\"name\":");
        append_json_str(&mut s, self.producer_name.as_str());
        s.append(",\"station_name\":");
        append_json_str(&mut s, self.station_name.as_str());
        s.append(",\"connection_id\":");
        append_json_str(&mut s, self.connection_id.as_str());
        s.append(",\"username\":");
        append_json_str(&mut s, self.username.as_str());
        s.append(",\"req_version\":");
        append_dec_u64(&mut s, self.req_version as u64);
        s.append("}");
        proof {
            assert(s@ =~= self.json());
        }
        s
    }
}

/// Registers a consumer with the broker.
#[derive(Debug)]
pub struct CreateConsumerRequest {
    pub consumer_name: String,
    pub station_name: String,
    pub connection_id: String,
    pub consumer_type: String,
    pub consumer_group: String,
    pub max_ack_time_ms: i32,
    pub max_msg_deliveries: i32,
    pub start_consume_from_sequence: i32,
    pub last_messages: i32,
    pub req_version: u32,
    pub username: String,
}

impl CreateConsumerRequest {
    /// The exact wire form.
    pub open spec fn json(&self) -> Seq<char> {
        "{\"name\":"@ + json_str(self.consumer_name@) + ",\"station_name\":"@ + json_str(
            self.station_name@,
        ) + ",\"connection_id\":"@ + json_str(self.connection_id@) + ",\"consumer_type\":"@
            + json_str(self.consumer_type@) + ",\"consumers_group\":"@ + json_str(
            self.consumer_group@,
        ) + ",\"max_ack_time_ms\":"@ + int_dec(self.max_ack_time_ms as int)
            + ",\"max_msg_deliveries\":"@ + int_dec(self.max_msg_deliveries as int)
            + ",\"start_consume_from_sequence\":"@ + int_dec(self.start_consume_from_sequence as int)
            + ",\"last_messages\":"@ + int_dec(self.last_messages as int) + ",\"req_version\":"@
            + dec_digits(self.req_version as nat) + ",\"username\":"@ + json_str(self.username@)
            + "}"@
    }

    pub fn encode(&self) -> (s: String)
        ensures
            s@ == self.json(),
    {
        let mut s = String::new();
        s.append("{\"name\":");
        append_json_str(&mut s, self.consumer_name.as_str());
        s.append(",\"station_name\":");
        append_json_str(&mut s, self.station_name.as_str());
        s.append(",\"connection_id\":");
        append_json_str(&mut s, self.connection_id.as_str());
        s.append(",\"consumer_type\":");
        append_json_str(&mut s, self.consumer_type.as_str());
        s.append(",\"consumers_group\":");
        append_json_str(&mut s, self.consumer_group.as_str());
        s.append(",\"max_ack_time_ms\":");
        append_dec_i64(&mut s, self.max_ack_time_ms as i64);
        s.append(",\"max_msg_deliveries\":");
        append_dec_i64(&mut s, self.max_msg_deliveries as i64);
        s.append(",\"start_consume_from_sequence\":");
        append_dec_i64(&mut s, self.start_consume_from_sequence as i64);
        s.append(",\"last_messages\":");
        append_dec_i64(&mut s, self.last_messages as i64);
        s.append(",\"req_version\":");
        append_dec_u64(&mut s, self.req_version as u64);
        s.append(",\"username\":");
        append_json_str(&mut s, self.username.as_str());
        s.append("}");
        proof {
            assert(s@ =~= self.json());
        }
        s
    }
}

/// Deregisters a consumer.
#[derive(Debug)]
pub struct DestroyConsumerRequest {
    pub consumer_name: String,
    pub station_name: String,
    pub connection_id: String,
    pub username: String,
    pub req_version: u32,
}

impl DestroyConsumerRequest {
    /// The exact wire form.
    pub open spec fn json(&self) -> Seq<char> {
        "{\"name\":"@ + json_str(self.consumer_name@) + ",\"station_name\":"@ + json_str(
            self.station_name@,
        ) + ",\"connection_id\":"@ + json_str(self.connection_id@) + ",\"username\":"@ + json_str(
            self.username@,
        ) + ",\"req_version\":"@ + dec_digits(self.req_version as nat) + "}"@
    }

    pub fn encode(&self) -> (s: String)
        ensures
            s@ == self.json(),
    {
        let mut s = String::new();
        s.append("{\"name\":");
        append_json_str(&mut s, self.consumer_name.as_str());
        s.append(",\"station_name\":");
        append_json_str(&mut s, self.station_name.as_str());
        s.append(",\"connection_id\":");
        append_json_str(&mut s, self.connection_id.as_str());
        s.append(",\"username\":");
        append_json_str(&mut s, self.username.as_str());
        s.append(",\"req_version\":");
        append_dec_u64(&mut s, self.req_version as u64);
        s.append("}");
        proof {
            assert(s@ =~= self.json());
        }
        s
    }
}

/// The dead-letter switches of a station.
#[derive(Debug)]
pub struct DlsConfiguration {
    pub poison: bool,
    pub schemaverse: bool,
}

impl DlsConfiguration {
    /// The exact wire form.
    pub open spec fn json(&self) -> Seq<char> {
        "{\"poison\":"@ + json_bool(self.poison) + ",\"Schemaverse\":"@ + json_bool(
            self.schemaverse,
        ) + "}"@
    }

    pub fn encode(&self) -> (s: String)
        ensures
            s@ == self.json(),
    {
        let mut s = String::new();
        s.append("{\"poison\":");
        append_json_bool(&mut s, self.poison);
        s.append(",\"Schemaverse\":");
        append_json_bool(&mut s, self.schemaverse);
        s.append("}");
        proof {
            assert(s@ =~= self.json());
        }
        s
    }
}

/// Creates (idempotently) a station.
#[derive(Debug)]
pub struct CreateStationRequest {
    pub name: String,
    pub retention_type: String,
    pub retention_value: u32,
    pub storage_type: String,
    pub replicas: u32,
    pub idempotency_window_in_ms: u32,
    pub schema_name: String,
    pub dls_configuration: DlsConfiguration,
    pub username: String,
    pub tiered_storage_enabled: bool,
    pub partitions_number: u32,
}

impl CreateStationRequest {
    /// The exact wire form.
    pub open spec fn json(&self) -> Seq<char> {
        "{\"name\":"@ + json_str(self.name@) + ",\"retention_type\":"@ + json_str(
            self.retention_type@,
        ) + ",\"retention_value\":"@ + dec_digits(self.retention_value as nat)
            + ",\"storage_type\":"@ + json_str(self.storage_type@) + ",\"replicas\":"@
            + dec_digits(self.replicas as nat) + ",\"idempotency_window_in_ms\":"@ + dec_digits(
            self.idempotency_window_in_ms as nat,
        ) + ",\"schema_name\":"@ + json_str(self.schema_name@) + ",\"dls_configuration\":"@
            + self.dls_configuration.json() + ",\"username\":"@ + json_str(self.username@)
            + ",\"tiered_storage_enabled\":"@ + json_bool(self.tiered_storage_enabled)
            + ",\"partitions_number\":"@ + dec_digits(self.partitions_number as nat) + "}"@
    }

    pub fn encode(&self) -> (s: String)
        ensures
            s@ == self.json(),
    {
        let mut s = String::new();
        s.append("{\"name\":");
        append_json_str(&mut s, self.name.as_str());
        s.append(",\"retention_type\":");
        append_json_str(&mut s, self.retention_type.as_str());
        s.append(",\"retention_value\":");
        append_dec_u64(&mut s, self.retention_value as u64);
        s.append(",\"storage_type\":");
        append_json_str(&mut s, self.storage_type.as_str());
        s.append(",\"replicas\":");
        append_dec_u64(&mut s, self.replicas as u64);
        s.append(",\"idempotency_window_in_ms\":");
        append_dec_u64(&mut s, self.idempotency_window_in_ms as u64);
        s.append(",\"schema_name\":");
        append_json_str(&mut s, self.schema_name.as_str());
        s.append(",\"dls_configuration\":");
        let dls = self.dls_configuration.encode();
        s.append(dls.as_str());
        s.append(",\"username\":");
        append_json_str(&mut s, self.username.as_str());
        s.append(",\"tiered_storage_enabled\":");
        append_json_bool(&mut s, self.tiered_storage_enabled);
        s.append(",\"partitions_number\":");
        append_dec_u64(&mut s, self.partitions_number as u64);
        s.append("}");
        proof {
            assert(s@ =~= self.json());
        }
        s
    }
}

/// Station creation is stateless on the client's side: two creation
/// requests whose fields agree put the same bytes on the wire, so repeating
/// a creation with identical options asks the broker the identical thing,
/// and the broker answers both idempotently.
pub proof fn lemma_station_create_idempotent(r1: &CreateStationRequest, r2: &CreateStationRequest)
    requires
        r1.name@ == r2.name@,
        r1.retention_type@ == r2.retention_type@,
        r1.retention_value == r2.retention_value,
        r1.storage_type@ == r2.storage_type@,
        r1.replicas == r2.replicas,
        r1.idempotency_window_in_ms == r2.idempotency_window_in_ms,
        r1.schema_name@ == r2.schema_name@,
        r1.dls_configuration.poison == r2.dls_configuration.poison,
        r1.dls_configuration.schemaverse == r2.dls_configuration.schemaverse,
        r1.username@ == r2.username@,
        r1.tiered_storage_enabled == r2.tiered_storage_enabled,
        r1.partitions_number == r2.partitions_number,
    ensures
        r1.json() == r2.json(),
{
}

/// Destroys a station.
#[derive(Debug)]
pub struct DestroyStationRequest {
    pub station_name: String,
    pub username: String,
}

impl DestroyStationRequest {
    /// The exact wire form.
    pub open spec fn json(&self) -> Seq<char> {
        "{\"station_name\":"@ + json_str(self.station_name@) + ",\"username\":"@ + json_str(
            self.username@,
        ) + "}"@
    }

    pub fn encode(&self) -> (s: String)
        ensures
            s@ == self.json(),
    {
        let mut s = String::new();
        s.append("{\"station_name\":");
        append_json_str(&mut s, self.station_name.as_str());
        s.append(",\"username\":");
        append_json_str(&mut s, self.username.as_str());
        s.append("}");
        proof {
            assert(s@ =~= self.json());
        }
        s
    }
}

/// An alert sent to the broker's notification subject.
#[derive(Debug)]
pub struct NotificationRequest {
    pub title: String,
    pub msg: String,
    pub msg_type: String,
    pub code: String,
}

impl NotificationRequest {
    /// The exact wire form; the kind tag is written under the key `type`.
    pub open spec fn json(&self) -> Seq<char> {
        "{\"title\":"@ + json_str(self.title@) + ",\"msg\":"@ + json_str(self.msg@)
            + ",\"type\":"@ + json_str(self.msg_type@) + ",\"code\":"@ + json_str(self.code@)
            + "}"@
    }

    pub fn encode(&self) -> (s: String)
        ensures
            s@ == self.json(),
    {
        let mut s = String::new();
        s.append("{\"title\":");
        append_json_str(&mut s, self.title.as_str());
        s.append(",\"msg\":");
        append_json_str(&mut s, self.msg.as_str());
        s.append(",\"type\":");
        append_json_str(&mut s, self.msg_type.as_str());
        s.append(",\"code\":");
        append_json_str(&mut s, self.code.as_str());
        s.append("}");
        proof {
            assert(s@ =~= self.json());
        }
        s
    }
}

/// The resend-acknowledgement for a poison message, the fallback when a
/// normal acknowledgement fails.
#[derive(Debug)]
pub struct PmAckMsg {
    pub id: String,
    pub consumer_group_name: String,
}

impl PmAckMsg {
    /// The exact wire form.
    pub open spec fn json(&self) -> Seq<char> {
        "{\"id\":"@ + json_str(self.id@) + ",\"cg_name\":"@ + json_str(self.consumer_group_name@)
            + "}"@
    }

    pub fn encode(&self) -> (s: String)
        ensures
            s@ == self.json(),
    {
        let mut s = String::new();
        s.append("{\"id\":");
        append_json_str(&mut s, self.id.as_str());
        s.append(",\"cg_name\":");
        append_json_str(&mut s, self.consumer_group_name.as_str());
        s.append("}");
        proof {
            assert(s@ =~= self.json());
        }
        s
    }
}

} // verus!
