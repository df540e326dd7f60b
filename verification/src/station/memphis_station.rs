//! The station: its canonical names, the subjects derived from them, and the
//! control-plane requests its lifecycle sends. The sending itself is I/O and
//! lives with the caller; everything in the bytes is pinned here.

use vstd::prelude::*;
use crate::memphis_constants::MemphisSubscriptions;
use crate::memphis_util::{get_internal_name, get_partition_key, internal_of, murmur3_of};
use crate::models::request::{CreateStationRequest, DestroyStationRequest, DlsConfiguration};
use crate::schemaverse::json::JsonSchemaValidator;
use crate::schemaverse::schema_type::{SchemaType, SchemaTypeError};
use crate::station::memphis_station_options::MemphisStationsOptions;
use crate::text::{dec_digits, push_char};

verus! {

impl MemphisStationsOptions {
    /// A field-for-field copy.
    pub fn duplicate(&self) -> (o: Self)
        ensures
            o == *self,
    {
        MemphisStationsOptions {
            station_name: self.station_name.clone(),
            retention_type: self.retention_type,
            retention_value: self.retention_value,
            storage_type: self.storage_type,
            replicas: self.replicas,
            idempotency_window_ms: self.idempotency_window_ms,
            schema_name: self.schema_name.clone(),
            send_poison_msg_to_dls: self.send_poison_msg_to_dls,
            send_schema_failed_msg_to_dls: self.send_schema_failed_msg_to_dls,
            tiered_storage_enabled: self.tiered_storage_enabled,
            partition_number: self.partition_number,
        }
    }
}

/// The station's current validator with its name and kind, replaced whole
/// when a schema update arrives.
pub struct SchemaBinding {
    pub schema_name: String,
    pub schema_type: SchemaType,
    pub validator: JsonSchemaValidator,
}

/// A station handle: its options and the identity its requests carry.
#[derive(Debug)]
pub struct MemphisStation {
    pub options: MemphisStationsOptions,
    pub connection_id: String,
    pub username: String,
}

impl MemphisStation {
    /// The broker-internal stream name: the canonical station name, with
    /// `$<partition>` appended on a partitioned stream.
    pub open spec fn internal_name_of(&self, partition: Option<u32>) -> Seq<char> {
        match partition {
            Option::None => internal_of(self.options.station_name@),
            Option::Some(p) => internal_of(self.options.station_name@) + "$"@ + dec_digits(
                p as nat,
            ),
        }
    }

    /// The subject messages are produced on: the stream name plus `.final`.
    pub open spec fn subject_name_of(&self, partition: Option<u32>) -> Seq<char> {
        self.internal_name_of(partition) + ".final"@
    }

    /// Binds a created station to the identity its requests will carry.
    pub fn new(options: MemphisStationsOptions, connection_id: String, username: String) -> (s:
        Self)
        ensures
            s.options == options,
            s.connection_id == connection_id,
            s.username == username,
    {
        MemphisStation { options, connection_id, username }
    }

    /// The user-visible station name.
    pub fn get_name(&self) -> (r: &str)
        ensures
            r@ == self.options.station_name@,
    {
        self.options.station_name.as_str()
    }

    /// The broker-internal stream name.
    pub fn get_internal_name(&self, partition: Option<u32>) -> (r: String)
        ensures
            r@ == self.internal_name_of(partition),
    {
        match partition {
            Option::None => get_internal_name(self.options.station_name.as_str()),
            Option::Some(p) => {
                let mut s = get_internal_name(self.options.station_name.as_str());
                push_char(&mut s, '$');
                crate::text::append_dec_u64(&mut s, p as u64);
                proof {
                    reveal_strlit("$");
                    assert("$"@ =~= seq!['$']);
                    assert(s@ =~= self.internal_name_of(partition));
                }
                s
            },
        }
    }

    /// The subject messages are produced on.
    pub fn get_internal_subject_name(&self, partition: Option<u32>) -> (r: String)
        ensures
            r@ == self.subject_name_of(partition),
    {
        let mut s = self.get_internal_name(partition);
        s.append(".final");
        s
    }

    /// The subject the station's schema updates arrive on.
    pub fn schema_updates_subject(&self) -> (r: String)
        ensures
            r@ == MemphisSubscriptions::SchemaUpdatesPrefix.text() + internal_of(
                self.options.station_name@,
            ),
    {
        let mut s = MemphisSubscriptions::SchemaUpdatesPrefix.to_string();
        let inner = get_internal_name(self.options.station_name.as_str());
        s.append(inner.as_str());
        s
    }

    /// The partition a produce key is routed to.
    pub fn get_partition_key(&self, key: &str, partition_count: u32) -> (r: u32)
        requires
            partition_count >= 1,
        ensures
            r == murmur3_of(key@, 31) % partition_count,
    {
        get_partition_key(key, partition_count)
    }

    /// The creation request for these options and this identity: every
    /// retention, storage, replication, dead-letter and partition switch of
    /// the options, carried field for field.
    pub fn create_request(options: &MemphisStationsOptions, username: &String) -> (r:
        CreateStationRequest)
        ensures
            r.name@ == options.station_name@,
            r.retention_type@ == options.retention_type.text(),
            r.retention_value == options.retention_value,
            r.storage_type@ == options.storage_type.text(),
            r.replicas == options.replicas,
            r.idempotency_window_in_ms == options.idempotency_window_ms,
            r.schema_name@ == options.schema_name@,
            r.dls_configuration.poison == options.send_poison_msg_to_dls,
            r.dls_configuration.schemaverse == options.send_schema_failed_msg_to_dls,
            r.username@ == username@,
            r.tiered_storage_enabled == options.tiered_storage_enabled,
            r.partitions_number == options.partition_number,
    {
        CreateStationRequest {
            name: options.station_name.clone(),
            retention_type: options.retention_type.to_string(),
            retention_value: options.retention_value,
            storage_type: options.storage_type.to_string(),
            replicas: options.replicas,
            idempotency_window_in_ms: options.idempotency_window_ms,
            schema_name: options.schema_name.clone(),
            dls_configuration: DlsConfiguration {
                poison: options.send_poison_msg_to_dls,
                schemaverse: options.send_schema_failed_msg_to_dls,
            },
            username: username.clone(),
            tiered_storage_enabled: options.tiered_storage_enabled,
            partitions_number: options.partition_number,
        }
    }

    /// The destruction request for this station.
    pub fn destroy_request(&self) -> (r: DestroyStationRequest)
        ensures
            r.station_name@ == self.options.station_name@,
            r.username@ == self.username@,
    {
        DestroyStationRequest {
            station_name: self.options.station_name.clone(),
            username: self.username.clone(),
        }
    }
}

/// Builds the station's new schema binding from an update: only the `json`
/// kind can be instantiated, and it succeeds exactly when the update's
/// schema text compiles as a schema under Draft 7; the binding keeps the
/// update's schema name, kind and compiled text.
pub fn binding_from_update(
    schema_name: &String,
    schema_type_tag: &str,
    schema_content: &str,
) -> (r: Result<SchemaBinding, SchemaTypeError>)
    ensures
        (schema_type_tag@ != "json"@ && schema_type_tag@ != "graphql"@ && schema_type_tag@
            != "protobuf"@) ==> (r matches Err(SchemaTypeError::InvalidType(t)) && t@
            == schema_type_tag@),
        (schema_type_tag@ == "graphql"@ || schema_type_tag@ == "protobuf"@) ==> (r matches Err(
            SchemaTypeError::InvalidType(t),
        ) && t@ == schema_content@),
        schema_type_tag@ == "json"@ ==> (r is Ok <==> crate::schemaverse::json::draft7_compiles(
            schema_content@,
        )),
        r matches Ok(b) ==> b.schema_name@ == schema_name@ && b.schema_type == SchemaType::Json
            && b.validator.schema_text() == schema_content@,
{
    match SchemaType::from_str(schema_type_tag) {
        Result::Err(e) => Result::Err(e),
        Result::Ok(kind) => match kind.create_validator(schema_content) {
            Result::Err(e) => Result::Err(e),
            Result::Ok(validator) => Result::Ok(
                SchemaBinding {
                    schema_name: schema_name.clone(),
                    schema_type: kind,
                    validator,
                },
            ),
        },
    }
}

} // verus!
