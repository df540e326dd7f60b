//! How a station is configured: retention, storage, replication,
//! idempotency, dead-letter switches and partition count.

use vstd::prelude::*;

verus! {

/// How long the broker keeps messages, and measured in what.
#[derive(Clone, Copy, Debug, PartialEq, Eq, Structural)]
pub enum RetentionType {
    MessageAgeSec,
    Messages,
    Bytes,
    AckBased,
}

impl RetentionType {
    /// The exact wire tag.
    pub open spec fn text(self) -> Seq<char> {
        match self {
            RetentionType::MessageAgeSec => "message_age_sec"@,
            RetentionType::Messages => "messages"@,
            RetentionType::Bytes => "bytes"@,
            RetentionType::AckBased => "ack_based"@,
        }
    }

    /// The wire tag as a string.
    pub fn to_string(&self) -> (r: String)
        ensures
            r@ == self.text(),
    {
        let s: &str = match self {
            RetentionType::MessageAgeSec => "message_age_sec",
            RetentionType::Messages => "messages",
            RetentionType::Bytes => "bytes",
            RetentionType::AckBased => "ack_based",
        };
        s.to_owned()
    }
}

/// Where the broker stores the station's messages.
#[derive(Clone, Copy, Debug, PartialEq, Eq, Structural)]
pub enum StorageType {
    File,
    Memory,
}

impl StorageType {
    /// The exact wire tag.
    pub open spec fn text(self) -> Seq<char> {
        match self {
            StorageType::File => "file"@,
            StorageType::Memory => "memory"@,
        }
    }

    /// The wire tag as a string.
    pub fn to_string(&self) -> (r: String)
        ensures
            r@ == self.text(),
    {
        let s: &str = match self {
            StorageType::File => "file",
            StorageType::Memory => "memory",
        };
        s.to_owned()
    }
}

/// Everything a station is created with.
#[derive(Debug)]
pub struct MemphisStationsOptions {
    pub station_name: String,
    pub retention_type: RetentionType,
    pub retention_value: u32,
    pub storage_type: StorageType,
    pub replicas: u32,
    pub idempotency_window_ms: u32,
    pub schema_name: String,
    pub send_poison_msg_to_dls: bool,
    pub send_schema_failed_msg_to_dls: bool,
    pub tiered_storage_enabled: bool,
    pub partition_number: u32,
}

impl MemphisStationsOptions {
    /// The defaults every builder starts from: age-based retention of one
    /// week, file storage, one replica, a 12 s idempotency window, both
    /// dead-letter switches on, one partition.
    pub fn new(station_name: &str) -> (o: Self)
        ensures
            o.station_name@ == station_name@,
            o.retention_type == RetentionType::MessageAgeSec,
            o.retention_value == 604800u32,
            o.storage_type == StorageType::File,
            o.replicas == 1u32,
            o.idempotency_window_ms == 12000u32,
            o.schema_name@.len() == 0,
            o.send_poison_msg_to_dls,
            o.send_schema_failed_msg_to_dls,
            !o.tiered_storage_enabled,
            o.partition_number == 1u32,
    {
        MemphisStationsOptions {
            station_name: station_name.to_owned(),
            retention_type: RetentionType::MessageAgeSec,
            retention_value: 604800,
            storage_type: StorageType::File,
            replicas: 1,
            idempotency_window_ms: 12000,
            schema_name: String::new(),
            send_poison_msg_to_dls: true,
            send_schema_failed_msg_to_dls: true,
            tiered_storage_enabled: false,
            partition_number: 1,
        }
    }

    pub fn with_retention_type(self, retention_type: RetentionType) -> (o: Self)
        ensures
            o == (Self { retention_type, ..self }),
    {
        Self { retention_type, ..self }
    }

    pub fn with_retention_value(self, retention_value: u32) -> (o: Self)
        ensures
            o == (Self { retention_value, ..self }),
    {
        Self { retention_value, ..self }
    }

    pub fn with_storage_type(self, storage_type: StorageType) -> (o: Self)
        ensures
            o == (Self { storage_type, ..self }),
    {
        Self { storage_type, ..self }
    }

    pub fn with_replicas(self, replicas: u32) -> (o: Self)
        ensures
            o == (Self { replicas, ..self }),
    {
        Self { replicas, ..self }
    }

    pub fn with_idempotency_window_ms(self, idempotency_window_ms: u32) -> (o: Self)
        ensures
            o == (Self { idempotency_window_ms, ..self }),
    {
        Self { idempotency_window_ms, ..self }
    }

    pub fn with_schema_name(self, schema_name: String) -> (o: Self)
        ensures
            o == (Self { schema_name, ..self }),
    {
        Self { schema_name, ..self }
    }

    pub fn with_send_poison_msg_to_dls(self, send_poison_msg_to_dls: bool) -> (o: Self)
        ensures
            o == (Self { send_poison_msg_to_dls, ..self }),
    {
        Self { send_poison_msg_to_dls, ..self }
    }

    pub fn with_send_schema_failed_msg_to_dls(self, send_schema_failed_msg_to_dls: bool) -> (o:
        Self)
        ensures
            o == (Self { send_schema_failed_msg_to_dls, ..self }),
    {
        Self { send_schema_failed_msg_to_dls, ..self }
    }

    pub fn with_tiered_storage_enabled(self, tiered_storage_enabled: bool) -> (o: Self)
        ensures
            o == (Self { tiered_storage_enabled, ..self }),
    {
        Self { tiered_storage_enabled, ..self }
    }

    pub fn with_partition_number(self, partition_number: u32) -> (o: Self)
        ensures
            o == (Self { partition_number, ..self }),
    {
        Self { partition_number, ..self }
    }
}

} // verus!
