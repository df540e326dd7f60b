use memphis::memphis_constants::{
    MemphisHeaders, MemphisNotificationType, MemphisSpecialStation, MemphisSubscriptions,
};
use memphis::partition_iterator::PartitionIterator;
use memphis::station::in_flight::InFlightSet;
use memphis::station::memphis_station::MemphisStation;
use memphis::station::memphis_station_options::{
    MemphisStationsOptions, RetentionType, StorageType,
};

fn station(name: &str) -> MemphisStation {
    MemphisStation::new(
        MemphisStationsOptions::new(name),
        "cid".to_string(),
        "root".to_string(),
    )
}

#[test]
fn test_station_creation() {
    let options = MemphisStationsOptions::new("logs")
        .with_storage_type(StorageType::Memory)
        .with_retention_type(RetentionType::Messages)
        .with_retention_value(1000)
        .with_replicas(3)
        .with_idempotency_window_ms(500)
        .with_schema_name("sch".to_string())
        .with_send_poison_msg_to_dls(false)
        .with_send_schema_failed_msg_to_dls(false)
        .with_tiered_storage_enabled(true)
        .with_partition_number(4);
    let request = MemphisStation::create_request(&options, &"root".to_string());
    assert_eq!(request.name.as_str(), "logs");
    assert_eq!(request.retention_type.as_str(), "messages");
    assert_eq!(request.retention_value, 1000);
    assert_eq!(request.storage_type.as_str(), "memory");
    assert_eq!(request.replicas, 3);
    assert_eq!(request.idempotency_window_in_ms, 500);
    assert_eq!(request.schema_name.as_str(), "sch");
    assert!(!request.dls_configuration.poison);
    assert!(!request.dls_configuration.schemaverse);
    assert!(request.tiered_storage_enabled);
    assert_eq!(request.partitions_number, 4);
}

#[test]
fn station_naming() {
    let s = station("my.station");
    assert_eq!(s.get_name(), "my.station");
    assert_eq!(s.get_internal_name(None).as_str(), "my#station");
    assert_eq!(s.get_internal_name(Some(3)).as_str(), "my#station$3");
    assert_eq!(s.get_internal_subject_name(None).as_str(), "my#station.final");
    assert_eq!(s.get_internal_subject_name(Some(3)).as_str(), "my#station$3.final");
    assert_eq!(s.schema_updates_subject().as_str(), "$memphis_schema_updates_my#station");
    let destroy = s.destroy_request();
    assert_eq!(destroy.station_name.as_str(), "my.station");
    assert_eq!(destroy.username.as_str(), "root");
}

#[test]
fn partition_key_is_deterministic_and_bounded() {
    let s = station("logs");
    let a = s.get_partition_key("some-key", 7);
    let b = s.get_partition_key("some-key", 7);
    assert_eq!(a, b);
    assert!(a < 7);
    assert!(s.get_partition_key("another", 1) == 0);
}

#[test]
fn partition_iterator_cycles_in_broker_order() {
    let mut it = PartitionIterator::new(vec![5, 6, 7]);
    assert_eq!(it.next(), Some(6));
    assert_eq!(it.next(), Some(7));
    assert_eq!(it.next(), Some(5));
    assert_eq!(it.next(), Some(6));
    assert_eq!(it.len(), 3);
    assert!(it.contains_partition(7));
    assert!(!it.contains_partition(8));
    assert_eq!(it.get_partition_list(), &vec![5, 6, 7]);

    let mut empty = PartitionIterator::new(vec![]);
    assert_eq!(empty.next(), None);
}

#[test]
fn in_flight_set_tracks_keys() {
    let mut set = InFlightSet::new();
    let subject = "s".to_string();
    assert!(!set.contains(&subject, 1));
    assert!(set.probe_insert(&subject, 1));
    assert!(!set.probe_insert(&subject, 1));
    assert!(set.contains(&subject, 1));
    assert!(set.probe_insert(&subject, 2));
    assert_eq!(set.len(), 2);
    set.remove(&subject, 1);
    assert!(!set.contains(&subject, 1));
    assert!(set.contains(&subject, 2));
    assert_eq!(set.len(), 1);
    set.remove(&subject, 99);
    assert_eq!(set.len(), 1);
}

#[test]
fn reserved_subjects_and_headers() {
    assert_eq!(
        MemphisSpecialStation::ProducerCreations.to_string().as_str(),
        "$memphis_producer_creations"
    );
    assert_eq!(
        MemphisSpecialStation::ConsumerDestructions.to_string().as_str(),
        "$memphis_consumer_destructions"
    );
    assert_eq!(
        MemphisSpecialStation::StationCreations.to_string().as_str(),
        "$memphis_station_creations"
    );
    assert_eq!(
        MemphisSpecialStation::MemphisSchemaverseDls.to_string().as_str(),
        "$memphis_schemaverse_dls"
    );
    assert_eq!(MemphisSpecialStation::PmAcks.to_string().as_str(), "$memphis_pm_acks");
    assert_eq!(MemphisHeaders::MessageId.as_str(), "msg-id");
    assert_eq!(MemphisHeaders::MemphisProducedBy.as_str(), "$memphis_producedBy");
    assert_eq!(MemphisHeaders::MemphisConnectionId.as_str(), "$memphis_connectionId");
    assert_eq!(MemphisSubscriptions::DlsPrefix.to_string().as_str(), "$memphis_dls_");
    assert_eq!(
        MemphisSubscriptions::SchemaUpdatesPrefix.to_string().as_str(),
        "$memphis_schema_updates_"
    );
    assert_eq!(
        MemphisNotificationType::SchemaValidationFailAlert.to_string().as_str(),
        "schema_validation_fail_alert"
    );
}

#[test]
fn retention_and_storage_tags() {
    assert_eq!(RetentionType::MessageAgeSec.to_string().as_str(), "message_age_sec");
    assert_eq!(RetentionType::Messages.to_string().as_str(), "messages");
    assert_eq!(RetentionType::Bytes.to_string().as_str(), "bytes");
    assert_eq!(RetentionType::AckBased.to_string().as_str(), "ack_based");
    assert_eq!(StorageType::File.to_string().as_str(), "file");
    assert_eq!(StorageType::Memory.to_string().as_str(), "memory");
}
