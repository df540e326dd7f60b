use memphis::models::request::{
    CreateConsumerRequest, CreateProducerRequest, CreateStationRequest, DestroyConsumerRequest,
    DestroyProducerRequest, DestroyStationRequest, DlsConfiguration, NotificationRequest, PmAckMsg,
};
use memphis::producer::composable_message::ComposableMessage;
use memphis::producer::dls_message::{DlsMessage, DlsMessageProducer};

#[test]
fn create_producer_request_wire_form() {
    let r = CreateProducerRequest {
        producer_name: "svc".to_string(),
        station_name: "logs".to_string(),
        producer_type: "application".to_string(),
        connection_id: "cid".to_string(),
        req_version: 2,
        username: "root".to_string(),
    };
    assert_eq!(
        r.encode().as_str(),
        "{\"name\":\"svc\",\"station_name\":\"logs\",\"producer_type\":\"application\",\
         \"connection_id\":\"cid\",\"req_version\":2,\"username\":\"root\"}"
    );
}

#[test]
fn destroy_producer_request_wire_form() {
    let r = DestroyProducerRequest {
        producer_name: "svc".to_string(),
        station_name: "logs".to_string(),
        connection_id: "cid".to_string(),
        username: "root".to_string(),
        req_version: 1,
    };
    assert_eq!(
        r.encode().as_str(),
        "{\"name\":\"svc\",\"station_name\":\"logs\",\"connection_id\":\"cid\",\
         \"username\":\"root\",\"req_version\":1}"
    );
}

#[test]
fn create_consumer_request_wire_form() {
    let r = CreateConsumerRequest {
        consumer_name: "c1".to_string(),
        station_name: "logs".to_string(),
        connection_id: "cid".to_string(),
        consumer_type: "application".to_string(),
        consumer_group: "".to_string(),
        max_ack_time_ms: 30000,
        max_msg_deliveries: 10,
        start_consume_from_sequence: 1,
        last_messages: -1,
        req_version: 2,
        username: "root".to_string(),
    };
    assert_eq!(
        r.encode().as_str(),
        "{\"name\":\"c1\",\"station_name\":\"logs\",\"connection_id\":\"cid\",\
         \"consumer_type\":\"application\",\"consumers_group\":\"\",\"max_ack_time_ms\":30000,\
         \"max_msg_deliveries\":10,\"start_consume_from_sequence\":1,\"last_messages\":-1,\
         \"req_version\":2,\"username\":\"root\"}"
    );
}

#[test]
fn destroy_consumer_request_wire_form() {
    let r = DestroyConsumerRequest {
        consumer_name: "c1".to_string(),
        station_name: "logs".to_string(),
        connection_id: "cid".to_string(),
        username: "root".to_string(),
        req_version: 1,
    };
    assert_eq!(
        r.encode().as_str(),
        "{\"name\":\"c1\",\"station_name\":\"logs\",\"connection_id\":\"cid\",\
         \"username\":\"root\",\"req_version\":1}"
    );
}

#[test]
fn create_station_request_wire_form() {
    let r = CreateStationRequest {
        name: "logs".to_string(),
        retention_type: "message_age_sec".to_string(),
        retention_value: 604800,
        storage_type: "memory".to_string(),
        replicas: 1,
        idempotency_window_in_ms: 12000,
        schema_name: "".to_string(),
        dls_configuration: DlsConfiguration { poison: true, schemaverse: true },
        username: "root".to_string(),
        tiered_storage_enabled: false,
        partitions_number: 1,
    };
    assert_eq!(
        r.encode().as_str(),
        "{\"name\":\"logs\",\"retention_type\":\"message_age_sec\",\"retention_value\":604800,\
         \"storage_type\":\"memory\",\"replicas\":1,\"idempotency_window_in_ms\":12000,\
         \"schema_name\":\"\",\"dls_configuration\":{\"poison\":true,\"Schemaverse\":true},\
         \"username\":\"root\",\"tiered_storage_enabled\":false,\"partitions_number\":1}"
    );
}

#[test]
fn destroy_station_request_wire_form() {
    let r = DestroyStationRequest { station_name: "logs".to_string(), username: "root".to_string() };
    assert_eq!(r.encode().as_str(), "{\"station_name\":\"logs\",\"username\":\"root\"}");
}

#[test]
fn notification_request_wire_form() {
    let r = NotificationRequest {
        title: "Schema validation has failed ".to_string(),
        msg: "Station s\nProducer: p\nError: e".to_string(),
        msg_type: "schema_validation_fail_alert".to_string(),
        code: "{}".to_string(),
    };
    assert_eq!(
        r.encode().as_str(),
        "{\"title\":\"Schema validation has failed \",\
         \"msg\":\"Station s\\nProducer: p\\nError: e\",\
         \"type\":\"schema_validation_fail_alert\",\"code\":\"{}\"}"
    );
}

#[test]
fn pm_ack_wire_form() {
    let r = PmAckMsg { id: "42".to_string(), consumer_group_name: "cg".to_string() };
    assert_eq!(r.encode().as_str(), "{\"id\":\"42\",\"cg_name\":\"cg\"}");
}

#[test]
fn dls_message_wire_form() {
    let message = ComposableMessage::new()
        .with_header("H", "V")
        .with_payload(vec![0x01, 0xab])
        .with_msg_id("m1");
    let r = DlsMessage {
        station_name: "logs".to_string(),
        producer: DlsMessageProducer {
            name: "svc".to_string(),
            connection_id: "cid".to_string(),
        },
        message,
        validation_error: "bad".to_string(),
    };
    assert_eq!(
        r.encode().as_str(),
        "{\"station_name\":\"logs\",\"producer\":{\"name\":\"svc\",\"connection_id\":\"cid\"},\
         \"message\":{\"headers\":{\"H\":\"V\"},\"payload\":\"01ab\",\"msg_id\":\"m1\"},\
         \"validation_error\":\"bad\"}"
    );
}

#[test]
fn dls_message_without_id_writes_null() {
    let message = ComposableMessage::new().with_payload(vec![0x00]);
    let r = DlsMessage {
        station_name: "s".to_string(),
        producer: DlsMessageProducer { name: "p".to_string(), connection_id: "c".to_string() },
        message,
        validation_error: "e".to_string(),
    };
    assert_eq!(
        r.encode().as_str(),
        "{\"station_name\":\"s\",\"producer\":{\"name\":\"p\",\"connection_id\":\"c\"},\
         \"message\":{\"headers\":{},\"payload\":\"00\",\"msg_id\":null},\
         \"validation_error\":\"e\"}"
    );
}

#[test]
fn station_create_is_repeatable() {
    let mk = || CreateStationRequest {
        name: "logs".to_string(),
        retention_type: "message_age_sec".to_string(),
        retention_value: 604800,
        storage_type: "file".to_string(),
        replicas: 1,
        idempotency_window_in_ms: 12000,
        schema_name: "".to_string(),
        dls_configuration: DlsConfiguration { poison: true, schemaverse: true },
        username: "root".to_string(),
        tiered_storage_enabled: false,
        partitions_number: 1,
    };
    let first = mk().encode();
    let second = mk().encode();
    assert_eq!(first, second);
    assert!(memphis::memphis_client::interpret_reply("").is_ok());
    assert!(memphis::memphis_client::interpret_reply("").is_ok());
}
