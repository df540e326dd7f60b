use memphis::consumer::consumer_error::ConsumerError;
use memphis::consumer::keep_alive::keep_alive_interval_ms;
use memphis::consumer::memphis_consumer::MemphisConsumer;
use memphis::consumer::memphis_consumer_options::MemphisConsumerOptions;
use memphis::producer::composable_message::lookup_header;
use memphis::station::in_flight::InFlightSet;
use memphis::station::memphis_station::MemphisStation;
use memphis::station::memphis_station_options::MemphisStationsOptions;

fn station(name: &str) -> MemphisStation {
    MemphisStation::new(
        MemphisStationsOptions::new(name),
        "cid-123".to_string(),
        "root".to_string(),
    )
}

fn consumer(station_name: &str, options: MemphisConsumerOptions) -> MemphisConsumer {
    let (mut consumer, _request) = MemphisConsumer::prepare(station(station_name), options).unwrap();
    consumer.apply_create_response("").unwrap();
    consumer
}

#[test]
fn create_consumer() {
    let options = MemphisConsumerOptions::new("no-group");
    let (consumer, request) = MemphisConsumer::prepare(station("logs"), options).unwrap();
    assert_eq!(request.consumer_name.as_str(), "no-group");
    assert_eq!(request.consumer_type.as_str(), "application");
    assert_eq!(request.consumer_group.as_str(), "");
    assert_eq!(request.max_ack_time_ms, 30000);
    assert_eq!(request.max_msg_deliveries, 10);
    assert_eq!(request.start_consume_from_sequence, 1);
    assert_eq!(request.last_messages, -1);
    assert_eq!(request.req_version, 2);
    assert_eq!(consumer.get_internal_name().as_str(), "no-group");

    let options = MemphisConsumerOptions::new("a-name").with_consumer_group("group-name");
    let (grouped, _request) = MemphisConsumer::prepare(station("logs"), options).unwrap();
    assert_eq!(grouped.get_internal_name().as_str(), "group-name");
    assert_eq!(grouped.get_name().as_str(), "a-name");
}

#[test]
fn invalid_start_sequence_sends_nothing() {
    let options = MemphisConsumerOptions::new("c1").with_start_consume_from_sequence(0);
    let err = MemphisConsumer::prepare(station("logs"), options).unwrap_err();
    assert!(matches!(err, ConsumerError::InvalidSequence));

    let options = MemphisConsumerOptions::new("c1").with_start_consume_from_sequence(-3);
    let err = MemphisConsumer::prepare(station("logs"), options).unwrap_err();
    assert!(matches!(err, ConsumerError::InvalidSequence));
}

#[test]
fn create_response_shapes() {
    let options = MemphisConsumerOptions::new("c1");
    let (mut consumer, _request) = MemphisConsumer::prepare(station("logs"), options).unwrap();
    consumer.apply_create_response("").unwrap();
    assert!(consumer.partitions_list.is_none());

    consumer
        .apply_create_response("{\"partitions_update\":{\"partitions_list\":[3,1,2]}}")
        .unwrap();
    assert_eq!(consumer.partitions_list.as_ref().unwrap(), &vec![3, 1, 2]);

    let err = consumer.apply_create_response("not json at all").unwrap_err();
    assert!(matches!(err, ConsumerError::InvalidResponse(t) if t == "not json at all"));

    let err = consumer.apply_create_response("{\"unrelated\":1}").unwrap_err();
    assert!(matches!(err, ConsumerError::InvalidResponse(_)));
}

#[test]
fn dedup_suppresses_second_delivery() {
    let c = consumer("logs", MemphisConsumerOptions::new("c1"));
    let mut set = InFlightSet::new();
    let first = c.on_incoming(
        &mut set,
        "logs.final".to_string(),
        7,
        b"Some message".to_vec(),
        Vec::new(),
    );
    let message = first.unwrap();
    assert_eq!(message.get_data(), &b"Some message".to_vec());
    assert_eq!(message.sequence, 7);

    let second = c.on_incoming(
        &mut set,
        "logs.final".to_string(),
        7,
        b"Some message".to_vec(),
        Vec::new(),
    );
    assert!(second.is_none());

    let other = c.on_incoming(
        &mut set,
        "logs.final".to_string(),
        8,
        b"Some message".to_vec(),
        Vec::new(),
    );
    assert!(other.is_some());

    message.on_terminal(&mut set);
    let redelivered = c.on_incoming(
        &mut set,
        "logs.final".to_string(),
        7,
        b"Some message".to_vec(),
        Vec::new(),
    );
    assert!(redelivered.is_some());
}

#[test]
fn stopped_consumer_forwards_nothing() {
    let mut c = consumer("logs", MemphisConsumerOptions::new("c1"));
    let mut set = InFlightSet::new();
    c.stop();
    assert!(c.cancelled);
    let r = c.on_incoming(&mut set, "logs.final".to_string(), 1, b"x".to_vec(), Vec::new());
    assert!(r.is_none());
    assert_eq!(set.len(), 0);
}

#[test]
fn delivered_message_carries_payload_and_headers() {
    let c = consumer("logs", MemphisConsumerOptions::new("c1"));
    let mut set = InFlightSet::new();
    let headers = vec![("TestHeader".to_string(), "TestValue".to_string())];
    let m = c
        .on_incoming(&mut set, "logs.final".to_string(), 1, b"hello".to_vec(), headers)
        .unwrap();
    assert_eq!(m.get_data_as_string().unwrap().as_str(), "hello");
    assert_eq!(lookup_header(m.get_headers(), "TestHeader").unwrap().as_str(), "TestValue");
    assert_eq!(m.dedup_key().as_str(), "logs.final-1");
}

#[test]
fn ack_fallback_needs_both_poison_headers() {
    let c = consumer("logs", MemphisConsumerOptions::new("c1"));
    let mut set = InFlightSet::new();
    let headers = vec![
        ("$memphis_pm_id".to_string(), "42".to_string()),
        ("$memphis_pm_cg_name".to_string(), "cg".to_string()),
    ];
    let m = c
        .on_incoming(&mut set, "s".to_string(), 1, b"x".to_vec(), headers)
        .unwrap();
    let pm_ack = m.ack_fallback().unwrap();
    assert_eq!(pm_ack.id.as_str(), "42");
    assert_eq!(pm_ack.consumer_group_name.as_str(), "cg");
    assert_eq!(pm_ack.encode().as_str(), "{\"id\":\"42\",\"cg_name\":\"cg\"}");

    let partial = vec![("$memphis_pm_id".to_string(), "42".to_string())];
    let m2 = c.on_incoming(&mut set, "s".to_string(), 2, b"x".to_vec(), partial).unwrap();
    assert!(m2.ack_fallback().is_none());
}

#[test]
fn stream_names_and_dls_subject() {
    let mut c = consumer("my.station", MemphisConsumerOptions::new("c1"));
    assert_eq!(c.dls_subject().as_str(), "$memphis_dls_my#station_c1");
    let names = c.stream_names();
    assert_eq!(names.len(), 1);
    assert_eq!(names[0].as_str(), "my#station");

    c.apply_create_response("{\"partitions_update\":{\"partitions_list\":[1,2]}}").unwrap();
    let names = c.stream_names();
    assert_eq!(names.len(), 2);
    assert_eq!(names[0].as_str(), "my#station$1");
    assert_eq!(names[1].as_str(), "my#station$2");
}

#[test]
fn keep_alive_interval_values() {
    assert_eq!(keep_alive_interval_ms(30000), 27000);
    assert_eq!(keep_alive_interval_ms(5000), 4500);
    assert_eq!(keep_alive_interval_ms(10), 9);
    assert_eq!(keep_alive_interval_ms(14), 12);
    let r = keep_alive_interval_ms(14);
    assert!(10 * r <= 9 * 14);
}

#[test]
fn destroy_request_fields() {
    let c = consumer("logs", MemphisConsumerOptions::new("c1"));
    let r = c.destroy_request();
    assert_eq!(r.consumer_name.as_str(), "c1");
    assert_eq!(r.station_name.as_str(), "logs");
    assert_eq!(r.connection_id.as_str(), "cid-123");
    assert_eq!(r.username.as_str(), "root");
    assert_eq!(r.req_version, 1);
}
