use memphis::producer::composable_message::{lookup_header, ComposableMessage};
use memphis::producer::memphis_producer::MemphisProducer;
use memphis::producer::memphis_producer_options::MemphisProducerOptions;
use memphis::producer::producer_error::ProducerError;
use memphis::schemaverse::json::JsonSchemaValidator;
use memphis::station::memphis_station::MemphisStation;
use memphis::station::memphis_station_options::MemphisStationsOptions;

fn station(name: &str, dls: bool) -> MemphisStation {
    let options = MemphisStationsOptions::new(name).with_send_schema_failed_msg_to_dls(dls);
    MemphisStation::new(options, "cid-123".to_string(), "root".to_string())
}

fn producer(station_name: &str, partitions: Option<Vec<u32>>) -> MemphisProducer {
    let options = MemphisProducerOptions::new("svc").with_generate_unique_suffix(false);
    let (mut producer, request) = MemphisProducer::prepare(station(station_name, true), options);
    assert_eq!(request.producer_name.as_str(), "svc");
    assert_eq!(request.producer_type.as_str(), "application");
    assert_eq!(request.req_version, 2);
    let body = match partitions {
        None => String::new(),
        Some(list) => {
            let mut body = String::from("{\"partitions_update\":{\"partitions_list\":[");
            for (i, p) in list.iter().enumerate() {
                if i > 0 {
                    body.push(',');
                }
                body.push_str(&p.to_string());
            }
            body.push_str("]}}");
            body
        },
    };
    producer.apply_create_response(&body).unwrap();
    producer
}

#[test]
fn create_producer() {
    let p = producer("logs", None);
    assert_eq!(p.get_name().as_str(), "svc");
    let destroy = p.destroy_request();
    assert_eq!(destroy.producer_name.as_str(), "svc");
    assert_eq!(destroy.station_name.as_str(), "logs");
    assert_eq!(destroy.req_version, 1);
}

#[test]
fn producer_name_gets_unique_suffix() {
    let options = MemphisProducerOptions::new("SVC");
    let (p, _request) = MemphisProducer::prepare(station("logs", true), options);
    let name = p.get_name();
    assert_eq!(name.len(), "svc".len() + 9);
    assert!(name.starts_with("svc_"));
    assert!(name[4..].chars().all(|c| c.is_ascii_hexdigit() && !c.is_ascii_uppercase()));
}

#[test]
fn produce_round_trip_headers() {
    let mut p = producer("logs", None);
    let message = ComposableMessage::new()
        .with_header("TestHeader", "TestValue")
        .with_payload(b"hello".to_vec());
    let plan = p.produce(message, None).unwrap();
    assert_eq!(plan.subject.as_str(), "logs.final");
    assert_eq!(plan.payload, b"hello".to_vec());
    assert_eq!(
        lookup_header(&plan.headers, "$memphis_producedBy").unwrap().as_str(),
        "svc"
    );
    assert_eq!(
        lookup_header(&plan.headers, "$memphis_connectionId").unwrap().as_str(),
        "cid-123"
    );
    assert_eq!(lookup_header(&plan.headers, "TestHeader").unwrap().as_str(), "TestValue");
    assert!(lookup_header(&plan.headers, "msg-id").is_none());
}

#[test]
fn produce_stamps_msg_id() {
    let mut p = producer("logs", None);
    let message = ComposableMessage::new().with_payload(b"x".to_vec()).with_msg_id("id-1");
    let plan = p.produce(message, None).unwrap();
    assert_eq!(lookup_header(&plan.headers, "msg-id").unwrap().as_str(), "id-1");
}

#[test]
fn producer_create_response_must_be_readable() {
    let options = MemphisProducerOptions::new("svc").with_generate_unique_suffix(false);
    let (mut p, _request) = MemphisProducer::prepare(station("logs", true), options);
    assert!(p.apply_create_response("broken body").is_err());
    assert!(p.partitions_iterator.is_none());
    assert!(p.apply_create_response("{\"schema_update\":{}}").unwrap().is_none());
    assert!(p.partitions_iterator.is_none());
    let applied = p
        .apply_create_response("{\"partitions_update\":{\"partitions_list\":[4,5]}}")
        .unwrap();
    assert_eq!(applied.unwrap(), vec![4, 5]);
    assert_eq!(p.partitions_iterator.as_ref().unwrap().get_partition_list(), &vec![4, 5]);
}

#[test]
fn produce_empty_payload_is_refused() {
    let mut p = producer("logs", None);
    let failure = p.produce(ComposableMessage::new(), None).unwrap_err();
    assert!(matches!(failure.error, ProducerError::PayloadEmpty));
    assert!(failure.notification.is_none());
    assert!(failure.dls_message.is_none());
}

#[test]
fn empty_payload_leaves_the_cursor() {
    let mut p = producer("logs10", Some(vec![0, 1, 2]));
    let failure = p.produce(ComposableMessage::new(), None).unwrap_err();
    assert!(matches!(failure.error, ProducerError::PayloadEmpty));
    let plan = p.produce(ComposableMessage::new().with_payload(b"x".to_vec()), None).unwrap();
    assert_eq!(plan.subject.as_str(), "logs10$1.final");
}

#[test]
fn round_robin_is_fair() {
    let mut p = producer("logs10", Some((0..10).collect()));
    let mut counts = [0u32; 10];
    let mut order: Vec<u32> = Vec::new();
    for i in 0..20 {
        let message = ComposableMessage::new().with_payload(format!("message {i}").into_bytes());
        let plan = p.produce(message, None).unwrap();
        let subject = plan.subject;
        let partition: u32 = subject
            .strip_prefix("logs10$")
            .and_then(|s| s.strip_suffix(".final"))
            .unwrap()
            .parse()
            .unwrap();
        counts[partition as usize] += 1;
        order.push(partition);
    }
    assert!(counts.iter().all(|&c| c == 2));
    for w in 0..19 {
        assert_eq!(order[w + 1], (order[w] + 1) % 10);
    }
}

#[test]
fn produce_to_partition_checks_the_list() {
    let p = producer("logs10", Some(vec![0, 1, 2]));
    let msg = || ComposableMessage::new().with_payload(b"x".to_vec());
    let failure = p.produce_to_partition(None, msg(), None).unwrap_err();
    assert!(matches!(failure.error, ProducerError::PartitionRequired));
    let failure = p.produce_to_partition(Some(7), msg(), None).unwrap_err();
    assert!(matches!(failure.error, ProducerError::PartitionNotValid(7)));
    let plan = p.produce_to_partition(Some(2), msg(), None).unwrap();
    assert_eq!(plan.subject.as_str(), "logs10$2.final");
}

#[test]
fn produce_with_empty_partition_list_is_unavailable() {
    let mut p = producer("logs", Some(vec![]));
    let failure = p.produce(ComposableMessage::new().with_payload(b"x".to_vec()), None).unwrap_err();
    assert!(matches!(failure.error, ProducerError::PartitionUnavailable));
}

#[test]
fn validation_gate_blocks_and_reports() {
    let validator =
        JsonSchemaValidator::from_str("{\"type\":\"object\",\"required\":[\"x\"]}").unwrap();
    let mut p = producer("s", None);

    let good = ComposableMessage::new().with_payload(b"{\"x\":1}".to_vec());
    assert!(p.produce(good, Some(&validator)).is_ok());

    let bad = ComposableMessage::new().with_payload(b"{\"y\":1}".to_vec());
    let failure = p.produce(bad, Some(&validator)).unwrap_err();
    assert!(matches!(failure.error, ProducerError::SchemaValidationError(_)));
    let notification = failure.notification.unwrap();
    assert_eq!(notification.msg_type.as_str(), "schema_validation_fail_alert");
    assert!(notification.msg.starts_with("Station s\nProducer: svc\nError: "));
    assert_eq!(notification.code.as_str(), "{\"y\":1}");
    let dls = failure.dls_message.unwrap();
    assert_eq!(dls.station_name.as_str(), "s");
    assert_eq!(dls.producer.name.as_str(), "svc");
    assert!(!dls.validation_error.is_empty());
}

#[test]
fn validation_gate_without_dls_routing() {
    let validator =
        JsonSchemaValidator::from_str("{\"type\":\"object\",\"required\":[\"x\"]}").unwrap();
    let options = MemphisProducerOptions::new("svc").with_generate_unique_suffix(false);
    let (mut p, _request) = MemphisProducer::prepare(station("s", false), options);
    let bad = ComposableMessage::new().with_payload(b"{\"y\":1}".to_vec());
    let failure = p.produce(bad, Some(&validator)).unwrap_err();
    assert!(failure.notification.is_some());
    assert!(failure.dls_message.is_none());
}

#[test]
fn non_json_payload_fails_validation() {
    let validator = JsonSchemaValidator::from_str("{\"type\":\"object\"}").unwrap();
    let mut p = producer("s", None);
    let bad = ComposableMessage::new().with_payload(vec![0xff, 0x00]);
    let failure = p.produce(bad, Some(&validator)).unwrap_err();
    assert!(matches!(failure.error, ProducerError::SchemaValidationError(_)));
    let notification = failure.notification.unwrap();
    assert_eq!(notification.code.as_str(), "no valid utf8 supplied");
}
