use memphis::memphis_util::{get_internal_name, get_unique_key, sanitize_name};
use memphis::models::response::{probe_create_response, producer_partitions, consumer_partitions};
use memphis::models::schemaverse_schema_update::SchemaUpdateResponse;
use memphis::schemaverse::json::JsonSchemaValidator;
use memphis::schemaverse::schema_type::{SchemaType, SchemaTypeError};
use memphis::station::memphis_station::binding_from_update;

#[test]
fn internal_name_replaces_dots() {
    assert_eq!(get_internal_name("a.b.c").as_str(), "a#b#c");
    assert_eq!(get_internal_name("plain").as_str(), "plain");
    assert_eq!(get_internal_name("").as_str(), "");
}

#[test]
fn unique_key_is_hex_of_requested_size() {
    let k = get_unique_key(8);
    assert_eq!(k.len(), 8);
    assert!(k.chars().all(|c| c.is_ascii_hexdigit() && !c.is_ascii_uppercase()));
    assert_eq!(get_unique_key(0).len(), 0);
    assert_eq!(get_unique_key(-5).len(), 0);
}

#[test]
fn sanitize_lowercases_and_suffixes() {
    let mut name = "MyProducer".to_string();
    sanitize_name(&mut name, false);
    assert_eq!(name.as_str(), "myproducer");

    let mut name = "MyProducer".to_string();
    sanitize_name(&mut name, true);
    assert_eq!(name.len(), "myproducer".len() + 9);
    assert!(name.starts_with("myproducer_"));
}

#[test]
fn schema_type_tags() {
    assert!(matches!(SchemaType::from_str("json"), Ok(SchemaType::Json)));
    assert!(matches!(SchemaType::from_str("graphql"), Ok(SchemaType::GraphQL)));
    assert!(matches!(SchemaType::from_str("protobuf"), Ok(SchemaType::Protobuf)));
    assert!(
        matches!(SchemaType::from_str("avro"), Err(SchemaTypeError::InvalidType(t)) if t == "avro")
    );
    assert_eq!(SchemaType::Json.to_string().as_str(), "json");
    assert_eq!(SchemaType::GraphQL.to_string().as_str(), "graphql");
    assert_eq!(SchemaType::Protobuf.to_string().as_str(), "protobuf");
}

#[test]
fn only_json_validators_can_be_built() {
    assert!(SchemaType::Json.create_validator("{\"type\":\"object\"}").is_ok());
    assert!(matches!(
        SchemaType::GraphQL.create_validator("type Query { x: Int }"),
        Err(SchemaTypeError::InvalidType(_))
    ));
    assert!(matches!(
        SchemaType::Protobuf.create_validator("message M {}"),
        Err(SchemaTypeError::InvalidType(_))
    ));
}

#[test]
fn json_validator_judges_payloads() {
    let v = JsonSchemaValidator::from_str("{\"type\":\"object\",\"required\":[\"x\"]}").unwrap();
    assert!(v.validate(&b"{\"x\":1}".to_vec()).is_ok());
    assert!(v.validate(&b"{\"y\":1}".to_vec()).is_err());
    assert!(v.validate(&b"not json".to_vec()).is_err());
    assert!(JsonSchemaValidator::from_str("not a schema").is_err());
    assert!(JsonSchemaValidator::from_bytes(&b"{\"type\":\"object\"}".to_vec()).is_ok());
}

#[test]
fn schema_update_parsing() {
    let body = "{\"UpdateType\":1,\"init\":{\"schema_name\":\"sch\",\
                \"active_version\":{\"version_number\":2,\"descriptor\":\"d\",\
                \"schema_content\":\"{\\\"type\\\":\\\"object\\\"}\",\
                \"message_struct_name\":\"m\"},\"type\":\"json\"}}";
    let update = SchemaUpdateResponse::parse(body).unwrap();
    assert_eq!(update.update_type, 1);
    assert_eq!(update.init.schema_name.as_str(), "sch");
    assert_eq!(update.init.schema_type.as_str(), "json");
    assert_eq!(update.init.active_version.version_number, 2);
    assert_eq!(update.init.active_version.schema_content.as_str(), "{\"type\":\"object\"}");

    assert!(SchemaUpdateResponse::parse("not json").is_none());
    assert!(SchemaUpdateResponse::parse("{\"UpdateType\":1}").is_none());
}

#[test]
fn binding_built_from_update() {
    let binding = binding_from_update(
        &"sch".to_string(),
        "json",
        "{\"type\":\"object\",\"required\":[\"x\"]}",
    )
    .unwrap();
    assert_eq!(binding.schema_name.as_str(), "sch");
    assert!(matches!(binding.schema_type, SchemaType::Json));
    assert!(binding.validator.validate(&b"{\"x\":1}".to_vec()).is_ok());
    assert!(binding.validator.validate(&b"{}".to_vec()).is_err());

    assert!(matches!(
        binding_from_update(&"sch".to_string(), "avro", "{}"),
        Err(SchemaTypeError::InvalidType(t)) if t == "avro"
    ));
    assert!(binding_from_update(&"sch".to_string(), "json", "not json").is_err());
}

#[test]
fn create_response_probing() {
    let shape = probe_create_response("");
    assert!(producer_partitions(shape, "").unwrap().is_none());
    let shape = probe_create_response("");
    assert!(consumer_partitions(shape, "").unwrap().is_none());

    let body = "{\"partitions_update\":{\"partitions_list\":[0,1,2]}}";
    let shape = probe_create_response(body);
    assert_eq!(producer_partitions(shape, body).unwrap().unwrap(), vec![0, 1, 2]);

    let body = "{\"schema_update\":{}}";
    let shape = probe_create_response(body);
    assert!(producer_partitions(shape, body).unwrap().is_none());
    let shape = probe_create_response(body);
    assert!(consumer_partitions(shape, body).is_err());

    let body = "plainly broken";
    let shape = probe_create_response(body);
    assert!(producer_partitions(shape, body).is_err());

    let body = "{\"partitions_update\":{\"partitions_list\":[\"x\"]}}";
    let shape = probe_create_response(body);
    assert!(consumer_partitions(shape, body).is_err());
}
