use memphis::memphis_client::{
    classify_reply, effective_username, interpret_reply, interpret_reply_bytes,
    interpret_reply_shape, should_retry_without_account, ClientIdentity, ReplyShape,
};
use memphis::request_error::RequestError;

#[test]
fn identity_and_connection_name() {
    let id = ClientIdentity::generate("root");
    assert_eq!(id.username.as_str(), "root");
    assert_eq!(id.connection_id.len(), 36);
    let name = id.connection_name();
    assert!(name.ends_with("::root"));
    assert_eq!(name.len(), 36 + 2 + 4);

    let other = ClientIdentity::generate("root");
    assert_ne!(id.connection_id, other.connection_id);
}

#[test]
fn effective_username_appends_account() {
    assert_eq!(effective_username("root", &None).as_str(), "root$1");
    assert_eq!(effective_username("root", &Some("77".to_string())).as_str(), "root$77");
}

#[test]
fn retry_decision_reads_the_error_text() {
    assert!(should_retry_without_account("nats: authorization violation"));
    assert!(!should_retry_without_account("connection refused"));
}

#[test]
fn reply_interpretation() {
    assert!(interpret_reply("").is_ok());
    assert!(interpret_reply("  \t\n").is_ok());
    assert!(interpret_reply("{\"error\":\"\"}").is_ok());
    assert!(interpret_reply("{\"error\":\"  \"}").is_ok());
    assert!(interpret_reply("{\"other\":1}").is_ok());

    match interpret_reply("{\"error\":\"station not found\"}").unwrap_err() {
        RequestError::MemphisError(t) => assert_eq!(t.as_str(), "station not found"),
        other => panic!("unexpected error: {other:?}"),
    }
    match interpret_reply("[1,2,3]").unwrap_err() {
        RequestError::MemphisError(t) => assert_eq!(t.as_str(), "Error parsing json"),
        other => panic!("unexpected error: {other:?}"),
    }
    match interpret_reply("{\"error\":5}").unwrap_err() {
        RequestError::MemphisError(t) => assert_eq!(t.as_str(), "Error was not a string"),
        other => panic!("unexpected error: {other:?}"),
    }
    assert!(matches!(
        interpret_reply("definitely not json").unwrap_err(),
        RequestError::SerdeError(_)
    ));
}

#[test]
fn reply_shapes() {
    assert!(matches!(classify_reply(""), ReplyShape::Blank));
    assert!(matches!(classify_reply("nope"), ReplyShape::NotJson(_)));
    assert!(matches!(classify_reply("[1]"), ReplyShape::NotObject));
    assert!(matches!(classify_reply("{\"a\":1}"), ReplyShape::NoErrorField));
    assert!(matches!(classify_reply("{\"error\":[]}"), ReplyShape::ErrorNotString));
    assert!(matches!(classify_reply("{\"error\":\"x\"}"), ReplyShape::ErrorText(t) if t == "x"));

    assert!(interpret_reply_shape(ReplyShape::Blank).is_ok());
    assert!(interpret_reply_shape(ReplyShape::ErrorText("boom".to_string())).is_err());
}

#[test]
fn reply_bytes_must_be_utf8() {
    assert!(interpret_reply_bytes(&b"".to_vec()).is_ok());
    assert!(matches!(
        interpret_reply_bytes(&vec![0xff, 0xfe]).unwrap_err(),
        RequestError::MemphisError(_)
    ));
}

#[test]
fn error_messages() {
    assert_eq!(
        RequestError::MemphisError("x".to_string()).message().as_str(),
        "MemphisError: x"
    );
    assert_eq!(
        RequestError::NotConnected.message().as_str(),
        "Tried to send request whilst not connected"
    );
}
