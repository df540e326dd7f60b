//! The client's connection identity and the reading of broker replies.
//! Opening the socket itself is I/O and lives with the caller; everything the
//! reply decides is settled here, under contract.

use vstd::prelude::*;
use crate::json_value::{
    is_json_text, parse_json, value_as_string, value_get, value_is_object,
};
use crate::request_error::{request_result_view, RequestError, RequestErrorView};
use crate::text::{bytes_to_utf8, is_blank, is_blank_seq, str_contains, utf8_decoded};

verus! {

/// The per-process identity every request and stamped header carries.
pub struct ClientIdentity {
    pub connection_id: String,
    pub username: String,
}

/// Relies on uuid::Uuid::new_v4 and its hyphenated rendering: 36 characters.
/// Nothing else is promised of a random identifier.
#[verifier::external_body]
fn new_uuid_string() -> (r: String)
    ensures
        r@.len() == 36,
{
    uuid::Uuid::new_v4().to_string()
}

impl ClientIdentity {
    /// Draws a fresh connection id and fixes the username.
    pub fn generate(username: &str) -> (id: ClientIdentity)
        ensures
            id.username@ == username@,
            id.connection_id@.len() == 36,
    {
        ClientIdentity { connection_id: new_uuid_string(), username: username.to_owned() }
    }

    /// The connection name handed to the transport: `<uuid>::<user>`.
    pub fn connection_name(&self) -> (r: String)
        ensures
            r@ == self.connection_id@ + "::"@ + self.username@,
    {
        let mut s = self.connection_id.clone();
        s.append("::");
        s.append(self.username.as_str());
        proof {
            assert(s@ =~= self.connection_id@ + "::"@ + self.username@);
        }
        s
    }
}

/// The username the first connection attempt carries: `<user>$<account>`,
/// with account `1` when none is configured.
pub fn effective_username(username: &str, account_id: &Option<String>) -> (r: String)
    ensures
        r@ == username@ + "$"@ + (match account_id {
            Option::Some(a) => a@,
            Option::None => "1"@,
        }),
{
    let mut s = username.to_owned();
    s.append("$");
    match account_id {
        Option::Some(a) => {
            s.append(a.as_str());
        },
        Option::None => {
            s.append("1");
        },
    }
    proof {
        assert(s@ =~= username@ + "$"@ + (match account_id {
            Option::Some(a) => a@,
            Option::None => "1"@,
        }));
    }
    s
}

/// Whether a failed connection attempt should be retried with the bare
/// username: the broker names an authorization violation.
pub fn should_retry_without_account(error_text: &str) -> (r: bool)
    ensures
        r == crate::text::contains_seq(error_text@, "authorization violation"@),
{
    str_contains(error_text, "authorization violation")
}

/// What probing a reply body found.
pub enum ReplyShape {
    /// Nothing but whitespace.
    Blank,
    /// Not JSON; the parser's report.
    NotJson(String),
    /// JSON, but not an object.
    NotObject,
    /// An object without an `error` member.
    NoErrorField,
    /// An object whose `error` member is not a string.
    ErrorNotString,
    /// The `error` member's text.
    ErrorText(String),
}

/// The mathematical shape of a `ReplyShape`.
pub enum ReplyShapeView {
    Blank,
    NotJson(Seq<char>),
    NotObject,
    NoErrorField,
    ErrorNotString,
    ErrorText(Seq<char>),
}

impl ReplyShape {
    /// The probe outcome as its mathematical shape.
    pub open spec fn view(&self) -> ReplyShapeView {
        match self {
            ReplyShape::Blank => ReplyShapeView::Blank,
            ReplyShape::NotJson(t) => ReplyShapeView::NotJson(t@),
            ReplyShape::NotObject => ReplyShapeView::NotObject,
            ReplyShape::NoErrorField => ReplyShapeView::NoErrorField,
            ReplyShape::ErrorNotString => ReplyShapeView::ErrorNotString,
            ReplyShape::ErrorText(t) => ReplyShapeView::ErrorText(t@),
        }
    }
}

/// Probes a reply body: blank test, JSON parse, object test, `error` member,
/// member text. The probes behind the JSON calls are trusted singly; this
/// composition states what holds of the outcome whatever the parser decided.
pub fn classify_reply(body: &str) -> (r: ReplyShape)
    ensures
        (r is Blank) <==> is_blank_seq(body@),
        !is_blank_seq(body@) ==> ((r is NotJson) <==> !is_json_text(body@)),
{
    if is_blank(body) {
        return ReplyShape::Blank;
    }
    match parse_json(body) {
        Result::Err(e) => ReplyShape::NotJson(e),
        Result::Ok(v) => {
            if !value_is_object(&v) {
                ReplyShape::NotObject
            } else {
                match value_get(&v, "error") {
                    Option::None => ReplyShape::NoErrorField,
                    Option::Some(ev) => {
                        match value_as_string(ev) {
                            Option::None => ReplyShape::ErrorNotString,
                            Option::Some(t) => ReplyShape::ErrorText(t),
                        }
                    },
                }
            }
        },
    }
}

/// How a probed reply is answered: blank replies, objects without an `error`
/// member, and blank error texts mean success; a non-JSON body is a protocol
/// error; a non-string or non-blank error text is the broker's failure.
pub open spec fn reply_outcome(shape: ReplyShapeView) -> Result<(), RequestErrorView> {
    match shape {
        ReplyShapeView::Blank => Result::Ok(()),
        ReplyShapeView::NotJson(t) => Result::Err(RequestErrorView::Serde(t)),
        ReplyShapeView::NotObject => Result::Err(
            RequestErrorView::Memphis("Error parsing json"@),
        ),
        ReplyShapeView::NoErrorField => Result::Ok(()),
        ReplyShapeView::ErrorNotString => Result::Err(
            RequestErrorView::Memphis("Error was not a string"@),
        ),
        ReplyShapeView::ErrorText(t) => if is_blank_seq(t) {
            Result::Ok(())
        } else {
            Result::Err(RequestErrorView::Memphis(t))
        },
    }
}

/// Answers a probed reply exactly as `reply_outcome` says.
pub fn interpret_reply_shape(shape: ReplyShape) -> (r: Result<(), RequestError>)
    ensures
        request_result_view(r) == reply_outcome(shape.view()),
{
    match shape {
        ReplyShape::Blank => Result::Ok(()),
        ReplyShape::NotJson(t) => Result::Err(RequestError::SerdeError(t)),
        ReplyShape::NotObject => Result::Err(
            RequestError::MemphisError("Error parsing json".to_owned()),
        ),
        ReplyShape::NoErrorField => Result::Ok(()),
        ReplyShape::ErrorNotString => Result::Err(
            RequestError::MemphisError("Error was not a string".to_owned()),
        ),
        ReplyShape::ErrorText(t) => {
            if is_blank(t.as_str()) {
                Result::Ok(())
            } else {
                Result::Err(RequestError::MemphisError(t))
            }
        },
    }
}

/// Reads a broker reply: a blank body means success; otherwise the body must
/// be a JSON object, and its `error` member, when present and non-blank, is
/// the failure text.
pub fn interpret_reply(body: &str) -> (r: Result<(), RequestError>)
    ensures
        is_blank_seq(body@) ==> r is Ok,
        !is_blank_seq(body@) && !is_json_text(body@) ==> (match request_result_view(r) {
            Result::Err(RequestErrorView::Serde(_)) => true,
            _ => false,
        }),
{
    let shape = classify_reply(body);
    interpret_reply_shape(shape)
}

/// Reads a broker reply delivered as bytes: bytes that are not UTF-8 are a
/// broker error; the decoded text is read as `interpret_reply` does.
pub fn interpret_reply_bytes(payload: &Vec<u8>) -> (r: Result<(), RequestError>)
    ensures
        utf8_decoded(payload@) is None ==> (match request_result_view(r) {
            Result::Err(RequestErrorView::Memphis(_)) => true,
            _ => false,
        }),
        (match utf8_decoded(payload@) {
            Option::Some(s) => is_blank_seq(s),
            Option::None => false,
        }) ==> r is Ok,
{
    match bytes_to_utf8(payload) {
        Option::None => Result::Err(
            RequestError::MemphisError("reply was not valid utf8".to_owned()),
        ),
        Option::Some(s) => interpret_reply(s.as_str()),
    }
}

} // verus!
