//! What a schema validator answers and how its failures are surfaced.

use vstd::prelude::*;

verus! {

/// A marker for the structured validation detail a validator may carry.
pub trait ErrorData {

}

/// Why a payload was not accepted.
#[derive(Debug)]
pub enum SchemaValidationError {
    /// The payload does not conform; the validator's report.
    SchemaInvalid(String),
    /// A control-plane request made on the validation path failed.
    RequestError(String),
}

impl SchemaValidationError {
    /// The failure as text, as quoted into notifications and dead-letter
    /// requests.
    pub fn detail(&self) -> (r: String)
        ensures
            r@ == self.detail_text(),
    {
        match self {
            SchemaValidationError::SchemaInvalid(t) => crate::text::concat2(
                "Schema invalid: ",
                t.as_str(),
            ),
            SchemaValidationError::RequestError(t) => crate::text::concat2(
                "Request error: ",
                t.as_str(),
            ),
        }
    }

    /// The exact failure text.
    pub open spec fn detail_text(&self) -> Seq<char> {
        match self {
            SchemaValidationError::SchemaInvalid(t) => "Schema invalid: "@ + t@,
            SchemaValidationError::RequestError(t) => "Request error: "@ + t@,
        }
    }
}

} // verus!
