//! The JSON schema validator. The jsonschema crate's verdict under JSON
//! Schema Draft 7 is a pure function of the schema text and the payload
//! bytes (external references are not resolved, so nothing outside the
//! arguments can speak), and it is named here so that the produce gate's
//! contracts can force it. The validator's fields are private and every
//! value is built by the one trusted constructor, so a compiled schema
//! always travels with its exact source text.

use vstd::prelude::*;
use crate::json_value::{is_json_bytes, is_json_text};
use crate::schemaverse::schema::{ErrorData, SchemaValidationError};
use crate::text::bytes_to_utf8;

verus! {

#[verifier::external_type_specification]
#[verifier::external_body]
pub struct ExJsonSchema(jsonschema::JSONSchema);

/// Whether the text parses and compiles as a JSON schema under Draft 7:
/// what jsonschema's compiler accepts.
pub uninterp spec fn draft7_compiles(schema: Seq<char>) -> bool;

/// The validation verdict under Draft 7: whether the payload bytes parse
/// as JSON and conform under the schema that the given text compiles to.
pub uninterp spec fn draft7_accepts(schema: Seq<char>, instance: Seq<u8>) -> bool;

/// Why building or running the JSON validator failed.
#[derive(Debug)]
pub enum JsonSchemaError {
    /// The schema text did not compile; the compiler's report.
    SchemaFileError(String),
    /// The schema or payload was not JSON; the parser's report.
    SerdeError(String),
    /// The payload does not conform; the first failure's report.
    ValidationError(String),
    /// The validator reported failure without detail.
    UnknownError,
}

impl ErrorData for JsonSchemaError {

}

impl JsonSchemaError {
    /// The failure as text.
    pub fn detail(&self) -> (r: String)
        ensures
            r@ == self.detail_text(),
    {
        match self {
            JsonSchemaError::SchemaFileError(t) => crate::text::concat2(
                "Error while parsing schema: ",
                t.as_str(),
            ),
            JsonSchemaError::SerdeError(t) => crate::text::concat2("Serde Error: ", t.as_str()),
            JsonSchemaError::ValidationError(t) => crate::text::concat2(
                "Error while validating message: ",
                t.as_str(),
            ),
            JsonSchemaError::UnknownError => crate::text::concat2("Unknown Error", ""),
        }
    }

    /// The exact failure text.
    pub open spec fn detail_text(&self) -> Seq<char> {
        match self {
            JsonSchemaError::SchemaFileError(t) => "Error while parsing schema: "@ + t@,
            JsonSchemaError::SerdeError(t) => "Serde Error: "@ + t@,
            JsonSchemaError::ValidationError(t) => "Error while validating message: "@ + t@,
            JsonSchemaError::UnknownError => "Unknown Error"@ + ""@,
        }
    }

    /// The failure folded into the validator-independent error.
    pub fn into_validation_error(self) -> (r: SchemaValidationError)
        ensures
            r is SchemaInvalid,
    {
        SchemaValidationError::SchemaInvalid(self.detail())
    }
}

/// A compiled JSON schema (Draft 7), kept together with its source text.
pub struct JsonSchemaValidator {
    schema: jsonschema::JSONSchema,
    text: String,
}

impl JsonSchemaValidator {
    /// The schema text this validator compiles.
    pub closed spec fn schema_text(&self) -> Seq<char> {
        self.text@
    }

    /// Relies on serde_json::from_str and jsonschema's compiler, pinned to
    /// Draft 7: compilation succeeds exactly on text they accept, which is
    /// decided by the text alone; the compiled schema is stored with that
    /// text. A parse failure and a compile failure carry their own reports.
    #[verifier::external_body]
    fn compile_text(text: &str) -> (r: Result<JsonSchemaValidator, JsonSchemaError>)
        ensures
            r is Ok <==> draft7_compiles(text@),
            r is Ok ==> is_json_text(text@),
            match r {
                Result::Ok(v) => v.schema_text() == text@,
                Result::Err(e) => e is SerdeError || e is SchemaFileError,
            },
    {
        let value: serde_json::Value = match serde_json::from_str(text) {
            Ok(v) => v,
            Err(e) => return Err(JsonSchemaError::SerdeError(e.to_string())),
        };
        match jsonschema::JSONSchema::options().with_draft(jsonschema::Draft::Draft7).compile(
            &value,
        ) {
            Ok(schema) => Ok(JsonSchemaValidator { schema, text: text.to_string() }),
            Err(e) => Err(JsonSchemaError::SchemaFileError(e.to_string())),
        }
    }

    /// Relies on serde_json::from_slice and jsonschema::JSONSchema::validate:
    /// the verdict is decided by the stored schema text and the payload
    /// bytes alone, and bytes that are not JSON are never accepted. A parse
    /// failure and the first conformance failure carry their own reports.
    #[verifier::external_body]
    fn judge(&self, message: &[u8]) -> (r: Result<(), JsonSchemaError>)
        ensures
            r is Ok <==> draft7_accepts(self.schema_text(), message@),
            r is Ok ==> is_json_bytes(message@),
            match r {
                Result::Ok(u) => true,
                Result::Err(e) => e is SerdeError || e is ValidationError || e is UnknownError,
            },
    {
        let instance: serde_json::Value = match serde_json::from_slice(message) {
            Ok(v) => v,
            Err(e) => return Err(JsonSchemaError::SerdeError(e.to_string())),
        };
        let verdict = match self.schema.validate(&instance) {
            Ok(()) => Ok(()),
            Err(mut errors) => match errors.next() {
                Some(e) => Err(JsonSchemaError::ValidationError(e.to_string())),
                None => Err(JsonSchemaError::UnknownError),
            },
        };
        verdict
    }

    /// Compiles a schema from its text: succeeds exactly when the text is a
    /// schema document under Draft 7.
    pub fn new(value: &str) -> (r: Result<JsonSchemaValidator, JsonSchemaError>)
        ensures
            r is Ok <==> draft7_compiles(value@),
            match r {
                Result::Ok(v) => v.schema_text() == value@,
                Result::Err(e) => e is SerdeError || e is SchemaFileError,
            },
    {
        Self::compile_text(value)
    }

    /// Parses and compiles a schema from text; text that is not JSON is
    /// refused as a parse error.
    pub fn from_str(value: &str) -> (r: Result<JsonSchemaValidator, SchemaValidationError>)
        ensures
            r is Ok <==> draft7_compiles(value@),
            !is_json_text(value@) ==> r is Err,
            match r {
                Result::Ok(v) => v.schema_text() == value@,
                Result::Err(e) => e is SchemaInvalid,
            },
    {
        match Self::compile_text(value) {
            Result::Ok(v) => Result::Ok(v),
            Result::Err(e) => Result::Err(e.into_validation_error()),
        }
    }

    /// Parses and compiles a schema from bytes: the bytes must be UTF-8
    /// text that is a schema document under Draft 7.
    pub fn from_bytes(bytes: &Vec<u8>) -> (r: Result<JsonSchemaValidator, SchemaValidationError>)
        ensures
            match crate::text::utf8_decoded(bytes@) {
                Option::Some(text) => {
                    &&& (r is Ok <==> draft7_compiles(text))
                    &&& (match r {
                        Result::Ok(v) => v.schema_text() == text,
                        Result::Err(e) => e is SchemaInvalid,
                    })
                },
                Option::None => r matches Err(e) && e is SchemaInvalid,
            },
    {
        match bytes_to_utf8(bytes) {
            Option::None => Result::Err(
                JsonSchemaError::SerdeError(
                    "schema bytes were not valid utf8".to_owned(),
                ).into_validation_error(),
            ),
            Option::Some(text) => Self::from_str(text.as_str()),
        }
    }

    /// Tests a payload against the schema: accepted exactly when the bytes
    /// are JSON that conforms under Draft 7; every refusal is a schema
    /// failure with the parser's or the validator's report.
    pub fn validate(&self, message: &Vec<u8>) -> (r: Result<(), SchemaValidationError>)
        ensures
            r is Ok <==> draft7_accepts(self.schema_text(), message@),
            !is_json_bytes(message@) ==> r is Err,
            r matches Err(e) ==> e is SchemaInvalid,
    {
        match self.judge(message.as_slice()) {
            Result::Ok(u) => Result::Ok(u),
            Result::Err(e) => Result::Err(e.into_validation_error()),
        }
    }
}

} // verus!
