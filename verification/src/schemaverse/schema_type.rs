//! The schema kinds the registry recognises, and which of them this client
//! can instantiate.

use vstd::prelude::*;
use crate::schemaverse::json::JsonSchemaValidator;
use crate::schemaverse::schema::SchemaValidationError;

verus! {

/// A recognised schema kind.
#[derive(Clone, Copy, Debug, PartialEq, Eq, Structural)]
pub enum SchemaType {
    Json,
    GraphQL,
    Protobuf,
}

impl SchemaType {
    /// The exact kind tag.
    pub open spec fn text(self) -> Seq<char> {
        match self {
            SchemaType::Json => "json"@,
            SchemaType::GraphQL => "graphql"@,
            SchemaType::Protobuf => "protobuf"@,
        }
    }

    /// The kind tag as a string.
    pub fn to_string(&self) -> (r: String)
        ensures
            r@ == self.text(),
    {
        let s: &str = match self {
            SchemaType::Json => "json",
            SchemaType::GraphQL => "graphql",
            SchemaType::Protobuf => "protobuf",
        };
        s.to_owned()
    }

    /// Reads a kind tag: exactly `json`, `graphql` and `protobuf` are
    /// recognised; anything else is refused with the offending tag.
    pub fn from_str(data: &str) -> (r: Result<SchemaType, SchemaTypeError>)
        ensures
            data@ == "json"@ ==> r == Result::<SchemaType, SchemaTypeError>::Ok(SchemaType::Json),
            data@ == "graphql"@ ==> r == Result::<SchemaType, SchemaTypeError>::Ok(
                SchemaType::GraphQL,
            ),
            data@ == "protobuf"@ ==> r == Result::<SchemaType, SchemaTypeError>::Ok(
                SchemaType::Protobuf,
            ),
            (data@ != "json"@ && data@ != "graphql"@ && data@ != "protobuf"@) ==> (
            match r {
                Result::Err(SchemaTypeError::InvalidType(t)) => t@ == data@,
                _ => false,
            }),
    {
        proof {
            reveal_strlit("json");
            reveal_strlit("graphql");
            reveal_strlit("protobuf");
            assert("json"@.len() == 4);
            assert("graphql"@.len() == 7);
            assert("protobuf"@.len() == 8);
        }
        if crate::text::str_eq(data, "json") {
            Result::Ok(SchemaType::Json)
        } else if crate::text::str_eq(data, "graphql") {
            Result::Ok(SchemaType::GraphQL)
        } else if crate::text::str_eq(data, "protobuf") {
            Result::Ok(SchemaType::Protobuf)
        } else {
            Result::Err(SchemaTypeError::InvalidType(data.to_owned()))
        }
    }

    /// Builds the validator for this kind from the schema text: the JSON
    /// kind succeeds exactly when the text compiles as a schema under
    /// Draft 7; the other tags are recognised but refused.
    pub fn create_validator(&self, data: &str) -> (r: Result<JsonSchemaValidator, SchemaTypeError>)
        ensures
            !(self is Json) ==> (match r {
                Result::Err(SchemaTypeError::InvalidType(t)) => t@ == data@,
                _ => false,
            }),
            self is Json ==> (r is Ok <==> crate::schemaverse::json::draft7_compiles(data@)),
            r matches Ok(v) ==> v.schema_text() == data@,
    {
        match self {
            SchemaType::Json => match JsonSchemaValidator::from_str(data) {
                Result::Ok(v) => Result::Ok(v),
                Result::Err(e) => Result::Err(SchemaTypeError::SchemaValidatorError(e)),
            },
            SchemaType::GraphQL => Result::Err(SchemaTypeError::InvalidType(data.to_owned())),
            SchemaType::Protobuf => Result::Err(SchemaTypeError::InvalidType(data.to_owned())),
        }
    }
}

/// Why a schema kind could not be put to work.
#[derive(Debug)]
pub enum SchemaTypeError {
    /// The kind is not supported here; the offending tag.
    InvalidType(String),
    /// The validator itself refused the schema.
    SchemaValidatorError(SchemaValidationError),
}

} // verus!
