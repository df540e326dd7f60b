//! The schema-update events a station subscribes to: their shape as plain
//! values, read out of the update's JSON body by the trusted probes. An
//! update that cannot be read is reported so that the subscription can
//! ignore it.

use vstd::prelude::*;
use crate::json_value::{parse_json, value_as_string, value_as_u64, value_get};

verus! {

/// One version of a schema.
pub struct ActiveVersion {
    pub version_number: u64,
    pub descriptor: String,
    pub schema_content: String,
    pub message_struct_name: String,
}

/// The body of a schema-update event.
pub struct Init {
    pub schema_name: String,
    pub active_version: ActiveVersion,
    pub schema_type: String,
}

/// A schema-update event: its kind number and its body.
pub struct SchemaUpdateResponse {
    pub update_type: u64,
    pub init: Init,
}

/// Reads one version object.
fn read_active_version(v: &serde_json::Value) -> Option<ActiveVersion> {
    let version_number = match value_get(v, "version_number") {
        Option::Some(n) => match value_as_u64(n) {
            Option::Some(n) => n,
            Option::None => {
                return Option::None;
            },
        },
        Option::None => {
            return Option::None;
        },
    };
    let descriptor = match value_get(v, "descriptor") {
        Option::Some(d) => match value_as_string(d) {
            Option::Some(d) => d,
            Option::None => {
                return Option::None;
            },
        },
        Option::None => {
            return Option::None;
        },
    };
    let schema_content = match value_get(v, "schema_content") {
        Option::Some(c) => match value_as_string(c) {
            Option::Some(c) => c,
            Option::None => {
                return Option::None;
            },
        },
        Option::None => {
            return Option::None;
        },
    };
    let message_struct_name = match value_get(v, "message_struct_name") {
        Option::Some(m) => match value_as_string(m) {
            Option::Some(m) => m,
            Option::None => {
                return Option::None;
            },
        },
        Option::None => {
            return Option::None;
        },
    };
    Option::Some(ActiveVersion { version_number, descriptor, schema_content, message_struct_name })
}

impl SchemaUpdateResponse {
    /// Reads a schema-update event out of its JSON body: the kind number
    /// under `UpdateType`, the schema name, version and kind tag under
    /// `init`. A body that is not such an event yields nothing, and the
    /// subscription ignores it.
    pub fn parse(body: &str) -> (r: Option<SchemaUpdateResponse>)
        ensures
            !crate::json_value::is_json_text(body@) ==> r is None,
    {
        let v = match parse_json(body) {
            Result::Ok(v) => v,
            Result::Err(_) => {
                return Option::None;
            },
        };
        let update_type = match value_get(&v, "UpdateType") {
            Option::Some(t) => match value_as_u64(t) {
                Option::Some(t) => t,
                Option::None => {
                    return Option::None;
                },
            },
            Option::None => {
                return Option::None;
            },
        };
        let init_value = match value_get(&v, "init") {
            Option::Some(i) => i,
            Option::None => {
                return Option::None;
            },
        };
        let schema_name = match value_get(init_value, "schema_name") {
            Option::Some(n) => match value_as_string(n) {
                Option::Some(n) => n,
                Option::None => {
                    return Option::None;
                },
            },
            Option::None => {
                return Option::None;
            },
        };
        let schema_type = match value_get(init_value, "type") {
            Option::Some(t) => match value_as_string(t) {
                Option::Some(t) => t,
                Option::None => {
                    return Option::None;
                },
            },
            Option::None => {
                return Option::None;
            },
        };
        let active_version = match value_get(init_value, "active_version") {
            Option::Some(a) => match read_active_version(a) {
                Option::Some(a) => a,
                Option::None => {
                    return Option::None;
                },
            },
            Option::None => {
                return Option::None;
            },
        };
        Option::Some(
            SchemaUpdateResponse {
                update_type,
                init: Init { schema_name, active_version, schema_type },
            },
        )
    }
}

} // verus!
