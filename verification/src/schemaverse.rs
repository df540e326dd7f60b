pub mod json;
pub mod schema;
pub mod schema_type;
