pub mod request;
pub mod response;
pub mod schemaverse_schema_update;
