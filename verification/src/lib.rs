//! Client-side logic of a Memphis-style message broker SDK: canonical names,
//! control-plane request encoding, reply interpretation, round-robin partition
//! selection, the produce validation gate, and the consume-side duplicate
//! suppression, each with a machine-checked contract.

pub mod consumer;
pub mod json_text;
pub mod json_value;
pub mod memphis_client;
pub mod memphis_constants;
pub mod memphis_util;
pub mod models;
pub mod partition_iterator;
pub mod producer;
pub mod request_error;
pub mod schemaverse;
pub mod station;
pub mod text;
