//! The errors a produce call can end in.

use vstd::prelude::*;
use crate::schemaverse::schema::SchemaValidationError;

verus! {

/// Why a produce call failed.
#[derive(Debug)]
pub enum ProducerError {
    /// The transport refused the publish; its report.
    NatsPublishError(String),
    /// The payload is empty; nothing is published.
    PayloadEmpty,
    /// The payload does not match the station's schema.
    SchemaValidationError(SchemaValidationError),
    /// The named partition is not in the station's partition list.
    PartitionNotValid(u32),
    /// The station is partitioned, so a partition must be named.
    PartitionRequired,
    /// The station's partition list is empty.
    PartitionUnavailable,
}

} // verus!
