//! The errors a consumer's lifecycle can end in.

use vstd::prelude::*;
use crate::request_error::RequestError;

verus! {

/// Why creating or running a consumer failed.
#[derive(Debug)]
pub enum ConsumerError {
    /// A control-plane request failed.
    RequestError(RequestError),
    /// The start sequence is not positive; no request is sent.
    InvalidSequence,
    /// The broker's create response was neither empty nor readable; its
    /// text.
    InvalidResponse(String),
}

} // verus!
