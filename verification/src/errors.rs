use vstd::prelude::*;

verus! {

/// Service-level failures that the helpers report; each variant carries a
/// human-readable message.
#[derive(Debug, PartialEq, Eq)]
pub enum ServiceError {
    /// The request carries no valid credential.
    Unauthorized(String),
    /// A unique key was already taken; the message names the field.
    Conflict(String),
}

} // verus!
