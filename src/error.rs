//! The errors that the asset operations report.
use vstd::prelude::*;

verus! {

/// Each failure of an asset operation, with a message that names the offending input.
#[derive(Debug, Clone, PartialEq, Eq)]
pub enum AssetError {
    /// The textual form does not consist of exactly two non-empty `:`-separated parts.
    Format(String),
    /// The kind in the textual form is neither `native` nor `cw20`.
    UnknownKind(String),
    /// The host's address validation rejected the (lowercased) address.
    Address(String),
    /// A native denom is not in the whitelist that was given.
    Whitelist(String),
    /// The operation has no counterpart for native coins.
    Unsupported(String),
    /// The host querier failed.
    Query(String),
}

} // verus!
