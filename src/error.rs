use vstd::prelude::*;

verus! {

/// Typed failures of registry lookups, builder validation and gateway calls.
#[derive(Debug)]
pub enum Error {
    /// A chain with this id is already registered.
    DuplicateChain(String),
    /// No chain with this id is registered.
    UnknownChain(String),
    /// No code id is registered for this contract name.
    UnknownContract(String),
    /// More than one address is registered where one was required.
    AmbiguousContract(String),
    /// The named singleton deployment has not been created yet.
    SingletonNotDeployed(String),
    /// A mandatory builder field was not set.
    MissingParameter { operation: String, field: String },
    /// The network reports no such object.
    NotFound(String),
    /// The submission gateway failed while running an operation.
    Gateway { operation: String, message: String },
}

} // verus!

verus! {

/// `r` is the failure for the unset field `field` of operation `operation`.
pub open spec fn is_missing<T>(r: Result<T, Error>, operation: Seq<char>, field: Seq<char>) -> bool {
    r matches Err(Error::MissingParameter { operation: o, field: f }) && o@ == operation && f@ == field
}

} // verus!
