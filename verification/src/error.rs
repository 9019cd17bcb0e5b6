use vstd::prelude::*;

verus! {

/// Every way an operation of this subsystem can be refused. Each error is
/// terminal for the invoking call: on failure no state has been changed.
#[derive(Clone, Copy, PartialEq, Eq, Structural, Debug)]
pub enum GateError {
    /// The caller is not whitelisted, not the record's creator, or not the
    /// subsystem's administrator.
    NotAuthorized,
    /// The whitelist already holds its maximum number of principals.
    CapacityExceeded,
    /// The principal is already present in the whitelist.
    AlreadyWhitelisted,
    /// An authority record for this collection identity already exists.
    CollectionAlreadyInitialized,
    /// The external registry does not administer the named collection.
    InvalidCollection,
}

} // verus!
