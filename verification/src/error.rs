use vstd::prelude::*;

verus! {

/// The ways an entry operation can fail.
///
/// Every failure leaves the store exactly as it was before the call; the
/// contracts in `contract` state this. `StoreFailure` stands for a fault of
/// the persistence layer itself; the in-memory store never raises it, so it
/// is reported only by code that wires the operations to a fallible store.
#[derive(Clone, Copy, Debug, PartialEq, Eq, Structural)]
pub enum ContractError {
    /// `instantiate` was called while a record already exists.
    AlreadyInitialized,
    /// `execute` or `query` was called before any record was created.
    NotInitialized,
    /// A reset was requested by an identity other than the recorded owner.
    Unauthorized,
    /// The persistence layer failed to load or save the record.
    StoreFailure,
}

} // verus!
