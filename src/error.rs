//! The ways an operation of the relay can fail.
use vstd::prelude::*;

verus! {

/// Each failure is terminal for the call and leaves all state as it was.
#[derive(Clone, Copy, Debug, PartialEq, Eq, Structural)]
pub enum RelayError {
    /// The oracle account's length, header or version is not that of a feed.
    MalformedRecord,
    /// The oracle account holds no data.
    Unavailable,
    /// The snapshot account is not at the address derived for it.
    AddressMismatch,
    /// The payer cannot fund the first creation of the snapshot.
    InsufficientFunds,
}

} // verus!
