use vstd::prelude::*;

verus! {

/// Why an operation on a handle failed.
#[derive(Clone, Copy, Debug, PartialEq, Eq, Structural)]
pub enum JniError {
    /// Looking a class up by its name found nothing.
    ClassNotFound,
    /// The probed owner has no field or method with the given name and signature.
    MemberNotFound,
    /// An operation that returns a reference produced the null reference.
    NullResult,
    /// The runtime flagged a pending failure after a call; the flag has been cleared.
    PendingRuntimeFailure,
    /// The class has no superclass.
    NoSuperclass,
}

} // verus!
