use vstd::prelude::*;

verus! {

/// The ways a single invocation can fail. Every failure is terminal for the
/// invocation and leaves the target account's data untouched.
#[derive(Clone, Copy, Debug, PartialEq, Eq, Structural)]
pub enum Failure {
    /// The caller supplied an empty account list.
    MissingAccount,
    /// The target account is not owned by the executing program identity.
    IncorrectOwner,
    /// The target account's data does not parse under the fixed-width encoding.
    CorruptState,
    /// The target account's data region cannot hold the encoded state.
    BufferTooSmall,
}

} // verus!
