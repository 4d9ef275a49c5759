use vstd::prelude::*;

verus! {

/// The reasons an invocation is rejected. Every failure is terminal: the
/// handler reports the kind to the host unchanged, and no record byte is
/// mutated on any failing path.
#[derive(Clone, Copy, Debug, PartialEq, Eq, Structural)]
pub enum ErrorKind {
    /// The instruction buffer is empty, or an initialize instruction is not
    /// exactly nine bytes long.
    MalformedInstruction,
    /// The opcode byte selects no known transition.
    UnsupportedOperation,
    /// Initialization was requested on a record whose owning authority is not
    /// the caller identity.
    AccessDenied,
    /// The target record is not marked writable.
    PermissionDenied,
    /// Initialization was requested on a record whose buffer already holds a
    /// nonzero byte.
    AlreadyInitialized,
    /// An increment was requested on a record whose buffer is shorter than
    /// the 8-byte counter field.
    BufferTooSmall,
}

} // verus!
