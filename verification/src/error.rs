use vstd::prelude::*;

verus! {

/// Why deriving an entry point's calling convention failed. Each variant
/// names the check that rejected the signature, so a caller can report the
/// violation precisely.
#[derive(Debug, Clone, PartialEq, Eq, Structural)]
pub enum EntryPointError {
    /// The designated entry statement has no recorded code offset.
    EntryPoint,
    /// Fewer than two parameters, or the fixed parameter suffix is not the
    /// gas builtin followed by the system builtin.
    InvalidEntryPointSignatureWrongBuiltinsOrder,
    /// A leading parameter resolves to a type outside the recognized builtin
    /// set; carries the offending concrete type id.
    InvalidBuiltinType(usize),
    /// The return type does not follow the two-branch success/failure shape.
    InvalidEntryPointReturnType,
}

} // verus!
