use vstd::prelude::*;

verus! {

/// The generic type constructor named by a row of the type-declaration table.
/// The constructors that the packaging logic distinguishes are listed by name;
/// any other constructor is kept as `Other` with its raw textual id.
#[derive(Debug, Clone, PartialEq, Eq)]
pub enum GenericId {
    Array,
    Snapshot,
    Struct,
    Enum,
    Felt252,
    RangeCheck,
    Bitwise,
    Pedersen,
    EcOp,
    Poseidon,
    SegmentArena,
    GasBuiltin,
    System,
    Other(String),
}

/// One generic argument of a type declaration: a reference to another row of
/// the table, a user-type discriminant, a numeric value, or an argument kind
/// the packaging logic never reads (a const or an impl id).
#[derive(Debug, Clone, PartialEq, Eq)]
pub enum GenericArg {
    Type(usize),
    UserType,
    Value,
    Other,
}

/// A resolved type declaration: the generic constructor and its arguments.
#[derive(Debug, Clone, PartialEq, Eq)]
pub struct ConcreteTypeLongId {
    pub generic_id: GenericId,
    pub generic_args: Vec<GenericArg>,
}

/// A concrete type id as it occurs in a function signature: the dense index
/// into the type-declaration table, and the optional textual debug name.
#[derive(Debug, Clone, PartialEq, Eq)]
pub struct TypeRef {
    pub id: usize,
    pub debug_name: Option<String>,
}

/// A function signature: the parameter and return type ids, in order.
#[derive(Debug, Clone, PartialEq, Eq)]
pub struct FunctionSignature {
    pub param_types: Vec<TypeRef>,
    pub ret_types: Vec<TypeRef>,
}

/// True of a generic argument that, if it references another table row, stays
/// below the table length `n`.
pub open spec fn arg_wf(a: GenericArg, n: int) -> bool {
    match a {
        GenericArg::Type(t) => (t as int) < n,
        _ => true,
    }
}

/// True of a declaration whose cross-references all stay below `n`.
pub open spec fn decl_wf(d: ConcreteTypeLongId, n: int) -> bool {
    forall|j: int|
        0 <= j < d.generic_args@.len() ==> arg_wf(#[trigger] d.generic_args@[j], n)
}

} // verus!
