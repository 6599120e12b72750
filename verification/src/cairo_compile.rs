use vstd::prelude::*;

use crate::error::EntryPointError;
use crate::hints::{project_hints, pythonic_of, render_pythonic_hints, spec_hint_map,
    total_op_size, InstructionInfo};
use crate::segment::{compute_bytecode_segment_lengths, leaf_sum, segmentable, spec_segment_leaves,
    NestedIntList};
use crate::type_resolver::TypeResolver;
use crate::types::{FunctionSignature, GenericId, TypeRef};
use crate::word::{prime_int, reduce_bytecode, stark_prime, val_of, Word};
use convert_case::Casing;
use vstd::string::StringExecFns;

verus! {

/// Returns true exactly when the optional field is absent; used to decide
/// whether an optional artifact field is dropped from the serialized record.
pub fn skip_if_none<T>(opt_field: &Option<T>) -> (r: bool)
    ensures
        r == (opt_field is None),
{
    opt_field.is_none()
}

/// The lowercase, underscore-separated form of a constructor name, as the
/// external case conversion produces it. A pure function of the characters.
pub uninterp spec fn snake_of(s: Seq<char>) -> Seq<char>;

/// Relies on convert_case's `to_case` with the snake target: the lowercase,
/// underscore-separated rendering of the name, a function of its input alone.
#[verifier::external_body]
fn to_snake_case(s: &str) -> (r: String)
    ensures
        r@ == snake_of(s@),
{
    s.to_case(convert_case::Case::Snake)
}

/// The canonical textual name a builtin (or any constructor) is emitted
/// under: a fixed lowercase name for each constructor known to the resolver,
/// and the external snake-case rendering for any other.
pub open spec fn spec_builtin_name(g: GenericId) -> Seq<char> {
    match g {
        GenericId::Array => "array"@,
        GenericId::Snapshot => "snapshot"@,
        GenericId::Struct => "struct"@,
        GenericId::Enum => "enum"@,
        GenericId::Felt252 => "felt252"@,
        GenericId::RangeCheck => "range_check"@,
        GenericId::Bitwise => "bitwise"@,
        GenericId::Pedersen => "pedersen"@,
        GenericId::EcOp => "ec_op"@,
        GenericId::Poseidon => "poseidon"@,
        GenericId::SegmentArena => "segment_arena"@,
        GenericId::GasBuiltin => "gas_builtin"@,
        GenericId::System => "system"@,
        GenericId::Other(s) => snake_of(s@),
    }
}

pub fn builtin_name(g: &GenericId) -> (r: String)
    ensures
        r@ == spec_builtin_name(*g),
{
    match g {
        GenericId::Array => String::from_str("array"),
        GenericId::Snapshot => String::from_str("snapshot"),
        GenericId::Struct => String::from_str("struct"),
        GenericId::Enum => String::from_str("enum"),
        GenericId::Felt252 => String::from_str("felt252"),
        GenericId::RangeCheck => String::from_str("range_check"),
        GenericId::Bitwise => String::from_str("bitwise"),
        GenericId::Pedersen => String::from_str("pedersen"),
        GenericId::EcOp => String::from_str("ec_op"),
        GenericId::Poseidon => String::from_str("poseidon"),
        GenericId::SegmentArena => String::from_str("segment_arena"),
        GenericId::GasBuiltin => String::from_str("gas_builtin"),
        GenericId::System => String::from_str("system"),
        GenericId::Other(s) => to_snake_case(s.as_str()),
    }
}

/// The closed set of builtin resource constructors a contract entry point may
/// name among its leading parameters.
pub open spec fn spec_is_recognized_builtin(g: GenericId) -> bool {
    ||| g is RangeCheck
    ||| g is Bitwise
    ||| g is Pedersen
    ||| g is EcOp
    ||| g is Poseidon
    ||| g is SegmentArena
    ||| g is GasBuiltin
    ||| g is System
}

pub fn is_recognized_builtin(g: &GenericId) -> (r: bool)
    ensures
        r == spec_is_recognized_builtin(*g),
{
    match g {
        GenericId::RangeCheck => true,
        GenericId::Bitwise => true,
        GenericId::Pedersen => true,
        GenericId::EcOp => true,
        GenericId::Poseidon => true,
        GenericId::SegmentArena => true,
        GenericId::GasBuiltin => true,
        GenericId::System => true,
        _ => false,
    }
}

/// Every type id the signature names stays inside the declaration table.
pub open spec fn signature_in_table(r: TypeResolver, sig: FunctionSignature) -> bool {
    &&& forall|i: int|
        0 <= i < sig.param_types@.len() ==> (#[trigger] sig.param_types@[i]).id
            < r.table().len()
    &&& forall|i: int|
        0 <= i < sig.ret_types@.len() ==> (#[trigger] sig.ret_types@[i]).id < r.table().len()
}

/// The fixed parameter suffix of the contract calling convention: at least
/// two parameters, the second-to-last resolving to the gas builtin and the
/// last to the system builtin, in that exact order.
pub open spec fn spec_suffix_ok(r: TypeResolver, sig: FunctionSignature) -> bool {
    let n = sig.param_types@.len() as int;
    &&& n >= 2
    &&& r.spec_generic_id(sig.param_types@[n - 2].id as int) is GasBuiltin
    &&& r.spec_generic_id(sig.param_types@[n - 1].id as int) is System
}

/// The first leading parameter whose type falls outside the recognized
/// builtin set, if any; carries its concrete type id.
pub open spec fn spec_first_invalid(r: TypeResolver, leading: Seq<TypeRef>) -> Option<usize>
    decreases leading.len(),
{
    if leading.len() == 0 {
        None
    } else if !spec_is_recognized_builtin(r.spec_generic_id(leading[0].id as int)) {
        Some(leading[0].id)
    } else {
        spec_first_invalid(r, leading.drop_first())
    }
}

pub proof fn lemma_first_invalid_skip(r: TypeResolver, leading: Seq<TypeRef>, i: int)
    requires
        0 <= i <= leading.len(),
        forall|j: int|
            0 <= j < i ==> spec_is_recognized_builtin(
                r.spec_generic_id((#[trigger] leading[j]).id as int),
            ),
    ensures
        spec_first_invalid(r, leading) == spec_first_invalid(r, leading.skip(i)),
    decreases i,
{
    if i == 0 {
        assert(leading.skip(0) =~= leading);
    } else {
        lemma_first_invalid_skip(r, leading, i - 1);
        assert(leading.skip(i - 1).len() > 0);
        assert(leading.skip(i - 1)[0] == leading[i - 1]);
        assert(spec_is_recognized_builtin(r.spec_generic_id(leading[i - 1].id as int)));
        assert(leading.skip(i - 1).drop_first() =~= leading.skip(i));
        assert(spec_first_invalid(r, leading.skip(i - 1)) == spec_first_invalid(
            r,
            leading.skip(i - 1).drop_first(),
        ));
    }
}

/// The return convention of a contract entry point: at least one return type,
/// and the last one following the two-branch success/failure shape.
pub open spec fn spec_ret_ok(r: TypeResolver, sig: FunctionSignature) -> bool {
    &&& sig.ret_types@.len() > 0
    &&& r.spec_is_valid_entry_point_return_type(
        sig.ret_types@[sig.ret_types@.len() - 1].id as int,
    )
}

/// The derived calling convention of a contract entry point, or the first
/// check that rejects the signature. The checks run in a fixed order: the
/// gas/system suffix, then (under the strict policy) membership of every
/// leading parameter in the recognized builtin set, then the return shape,
/// then the code-offset lookup of the entry statement.
pub open spec fn spec_derive_entry_point(
    r: TypeResolver,
    sig: FunctionSignature,
    entry_statement: int,
    offsets: Seq<usize>,
    enforce_builtin_types: bool,
) -> Result<(int, Seq<Seq<char>>), EntryPointError> {
    let n = sig.param_types@.len() as int;
    let leading = sig.param_types@.take(n - 2);
    if !spec_suffix_ok(r, sig) {
        Err(EntryPointError::InvalidEntryPointSignatureWrongBuiltinsOrder)
    } else if enforce_builtin_types && spec_first_invalid(r, leading) is Some {
        Err(EntryPointError::InvalidBuiltinType(spec_first_invalid(r, leading)->Some_0))
    } else if !spec_ret_ok(r, sig) {
        Err(EntryPointError::InvalidEntryPointReturnType)
    } else if !(0 <= entry_statement < offsets.len()) {
        Err(EntryPointError::EntryPoint)
    } else {
        Ok(
            (
                offsets[entry_statement] as int,
                leading.map_values(
                    |t: TypeRef| spec_builtin_name(r.spec_generic_id(t.id as int)),
                ),
            ),
        )
    }
}

/// The calling-convention description of one entry point: the code offset of
/// its first instruction and the ordered textual names of the builtins it
/// requires.
#[derive(Debug, Clone, Default, PartialEq, Eq)]
pub struct CasmProgramEntryPoint {
    pub offset: usize,
    pub builtins: Vec<String>,
}

/// The data of the designated entry function: the statement index where its
/// code begins, per the external compiler's numbering, and its signature.
#[derive(Debug, Clone, PartialEq, Eq)]
pub struct EntryPoint {
    pub entry_statement: usize,
    pub signature: FunctionSignature,
}

/// Derives the entry point's calling convention from its signature: splits
/// off the fixed (gas, system) parameter suffix, names the remaining leading
/// parameters as builtins in declaration order, validates the return shape,
/// and looks up the entry statement's code offset. Rejections are reported as
/// the first failing check, exactly as `spec_derive_entry_point` orders them.
pub fn derive_entry_point(
    resolver: &TypeResolver,
    signature: &FunctionSignature,
    entry_statement: usize,
    statement_offsets: &Vec<usize>,
    enforce_builtin_types: bool,
) -> (res: Result<CasmProgramEntryPoint, EntryPointError>)
    requires
        resolver.wf(),
        signature_in_table(*resolver, *signature),
    ensures
        ({
            let spec_res = spec_derive_entry_point(
                *resolver,
                *signature,
                entry_statement as int,
                statement_offsets@,
                enforce_builtin_types,
            );
            &&& res is Ok <==> spec_res is Ok
            &&& res matches Err(e) ==> spec_res == Err::<(int, Seq<Seq<char>>), EntryPointError>(e)
            &&& res matches Ok(ep) ==> spec_res matches Ok(o) && ep.offset == o.0
                && ep.builtins@.map_values(|s: String| s@) == o.1
        }),
{
    let n = signature.param_types.len();
    if n < 2 {
        return Err(EntryPointError::InvalidEntryPointSignatureWrongBuiltinsOrder);
    }
    let system_ty = &signature.param_types[n - 1];
    let gas_ty = &signature.param_types[n - 2];
    let suffix_ok = matches!(resolver.get_generic_id(gas_ty.id), GenericId::GasBuiltin) && matches!(
        resolver.get_generic_id(system_ty.id),
        GenericId::System,
    );
    if !suffix_ok {
        return Err(EntryPointError::InvalidEntryPointSignatureWrongBuiltinsOrder);
    }
    let ghost leading = signature.param_types@.take(n as int - 2);
    let mut builtins: Vec<String> = Vec::new();
    let mut i: usize = 0;
    while i < n - 2
        invariant
            resolver.wf(),
            signature_in_table(*resolver, *signature),
            n == signature.param_types@.len(),
            n >= 2,
            i <= n - 2,
            leading == signature.param_types@.take(n as int - 2),
            spec_suffix_ok(*resolver, *signature),
            builtins@.len() == i,
            forall|j: int|
                0 <= j < i ==> (#[trigger] builtins@[j])@ == spec_builtin_name(
                    resolver.spec_generic_id(leading[j].id as int),
                ),
            enforce_builtin_types ==> forall|j: int|
                0 <= j < i ==> spec_is_recognized_builtin(
                    resolver.spec_generic_id((#[trigger] leading[j]).id as int),
                ),
        decreases n - 2 - i,
    {
        let p = &signature.param_types[i];
        proof {
            assert(leading[i as int] == signature.param_types@[i as int]);
        }
        let g = resolver.get_generic_id(p.id);
        if enforce_builtin_types && !is_recognized_builtin(g) {
            proof {
                lemma_first_invalid_skip(*resolver, leading, i as int);
                assert(leading.skip(i as int)[0] == leading[i as int]);
                assert(spec_first_invalid(*resolver, leading) == Some(p.id));
            }
            return Err(EntryPointError::InvalidBuiltinType(p.id));
        }
        let name = builtin_name(g);
        builtins.push(name);
        i += 1;
    }
    proof {
        if enforce_builtin_types {
            lemma_first_invalid_skip(*resolver, leading, n as int - 2);
            assert(leading.skip(n as int - 2) =~= Seq::<TypeRef>::empty());
            assert(spec_first_invalid(*resolver, leading) is None);
        }
    }
    let n_ret = signature.ret_types.len();
    if n_ret == 0 {
        return Err(EntryPointError::InvalidEntryPointReturnType);
    }
    let last_ret = &signature.ret_types[n_ret - 1];
    if !resolver.is_valid_entry_point_return_type(last_ret.id) {
        return Err(EntryPointError::InvalidEntryPointReturnType);
    }
    if entry_statement >= statement_offsets.len() {
        return Err(EntryPointError::EntryPoint);
    }
    let offset = statement_offsets[entry_statement];
    proof {
        assert(builtins@.map_values(|s: String| s@) =~= leading.map_values(
            |t: TypeRef| spec_builtin_name(resolver.spec_generic_id(t.id as int)),
        ));
    }
    Ok(CasmProgramEntryPoint { offset, builtins })
}

/// The version of the wrapped compiler, as its crate states it.
pub open spec fn spec_compiler_version() -> Seq<char> {
    "2.20.0"@
}

/// Relies on cairo_lang_starknet_classes' `current_compiler_version_id`,
/// rendered through its display form: a compile-time constant of that crate,
/// "major.minor.patch" of the version this library is built against.
#[verifier::external_body]
pub(crate) fn current_compiler_version() -> (r: String)
    ensures
        r@ == spec_compiler_version(),
{
    cairo_lang_starknet_classes::compiler_version::current_compiler_version_id().to_string()
}

/// The finalized executable artifact of one contract-convention program: the
/// field prime, the wrapped compiler's version, the reduced bytecode, the
/// optional segmentation, the hints keyed by program-counter offset (raw and,
/// optionally, rendered), and the entry point's calling convention.
#[derive(Debug)]
pub struct CasmProgramClass {
    pub prime: Word,
    pub compiler_version: String,
    pub bytecode: Vec<Word>,
    pub bytecode_segment_lengths: Option<NestedIntList>,
    pub hints: Vec<(usize, Vec<cairo_lang_casm::hints::Hint>)>,
    pub pythonic_hints: Option<Vec<(usize, Vec<String>)>>,
    pub main: CasmProgramEntryPoint,
}

/// Assembles the final artifact from the externally compiled program parts:
/// reduces every bytecode word into the field, projects the hints onto their
/// program-counter offsets and renders them, computes the optional
/// segmentation (absent rather than fatal when not computable), and derives
/// the main entry point's calling convention. Fails exactly when the entry
/// point derivation fails, with that derivation's error.
pub fn cairo_compile(
    resolver: &TypeResolver,
    main: &EntryPoint,
    statement_offsets: &Vec<usize>,
    instructions: Vec<InstructionInfo>,
    bytecode: &Vec<num_bigint::BigInt>,
    function_starts: &Vec<usize>,
    enforce_builtin_types: bool,
) -> (res: Result<CasmProgramClass, EntryPointError>)
    requires
        resolver.wf(),
        signature_in_table(*resolver, main.signature),
        total_op_size(instructions@) <= usize::MAX,
    ensures
        ({
            let derived = spec_derive_entry_point(
                *resolver,
                main.signature,
                main.entry_statement as int,
                statement_offsets@,
                enforce_builtin_types,
            );
            &&& res is Ok <==> derived is Ok
            &&& res matches Err(e) ==> derived == Err::<(int, Seq<Seq<char>>), EntryPointError>(e)
            &&& res matches Ok(c) ==> {
                &&& c.prime.val() == prime_int()
                &&& c.compiler_version@ == spec_compiler_version()
                &&& c.bytecode@.len() == bytecode@.len()
                &&& forall|i: int|
                    0 <= i < c.bytecode@.len() ==> (#[trigger] c.bytecode@[i]).reduced()
                        && c.bytecode@[i].val() == val_of(bytecode@[i]) % prime_int()
                &&& c.hints@.map_values(
                    |e: (usize, Vec<cairo_lang_casm::hints::Hint>)| (e.0 as int, e.1@),
                ) == spec_hint_map(instructions@, 0)
                &&& c.pythonic_hints matches Some(ph) && ph@.len() == c.hints@.len() && (forall|
                    i: int,
                |
                    0 <= i < ph@.len() ==> (#[trigger] ph@[i]).0 == c.hints@[i].0 && ph@[i].1@.len()
                        == c.hints@[i].1@.len()) && (forall|i: int, j: int|
                    0 <= i < ph@.len() && 0 <= j < ph@[i].1@.len() ==> (#[trigger] ph@[i].1@[j])@
                        == pythonic_of(c.hints@[i].1@[j]))
                &&& (c.bytecode_segment_lengths is Some <==> (bytecode@.len() == 0 || segmentable(
                    function_starts@,
                    bytecode@.len() as int,
                )))
                &&& (c.bytecode_segment_lengths matches Some(nil) ==> leaf_sum(nil)
                    == bytecode@.len())
                &&& (bytecode@.len() != 0 && segmentable(function_starts@, bytecode@.len() as int)
                    ==> (c.bytecode_segment_lengths matches Some(nil) && nil matches
                    NestedIntList::Node(children) && children@ == spec_segment_leaves(
                    function_starts@,
                    bytecode@.len() as int,
                )))
                &&& derived matches Ok(o) && c.main.offset == o.0 && c.main.builtins@.map_values(
                    |s: String| s@,
                ) == o.1
            }
        }),
{
    let main_entry = match derive_entry_point(
        resolver,
        &main.signature,
        main.entry_statement,
        statement_offsets,
        enforce_builtin_types,
    ) {
        Ok(ep) => ep,
        Err(e) => {
            return Err(e);
        },
    };
    let reduced = reduce_bytecode(bytecode);
    let segment_lengths = compute_bytecode_segment_lengths(function_starts, reduced.len());
    let hints = project_hints(instructions);
    let pythonic = render_pythonic_hints(&hints);
    let compiler_version = current_compiler_version();
    Ok(
        CasmProgramClass {
            prime: stark_prime(),
            compiler_version,
            bytecode: reduced,
            bytecode_segment_lengths: segment_lengths,
            hints,
            pythonic_hints: Some(pythonic),
            main: main_entry,
        },
    )
}

/// Re-deriving on the same inputs yields the same record: the derivation is a
/// function of the signature, the offsets, and the policy alone.
pub proof fn lemma_derivation_deterministic(
    r: TypeResolver,
    sig: FunctionSignature,
    entry_statement: int,
    offsets: Seq<usize>,
    enforce_builtin_types: bool,
    o1: Result<(int, Seq<Seq<char>>), EntryPointError>,
    o2: Result<(int, Seq<Seq<char>>), EntryPointError>,
)
    requires
        o1 == spec_derive_entry_point(r, sig, entry_statement, offsets, enforce_builtin_types),
        o2 == spec_derive_entry_point(r, sig, entry_statement, offsets, enforce_builtin_types),
    ensures
        o1 == o2,
{
}

/// Derivation preserves the declaration order of the leading parameters: the
/// name at each position of the derived list is the canonical name of the
/// parameter at the same position.
pub proof fn lemma_derivation_order_preserving(
    r: TypeResolver,
    sig: FunctionSignature,
    entry_statement: int,
    offsets: Seq<usize>,
    enforce_builtin_types: bool,
)
    requires
        spec_derive_entry_point(r, sig, entry_statement, offsets, enforce_builtin_types) is Ok,
    ensures
        ({
            let names = spec_derive_entry_point(
                r,
                sig,
                entry_statement,
                offsets,
                enforce_builtin_types,
            )->Ok_0.1;
            &&& names.len() == sig.param_types@.len() - 2
            &&& forall|j: int|
                0 <= j < names.len() ==> names[j] == spec_builtin_name(
                    r.spec_generic_id((#[trigger] sig.param_types@[j]).id as int),
                )
        }),
{
    let n = sig.param_types@.len() as int;
    let leading = sig.param_types@.take(n - 2);
    assert(forall|j: int| 0 <= j < leading.len() ==> #[trigger] leading[j] == sig.param_types@[j]);
}

} // verus!
