use cairo_lang_casm::hints::{CoreHint, CoreHintBase, Hint, StarknetHint};
use cairo_lang_casm::operand::{CellRef, Register, ResOperand};
use cairo_lang_utils::bigint::BigIntAsHex;
use casm_packager::builtins::build_hints_dict;
use casm_packager::cairo_compile::{cairo_compile, EntryPoint};
use casm_packager::cairo_run_compile;
use casm_packager::hints::InstructionInfo;
use casm_packager::segment::{compute_bytecode_segment_lengths, NestedIntList};
use casm_packager::type_resolver::TypeResolver;
use casm_packager::types::{ConcreteTypeLongId, FunctionSignature, GenericArg, GenericId, TypeRef};
use casm_packager::word::{reduce_word, stark_prime, Word};
use num_bigint::BigInt;

fn alloc_segment_hint() -> Hint {
    Hint::Core(CoreHintBase::Core(CoreHint::AllocSegment {
        dst: CellRef { register: Register::AP, offset: 0 },
    }))
}

#[test]
fn stark_prime_limbs() {
    let p = stark_prime();
    assert_eq!(p, Word { w0: 1, w1: 0, w2: 0, w3: 0x0800000000000011 });
}

#[test]
fn small_word_reduces_to_itself() {
    let w = reduce_word(&BigInt::from(5));
    assert_eq!(w, Word { w0: 5, w1: 0, w2: 0, w3: 0 });
}

#[test]
fn negative_word_wraps_to_prime_minus_magnitude() {
    let w = reduce_word(&BigInt::from(-1));
    assert_eq!(w, Word { w0: 0, w1: 0, w2: 0, w3: 0x0800000000000011 });
}

#[test]
fn multiples_of_the_prime_reduce_to_zero() {
    let prime = (BigInt::from(1) << 251) + (BigInt::from(17) << 192) + 1;
    assert_eq!(reduce_word(&prime), Word { w0: 0, w1: 0, w2: 0, w3: 0 });
    assert_eq!(reduce_word(&(-&prime)), Word { w0: 0, w1: 0, w2: 0, w3: 0 });
    assert_eq!(
        reduce_word(&(&prime + 9)),
        Word { w0: 9, w1: 0, w2: 0, w3: 0 }
    );
}

#[test]
fn segment_lengths_partition_the_bytecode() {
    let starts: Vec<usize> = vec![0, 3, 7];
    let r = compute_bytecode_segment_lengths(&starts, 10).unwrap();
    let expected = NestedIntList::Node(vec![
        NestedIntList::Leaf(3),
        NestedIntList::Leaf(4),
        NestedIntList::Leaf(3),
    ]);
    assert_eq!(r, expected);
}

#[test]
fn empty_bytecode_has_a_zero_leaf() {
    let starts: Vec<usize> = vec![];
    assert_eq!(
        compute_bytecode_segment_lengths(&starts, 0),
        Some(NestedIntList::Leaf(0))
    );
}

#[test]
fn unusable_boundaries_yield_no_segmentation() {
    assert_eq!(compute_bytecode_segment_lengths(&vec![1, 3], 10), None);
    assert_eq!(compute_bytecode_segment_lengths(&vec![0, 5, 3], 10), None);
    assert_eq!(compute_bytecode_segment_lengths(&vec![0, 11], 10), None);
    assert_eq!(compute_bytecode_segment_lengths(&vec![], 10), None);
}

#[test]
fn hint_without_a_pythonic_form_renders_structurally() {
    // A system-call hint whose pointer operand is an immediate has no
    // pythonic projection; the dictionary must still be produced, carrying
    // the hint's structural form instead.
    let odd_hint = Hint::Starknet(StarknetHint::SystemCall {
        system: ResOperand::Immediate(BigIntAsHex::from(7)),
    });
    let expected = format!("{odd_hint:?}");
    let instructions = vec![InstructionInfo { hints: vec![odd_hint], op_size: 1 }];
    let dict = build_hints_dict(instructions);
    assert_eq!(dict.len(), 1);
    assert_eq!(dict[0].0, 0);
    assert_eq!(dict[0].1, vec![expected]);
}

#[test]
fn artifact_compiler_version_matches_the_wrapped_compiler() {
    let instructions: Vec<InstructionInfo> = Vec::new();
    let bytecode: Vec<BigInt> = Vec::new();
    let function_starts: Vec<usize> = Vec::new();
    let artifact = cairo_run_compile::cairo_compile(instructions, &bytecode, &function_starts, 0);
    assert_eq!(artifact.compiler_version, String::from("2.20.0"));
}

#[test]
fn hints_dict_is_keyed_by_program_counter() {
    let instructions = vec![
        InstructionInfo { hints: vec![alloc_segment_hint()], op_size: 2 },
        InstructionInfo { hints: vec![], op_size: 1 },
        InstructionInfo { hints: vec![alloc_segment_hint(), alloc_segment_hint()], op_size: 1 },
    ];
    let dict = build_hints_dict(instructions);
    assert_eq!(dict.len(), 2);
    assert_eq!(dict[0].0, 0);
    assert_eq!(dict[0].1, vec![String::from("memory[ap + 0] = segments.add()")]);
    assert_eq!(dict[1].0, 3);
    assert_eq!(dict[1].1.len(), 2);
}

fn sample_resolver() -> TypeResolver {
    let decl = |generic_id: GenericId, generic_args: Vec<GenericArg>| ConcreteTypeLongId {
        generic_id,
        generic_args,
    };
    TypeResolver {
        type_decl: vec![
            decl(GenericId::Felt252, vec![]),
            decl(GenericId::Array, vec![GenericArg::Type(0)]),
            decl(GenericId::Snapshot, vec![GenericArg::Type(1)]),
            decl(GenericId::Struct, vec![GenericArg::UserType, GenericArg::Type(2)]),
            decl(GenericId::Struct, vec![GenericArg::UserType, GenericArg::Type(3)]),
            decl(
                GenericId::Enum,
                vec![GenericArg::UserType, GenericArg::Type(4), GenericArg::Type(1)],
            ),
            decl(GenericId::GasBuiltin, vec![]),
            decl(GenericId::System, vec![]),
            decl(GenericId::RangeCheck, vec![]),
        ],
    }
}

fn ty(id: usize) -> TypeRef {
    TypeRef { id, debug_name: None }
}

#[test]
fn contract_artifact_is_assembled_from_the_compiled_parts() {
    let resolver = sample_resolver();
    let main = EntryPoint {
        entry_statement: 0,
        signature: FunctionSignature {
            param_types: vec![ty(8), ty(6), ty(7)],
            ret_types: vec![ty(5)],
        },
    };
    let statement_offsets: Vec<usize> = vec![0, 2];
    let instructions = vec![
        InstructionInfo { hints: vec![alloc_segment_hint()], op_size: 2 },
        InstructionInfo { hints: vec![], op_size: 1 },
    ];
    let bytecode = vec![BigInt::from(10), BigInt::from(-2), BigInt::from(30)];
    let function_starts: Vec<usize> = vec![0, 2];
    let artifact = cairo_compile(
        &resolver,
        &main,
        &statement_offsets,
        instructions,
        &bytecode,
        &function_starts,
        true,
    )
    .unwrap();
    assert_eq!(artifact.prime, stark_prime());
    assert_eq!(artifact.bytecode.len(), 3);
    assert_eq!(artifact.bytecode[0], Word { w0: 10, w1: 0, w2: 0, w3: 0 });
    assert_eq!(
        artifact.bytecode[1],
        Word { w0: 0xffffffffffffffff, w1: 0xffffffffffffffff, w2: 0xffffffffffffffff, w3: 0x0800000000000010 }
    );
    assert_eq!(artifact.main.offset, 0);
    assert_eq!(artifact.main.builtins, vec![String::from("range_check")]);
    assert_eq!(artifact.hints.len(), 1);
    assert_eq!(artifact.hints[0].0, 0);
    let pythonic = artifact.pythonic_hints.unwrap();
    assert_eq!(pythonic.len(), 1);
    assert_eq!(pythonic[0].0, 0);
    assert_eq!(
        artifact.bytecode_segment_lengths,
        Some(NestedIntList::Node(vec![NestedIntList::Leaf(2), NestedIntList::Leaf(1)]))
    );
}

#[test]
fn plain_artifact_is_assembled_without_a_calling_convention() {
    let instructions = vec![InstructionInfo { hints: vec![alloc_segment_hint()], op_size: 1 }];
    let bytecode = vec![BigInt::from(1), BigInt::from(2)];
    let function_starts: Vec<usize> = vec![0];
    let artifact = cairo_run_compile::cairo_compile(instructions, &bytecode, &function_starts, 5);
    assert_eq!(artifact.prime, stark_prime());
    assert_eq!(artifact.main, 5);
    assert_eq!(artifact.bytecode.len(), 2);
    assert_eq!(artifact.pythonic_hints.len(), 1);
    assert_eq!(
        artifact.bytecode_segment_lengths,
        Some(NestedIntList::Node(vec![NestedIntList::Leaf(2)]))
    );
}

#[test]
fn absent_optional_fields_are_skipped() {
    assert!(casm_packager::cairo_compile::skip_if_none::<NestedIntList>(&None));
    assert!(!cairo_run_compile::skip_if_none(&Some(NestedIntList::Leaf(0))));
}
