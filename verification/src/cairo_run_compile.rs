use vstd::prelude::*;

use crate::builtins::build_hints_dict;
use crate::cairo_compile::{current_compiler_version, spec_compiler_version};
use crate::hints::{pythonic_of, spec_hint_map, total_op_size, InstructionInfo};
use crate::segment::{compute_bytecode_segment_lengths, leaf_sum, segmentable, spec_segment_leaves,
    NestedIntList};
use crate::word::{prime_int, reduce_bytecode, stark_prime, val_of, Word};

verus! {

/// Returns true exactly when the optional field is absent; used to decide
/// whether an optional artifact field is dropped from the serialized record.
pub fn skip_if_none<T>(opt_field: &Option<T>) -> (r: bool)
    ensures
        r == (opt_field is None),
{
    opt_field.is_none()
}

/// The finalized artifact of a plain (single entry point) program: the field
/// prime, the wrapped compiler's version, the reduced bytecode, the optional
/// segmentation, the rendered hints keyed by program-counter offset, and the
/// entry statement index of the designated main function.
#[derive(Debug)]
pub struct CasmProgramClass {
    pub prime: Word,
    pub compiler_version: String,
    pub bytecode: Vec<Word>,
    pub bytecode_segment_lengths: Option<NestedIntList>,
    pub pythonic_hints: Vec<(usize, Vec<String>)>,
    pub main: usize,
}

/// Assembles the final artifact of a plain program: reduces every bytecode
/// word into the field, builds the rendered program-counter hint dictionary,
/// computes the optional segmentation (absent rather than fatal when not
/// computable), and records the main function's entry statement index. No
/// calling convention is derived under this convention.
pub fn cairo_compile(
    instructions: Vec<InstructionInfo>,
    bytecode: &Vec<num_bigint::BigInt>,
    function_starts: &Vec<usize>,
    main_entry_statement: usize,
) -> (res: CasmProgramClass)
    requires
        total_op_size(instructions@) <= usize::MAX,
    ensures
        res.prime.val() == prime_int(),
        res.compiler_version@ == spec_compiler_version(),
        res.bytecode@.len() == bytecode@.len(),
        forall|i: int|
            0 <= i < res.bytecode@.len() ==> (#[trigger] res.bytecode@[i]).reduced()
                && res.bytecode@[i].val() == val_of(bytecode@[i]) % prime_int(),
        res.pythonic_hints@.len() == spec_hint_map(instructions@, 0).len(),
        forall|i: int|
            0 <= i < res.pythonic_hints@.len() ==> (#[trigger] res.pythonic_hints@[i]).0
                == spec_hint_map(instructions@, 0)[i].0 && res.pythonic_hints@[i].1@.len()
                == spec_hint_map(instructions@, 0)[i].1.len(),
        forall|i: int, j: int|
            0 <= i < res.pythonic_hints@.len() && 0 <= j < res.pythonic_hints@[i].1@.len() ==> (
            #[trigger] res.pythonic_hints@[i].1@[j])@ == pythonic_of(
                spec_hint_map(instructions@, 0)[i].1[j],
            ),
        res.bytecode_segment_lengths is Some <==> (bytecode@.len() == 0 || segmentable(
            function_starts@,
            bytecode@.len() as int,
        )),
        res.bytecode_segment_lengths matches Some(nil) ==> leaf_sum(nil) == bytecode@.len(),
        bytecode@.len() != 0 && segmentable(function_starts@, bytecode@.len() as int) ==> (
        res.bytecode_segment_lengths matches Some(nil) && nil matches NestedIntList::Node(children)
            && children@ == spec_segment_leaves(function_starts@, bytecode@.len() as int)),
        res.main == main_entry_statement,
{
    let reduced = reduce_bytecode(bytecode);
    let segment_lengths = compute_bytecode_segment_lengths(function_starts, reduced.len());
    let pythonic_hints = build_hints_dict(instructions);
    let compiler_version = current_compiler_version();
    CasmProgramClass {
        prime: stark_prime(),
        compiler_version,
        bytecode: reduced,
        bytecode_segment_lengths: segment_lengths,
        pythonic_hints,
        main: main_entry_statement,
    }
}

} // verus!
