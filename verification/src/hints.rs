use vstd::prelude::*;

use cairo_lang_casm::hints::{CoreHint, CoreHintBase, ExternalHint, Hint, StarknetHint};
use cairo_lang_casm::operand::ResOperand;

verus! {

/// A machine hint attached to one instruction, exactly as the external
/// instruction selection produced it. Opaque here: the packaging step only
/// moves hints to their program-counter offsets and renders them through the
/// producer's own textual projection.
#[verifier::external_type_specification]
#[verifier::external_body]
pub struct ExHint(cairo_lang_casm::hints::Hint);

/// What the packaging step reads of one assembled instruction: the hints
/// embedded in it and the number of bytecode words its encoding occupies.
pub struct InstructionInfo {
    pub hints: Vec<cairo_lang_casm::hints::Hint>,
    pub op_size: usize,
}

/// The total number of bytecode words the instruction sequence occupies.
pub open spec fn total_op_size(instrs: Seq<InstructionInfo>) -> int
    decreases instrs.len(),
{
    if instrs.len() == 0 {
        0
    } else {
        instrs[0].op_size + total_op_size(instrs.drop_first())
    }
}

pub proof fn lemma_total_op_size_nonneg(instrs: Seq<InstructionInfo>)
    ensures
        total_op_size(instrs) >= 0,
    decreases instrs.len(),
{
    if instrs.len() > 0 {
        lemma_total_op_size_nonneg(instrs.drop_first());
    }
}

/// The sparse program-counter map of an instruction sequence whose first
/// instruction sits at offset `pc`: one entry per instruction that carries
/// hints, keyed by the offset where its encoding starts.
pub open spec fn spec_hint_map(instrs: Seq<InstructionInfo>, pc: int) -> Seq<
    (int, Seq<cairo_lang_casm::hints::Hint>),
>
    decreases instrs.len(),
{
    if instrs.len() == 0 {
        seq![]
    } else {
        let rest = spec_hint_map(instrs.drop_first(), pc + instrs[0].op_size);
        if instrs[0].hints@.len() > 0 {
            seq![(pc, instrs[0].hints@)] + rest
        } else {
            rest
        }
    }
}

/// Projects the instruction sequence onto its sparse program-counter map: a
/// running counter starts at zero and advances by each instruction's word
/// size; an instruction with hints contributes them at the counter's value,
/// one without contributes no entry.
pub fn project_hints(instructions: Vec<InstructionInfo>) -> (r: Vec<
    (usize, Vec<cairo_lang_casm::hints::Hint>),
>)
    requires
        total_op_size(instructions@) <= usize::MAX,
    ensures
        r@.map_values(
            |e: (usize, Vec<cairo_lang_casm::hints::Hint>)| (e.0 as int, e.1@),
        ) == spec_hint_map(instructions@, 0),
{
    let ghost all = instructions@;
    let mut rest = instructions;
    let mut out: Vec<(usize, Vec<cairo_lang_casm::hints::Hint>)> = Vec::new();
    let mut pc: usize = 0;
    proof {
        assert(out@.map_values(
            |e: (usize, Vec<cairo_lang_casm::hints::Hint>)| (e.0 as int, e.1@),
        ) + spec_hint_map(rest@, pc as int) =~= spec_hint_map(all, 0));
    }
    while rest.len() > 0
        invariant
            pc + total_op_size(rest@) <= usize::MAX,
            out@.map_values(
                |e: (usize, Vec<cairo_lang_casm::hints::Hint>)| (e.0 as int, e.1@),
            ) + spec_hint_map(rest@, pc as int) == spec_hint_map(all, 0),
        decreases rest@.len(),
    {
        let ghost rest0 = rest@;
        let instr = rest.remove(0);
        proof {
            assert(rest@ =~= rest0.drop_first());
            lemma_total_op_size_nonneg(rest@);
        }
        let has_hints = instr.hints.len() > 0;
        if has_hints {
            let ghost out0 = out@;
            out.push((pc, instr.hints));
            proof {
                assert(out@.map_values(
                    |e: (usize, Vec<cairo_lang_casm::hints::Hint>)| (e.0 as int, e.1@),
                ) =~= out0.map_values(
                    |e: (usize, Vec<cairo_lang_casm::hints::Hint>)| (e.0 as int, e.1@),
                ).push((pc as int, instr.hints@)));
                assert(out0.map_values(
                    |e: (usize, Vec<cairo_lang_casm::hints::Hint>)| (e.0 as int, e.1@),
                ).push((pc as int, instr.hints@)) + spec_hint_map(rest@, pc + instr.op_size)
                    =~= out0.map_values(
                    |e: (usize, Vec<cairo_lang_casm::hints::Hint>)| (e.0 as int, e.1@),
                ) + (seq![(pc as int, instr.hints@)] + spec_hint_map(rest@, pc + instr.op_size)));
            }
        }
        pc = pc + instr.op_size;
    }
    proof {
        assert(spec_hint_map(rest@, pc as int) =~= seq![]);
        assert(out@.map_values(
            |e: (usize, Vec<cairo_lang_casm::hints::Hint>)| (e.0 as int, e.1@),
        ) + spec_hint_map(rest@, pc as int) =~= out@.map_values(
            |e: (usize, Vec<cairo_lang_casm::hints::Hint>)| (e.0 as int, e.1@),
        ));
    }
    out
}

/// The textual form the library emits for one hint: the interpreter-facing
/// pythonic projection where the hint has one, its structural form otherwise.
/// A function of the hint value alone, in either case.
pub uninterp spec fn pythonic_of(h: cairo_lang_casm::hints::Hint) -> Seq<char>;

/// A core machine hint, declared so that the rendering guard below can take
/// one; opaque to the verifier like the hint type itself.
#[verifier::external_type_specification]
#[verifier::external_body]
pub struct ExCoreHint(cairo_lang_casm::hints::CoreHint);

/// Relies on the shape of cairo_lang_casm's pythonic rendering of core
/// hints: its address-position renderer refuses an operand held as an
/// immediate. True exactly of the core hints whose pythonic projection
/// returns. Makes no outside call; it inspects outside values that verified
/// code cannot read.
#[verifier::external_body]
fn core_hint_has_pythonic_form(c: &CoreHint) -> bool {
    let ok = |op: &ResOperand| !(matches!(op, ResOperand::Immediate(_)));
    match c {
        CoreHint::AllocFelt252Dict { segment_arena_ptr: p }
        | CoreHint::Felt252DictEntryInit { dict_ptr: p, .. }
        | CoreHint::Felt252DictEntryUpdate { dict_ptr: p, .. }
        | CoreHint::GetCurrentAccessIndex { range_check_ptr: p }
        | CoreHint::GetSegmentArenaIndex { dict_end_ptr: p, .. }
        | CoreHint::InitSquashData { dict_accesses: p, .. }
        | CoreHint::AssertLeFindSmallArcs { range_check_ptr: p, .. } => ok(p),
        CoreHint::TestLessThanOrEqualAddress { lhs: a, rhs: b, .. }
        | CoreHint::DebugPrint { start: a, end: b }
        | CoreHint::EvalCircuit { add_mod_builtin: a, mul_mod_builtin: b, .. } => ok(a) && ok(b),
        _ => true,
    }
}

/// Relies on the shape of cairo_lang_casm's pythonic rendering: a deprecated
/// core hint carries no pythonic form at all, and the address-position
/// renderer refuses an operand held as an immediate. True exactly of the
/// hints on which `get_pythonic_hint` returns. Makes no outside call; it
/// inspects outside values that verified code cannot read.
#[verifier::external_body]
fn has_pythonic_form(h: &cairo_lang_casm::hints::Hint) -> bool {
    let ok = |op: &ResOperand| !(matches!(op, ResOperand::Immediate(_)));
    match h {
        Hint::Core(CoreHintBase::Deprecated(_)) => false,
        Hint::Core(CoreHintBase::Core(c)) => core_hint_has_pythonic_form(c),
        Hint::Starknet(StarknetHint::SystemCall { system: p }) => ok(p),
        Hint::Starknet(_) => true,
        Hint::External(ExternalHint::AddRelocationRule { src: a, dst: b })
        | Hint::External(ExternalHint::AddMarker { start: a, end: b }) => ok(a) && ok(b),
        Hint::External(_) => true,
    }
}

/// Relies on cairo_lang_casm's `PythonicHint::get_pythonic_hint`: the
/// textual, interpreter-facing projection of one hint, a function of the
/// hint value alone. A hint on which that call would not return (per
/// `has_pythonic_form`) is rendered by its structural form instead, likewise
/// a function of the value alone.
#[verifier::external_body]
pub(crate) fn hint_to_pythonic(h: &cairo_lang_casm::hints::Hint) -> (r: String)
    ensures
        r@ == pythonic_of(*h),
{
    if has_pythonic_form(h) {
        cairo_lang_casm::hints::PythonicHint::get_pythonic_hint(h)
    } else {
        h.representing_string()
    }
}

/// Renders each entry of a program-counter hint map into its textual form:
/// the offsets are kept, and each hint becomes its rendered text, in order.
pub fn render_pythonic_hints(hints: &Vec<(usize, Vec<cairo_lang_casm::hints::Hint>)>) -> (r: Vec<
    (usize, Vec<String>),
>)
    ensures
        r@.len() == hints@.len(),
        forall|i: int|
            0 <= i < r@.len() ==> (#[trigger] r@[i]).0 == hints@[i].0 && r@[i].1@.len()
                == hints@[i].1@.len(),
        forall|i: int, j: int|
            0 <= i < r@.len() && 0 <= j < r@[i].1@.len() ==> (#[trigger] r@[i].1@[j])@
                == pythonic_of(hints@[i].1@[j]),
{
    let mut out: Vec<(usize, Vec<String>)> = Vec::new();
    let mut i: usize = 0;
    while i < hints.len()
        invariant
            i <= hints@.len(),
            out@.len() == i,
            forall|k: int|
                0 <= k < out@.len() ==> (#[trigger] out@[k]).0 == hints@[k].0 && out@[k].1@.len()
                    == hints@[k].1@.len(),
            forall|k: int, j: int|
                0 <= k < out@.len() && 0 <= j < out@[k].1@.len() ==> (#[trigger] out@[k].1@[j])@
                    == pythonic_of(hints@[k].1@[j]),
        decreases hints@.len() - i,
    {
        let entry = &hints[i];
        let mut rendered: Vec<String> = Vec::new();
        let mut j: usize = 0;
        while j < entry.1.len()
            invariant
                j <= entry.1@.len(),
                rendered@.len() == j,
                forall|k: int|
                    0 <= k < rendered@.len() ==> (#[trigger] rendered@[k])@ == pythonic_of(
                        entry.1@[k],
                    ),
            decreases entry.1@.len() - j,
        {
            rendered.push(hint_to_pythonic(&entry.1[j]));
            j += 1;
        }
        out.push((entry.0, rendered));
        i += 1;
    }
    out
}

} // verus!
