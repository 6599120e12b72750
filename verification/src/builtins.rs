use vstd::prelude::*;

use crate::hints::{project_hints, pythonic_of, render_pythonic_hints, spec_hint_map,
    total_op_size, InstructionInfo};
use crate::types::TypeRef;
use vstd::string::StringExecFns;

verus! {

/// Some parameter type carries the given debug name.
pub open spec fn has_param_named(params: Seq<TypeRef>, name: Seq<char>) -> bool {
    exists|i: int|
        0 <= i < params.len() && ((#[trigger] params[i]).debug_name matches Some(n) && n@ == name)
}

fn any_param_named(params: &Vec<TypeRef>, name: &str) -> (r: bool)
    ensures
        r == has_param_named(params@, name@),
{
    let wanted = String::from_str(name);
    let mut i: usize = 0;
    while i < params.len()
        invariant
            i <= params@.len(),
            wanted@ == name@,
            forall|k: int|
                0 <= k < i ==> !((#[trigger] params@[k]).debug_name matches Some(n) && n@
                    == name@),
        decreases params@.len() - i,
    {
        let mut hit = false;
        match &params[i].debug_name {
            Some(n) => {
                if *n == wanted {
                    hit = true;
                }
            },
            None => {},
        }
        if hit {
            proof {
                assert(0 <= i < params@.len() && ((params@[i as int]).debug_name matches Some(n)
                    && n@ == name@));
            }
            return true;
        }
        proof {
            assert(!((params@[i as int]).debug_name matches Some(n) && n@ == name@));
        }
        i += 1;
    }
    false
}

/// A one-name run when the builtin was found, an empty run otherwise.
pub open spec fn opt_name(found: bool, name: Seq<char>) -> Seq<Seq<char>> {
    if found {
        seq![name]
    } else {
        seq![]
    }
}

/// A one-pair run when the builtin was found, an empty run otherwise.
pub open spec fn opt_pair(found: bool, name: Seq<char>, offset: int) -> Seq<(Seq<char>, int)> {
    if found {
        seq![(name, offset)]
    } else {
        seq![]
    }
}

/// The builtin names a plain (single entry point) program requires, derived
/// purely from the debug names present among the parameter types. Discovery
/// scans a fixed candidate order and the final list is the reverse of the
/// discovery order, as the single-entry calling convention expects.
pub open spec fn plain_builtin_names(params: Seq<TypeRef>) -> Seq<Seq<char>> {
    opt_name(has_param_named(params, "Pedersen"@), "pedersen"@) + opt_name(
        has_param_named(params, "RangeCheck"@),
        "range_check"@,
    ) + opt_name(has_param_named(params, "Bitwise"@), "bitwise"@) + opt_name(
        has_param_named(params, "EcOp"@),
        "ec_op"@,
    ) + opt_name(has_param_named(params, "Poseidon"@), "poseidon"@)
}

/// The stack offset assigned to each discovered builtin: sequential values
/// starting at the fixed base 3, in discovery order.
pub open spec fn plain_builtin_offsets(params: Seq<TypeRef>) -> Seq<(Seq<char>, int)> {
    let f_pos = has_param_named(params, "Poseidon"@);
    let f_ec = has_param_named(params, "EcOp"@);
    let f_bw = has_param_named(params, "Bitwise"@);
    let f_rc = has_param_named(params, "RangeCheck"@);
    let f_pd = has_param_named(params, "Pedersen"@);
    let o_ec = 3 + (if f_pos {
        1int
    } else {
        0
    });
    let o_bw = o_ec + (if f_ec {
        1int
    } else {
        0
    });
    let o_rc = o_bw + (if f_bw {
        1int
    } else {
        0
    });
    let o_pd = o_rc + (if f_rc {
        1int
    } else {
        0
    });
    opt_pair(f_pos, "Poseidon"@, 3) + opt_pair(f_ec, "EcOp"@, o_ec) + opt_pair(f_bw, "Bitwise"@, o_bw)
        + opt_pair(f_rc, "RangeCheck"@, o_rc) + opt_pair(f_pd, "Pedersen"@, o_pd)
}

/// Derives the builtin list of a plain (single entry point) program from the
/// debug names among its parameter types, together with the stack offset each
/// discovered builtin occupies. No fixed suffix and no return-type shape is
/// enforced under this convention.
pub fn get_function_builtins(params: &Vec<TypeRef>) -> (r: (Vec<String>, Vec<(String, i16)>))
    ensures
        r.0@.map_values(|s: String| s@) == plain_builtin_names(params@),
        r.1@.map_values(|p: (String, i16)| (p.0@, p.1 as int)) == plain_builtin_offsets(params@),
{
    let f_pos = any_param_named(params, "Poseidon");
    let f_ec = any_param_named(params, "EcOp");
    let f_bw = any_param_named(params, "Bitwise");
    let f_rc = any_param_named(params, "RangeCheck");
    let f_pd = any_param_named(params, "Pedersen");

    let mut builtins: Vec<String> = Vec::new();
    if f_pd {
        builtins.push(String::from_str("pedersen"));
    }
    if f_rc {
        builtins.push(String::from_str("range_check"));
    }
    if f_bw {
        builtins.push(String::from_str("bitwise"));
    }
    if f_ec {
        builtins.push(String::from_str("ec_op"));
    }
    if f_pos {
        builtins.push(String::from_str("poseidon"));
    }

    let mut offsets: Vec<(String, i16)> = Vec::new();
    let mut current_offset: i16 = 3;
    if f_pos {
        offsets.push((String::from_str("Poseidon"), current_offset));
        current_offset += 1;
    }
    if f_ec {
        offsets.push((String::from_str("EcOp"), current_offset));
        current_offset += 1;
    }
    if f_bw {
        offsets.push((String::from_str("Bitwise"), current_offset));
        current_offset += 1;
    }
    if f_rc {
        offsets.push((String::from_str("RangeCheck"), current_offset));
        current_offset += 1;
    }
    if f_pd {
        offsets.push((String::from_str("Pedersen"), current_offset));
    }
    proof {
        assert(builtins@.map_values(|s: String| s@) =~= plain_builtin_names(params@));
        assert(offsets@.map_values(|p: (String, i16)| (p.0@, p.1 as int)) =~= plain_builtin_offsets(
            params@,
        ));
    }
    (builtins, offsets)
}

/// Builds the sparse program-counter dictionary of textual hints: the
/// offsets and per-offset hint counts follow the verified projection
/// exactly, and each entry holds the rendered text of the corresponding
/// hint, in hint order.
pub fn build_hints_dict(instructions: Vec<InstructionInfo>) -> (r: Vec<(usize, Vec<String>)>)
    requires
        total_op_size(instructions@) <= usize::MAX,
    ensures
        r@.len() == spec_hint_map(instructions@, 0).len(),
        forall|i: int|
            0 <= i < r@.len() ==> (#[trigger] r@[i]).0 == spec_hint_map(instructions@, 0)[i].0
                && r@[i].1@.len() == spec_hint_map(instructions@, 0)[i].1.len(),
        forall|i: int, j: int|
            0 <= i < r@.len() && 0 <= j < r@[i].1@.len() ==> (#[trigger] r@[i].1@[j])@
                == pythonic_of(spec_hint_map(instructions@, 0)[i].1[j]),
{
    let ghost all = instructions@;
    let projected = project_hints(instructions);
    let r = render_pythonic_hints(&projected);
    proof {
        let m = projected@.map_values(
            |e: (usize, Vec<cairo_lang_casm::hints::Hint>)| (e.0 as int, e.1@),
        );
        assert(forall|i: int|
            0 <= i < r@.len() ==> (#[trigger] r@[i]).0 == m[i].0 && r@[i].1@.len()
                == m[i].1.len());
        assert forall|i: int, j: int|
            0 <= i < r@.len() && 0 <= j < r@[i].1@.len() implies (#[trigger] r@[i].1@[j])@
            == pythonic_of(spec_hint_map(all, 0)[i].1[j]) by {
            assert(r@[i].1@[j]@ == pythonic_of(projected@[i].1@[j]));
            assert(m[i].1 == projected@[i].1@);
        }
    }
    r
}

} // verus!
