use casm_packager::builtins::get_function_builtins;
use casm_packager::cairo_compile::{builtin_name, derive_entry_point};
use casm_packager::error::EntryPointError;
use casm_packager::type_resolver::TypeResolver;
use casm_packager::types::{ConcreteTypeLongId, FunctionSignature, GenericArg, GenericId, TypeRef};

/// The same table as the resolver tests use, plus an unrecognized
/// constructor at index 13.
fn sample_resolver() -> TypeResolver {
    let decl = |generic_id: GenericId, generic_args: Vec<GenericArg>| ConcreteTypeLongId {
        generic_id,
        generic_args,
    };
    TypeResolver {
        type_decl: vec![
            decl(GenericId::Felt252, vec![]),
            decl(GenericId::Array, vec![GenericArg::Type(0)]),
            decl(GenericId::Snapshot, vec![GenericArg::Type(1)]),
            decl(GenericId::Struct, vec![GenericArg::UserType, GenericArg::Type(2)]),
            decl(GenericId::Struct, vec![GenericArg::UserType, GenericArg::Type(3)]),
            decl(
                GenericId::Enum,
                vec![GenericArg::UserType, GenericArg::Type(4), GenericArg::Type(1)],
            ),
            decl(GenericId::GasBuiltin, vec![]),
            decl(GenericId::System, vec![]),
            decl(GenericId::RangeCheck, vec![]),
            decl(GenericId::Pedersen, vec![]),
            decl(
                GenericId::Struct,
                vec![GenericArg::UserType, GenericArg::Type(0), GenericArg::Type(0)],
            ),
            decl(
                GenericId::Struct,
                vec![GenericArg::UserType, GenericArg::Type(0), GenericArg::Type(3)],
            ),
            decl(
                GenericId::Enum,
                vec![GenericArg::UserType, GenericArg::Type(4), GenericArg::Type(11)],
            ),
            decl(GenericId::Other(String::from("MyBuiltin")), vec![]),
        ],
    }
}

fn ty(id: usize) -> TypeRef {
    TypeRef { id, debug_name: None }
}

#[test]
fn range_check_and_pedersen_before_gas_and_system_derive_in_order() {
    let r = sample_resolver();
    let signature = FunctionSignature {
        param_types: vec![ty(8), ty(9), ty(6), ty(7)],
        ret_types: vec![ty(5)],
    };
    let offsets: Vec<usize> = vec![7];
    let ep = derive_entry_point(&r, &signature, 0, &offsets, true).unwrap();
    assert_eq!(ep.offset, 7);
    assert_eq!(
        ep.builtins,
        vec![String::from("range_check"), String::from("pedersen")]
    );
}

#[test]
fn derivation_is_deterministic_across_runs() {
    let r = sample_resolver();
    let signature = FunctionSignature {
        param_types: vec![ty(8), ty(9), ty(6), ty(7)],
        ret_types: vec![ty(5)],
    };
    let offsets: Vec<usize> = vec![3, 11];
    let first = derive_entry_point(&r, &signature, 1, &offsets, true).unwrap();
    let second = derive_entry_point(&r, &signature, 1, &offsets, true).unwrap();
    assert_eq!(first, second);
    assert_eq!(first.offset, 11);
}

#[test]
fn swapped_gas_and_system_suffix_is_rejected() {
    let r = sample_resolver();
    let signature = FunctionSignature {
        param_types: vec![ty(8), ty(7), ty(6)],
        ret_types: vec![ty(5)],
    };
    let offsets: Vec<usize> = vec![0];
    assert_eq!(
        derive_entry_point(&r, &signature, 0, &offsets, true),
        Err(EntryPointError::InvalidEntryPointSignatureWrongBuiltinsOrder)
    );
}

#[test]
fn too_few_parameters_is_a_wrong_order_rejection() {
    let r = sample_resolver();
    let signature = FunctionSignature { param_types: vec![ty(7)], ret_types: vec![ty(5)] };
    let offsets: Vec<usize> = vec![0];
    assert_eq!(
        derive_entry_point(&r, &signature, 0, &offsets, true),
        Err(EntryPointError::InvalidEntryPointSignatureWrongBuiltinsOrder)
    );
}

#[test]
fn plain_struct_return_type_is_rejected() {
    let r = sample_resolver();
    let signature = FunctionSignature {
        param_types: vec![ty(8), ty(6), ty(7)],
        ret_types: vec![ty(10)],
    };
    let offsets: Vec<usize> = vec![0];
    assert_eq!(
        derive_entry_point(&r, &signature, 0, &offsets, true),
        Err(EntryPointError::InvalidEntryPointReturnType)
    );
}

#[test]
fn unrecognized_builtin_is_rejected_under_the_strict_policy() {
    let r = sample_resolver();
    let signature = FunctionSignature {
        param_types: vec![ty(13), ty(6), ty(7)],
        ret_types: vec![ty(5)],
    };
    let offsets: Vec<usize> = vec![0];
    assert_eq!(
        derive_entry_point(&r, &signature, 0, &offsets, true),
        Err(EntryPointError::InvalidBuiltinType(13))
    );
}

#[test]
fn unrecognized_builtin_is_named_under_the_permissive_policy() {
    let r = sample_resolver();
    let signature = FunctionSignature {
        param_types: vec![ty(13), ty(6), ty(7)],
        ret_types: vec![ty(5)],
    };
    let offsets: Vec<usize> = vec![4];
    let ep = derive_entry_point(&r, &signature, 0, &offsets, false).unwrap();
    assert_eq!(ep.builtins, vec![String::from("my_builtin")]);
}

#[test]
fn missing_entry_statement_offset_is_rejected() {
    let r = sample_resolver();
    let signature = FunctionSignature {
        param_types: vec![ty(6), ty(7)],
        ret_types: vec![ty(5)],
    };
    let offsets: Vec<usize> = vec![0];
    assert_eq!(
        derive_entry_point(&r, &signature, 3, &offsets, true),
        Err(EntryPointError::EntryPoint)
    );
}

#[test]
fn builtin_name_renders_unknown_constructors_in_snake_case() {
    assert_eq!(builtin_name(&GenericId::RangeCheck), String::from("range_check"));
    assert_eq!(
        builtin_name(&GenericId::Other(String::from("FooBar"))),
        String::from("foo_bar")
    );
}

#[test]
fn plain_program_builtins_are_discovered_by_debug_name() {
    let named = |name: &str| TypeRef { id: 0, debug_name: Some(String::from(name)) };
    let params = vec![named("RangeCheck"), named("Pedersen"), named("GasBuiltin")];
    let (builtins, offsets) = get_function_builtins(&params);
    assert_eq!(builtins, vec![String::from("pedersen"), String::from("range_check")]);
    assert_eq!(
        offsets,
        vec![(String::from("RangeCheck"), 3i16), (String::from("Pedersen"), 4i16)]
    );
}

#[test]
fn plain_program_without_recognized_names_has_no_builtins() {
    let params = vec![TypeRef { id: 0, debug_name: None }];
    let (builtins, offsets) = get_function_builtins(&params);
    assert!(builtins.is_empty());
    assert!(offsets.is_empty());
}
