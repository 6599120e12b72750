use casm_packager::type_resolver::TypeResolver;
use casm_packager::types::{ConcreteTypeLongId, GenericArg, GenericId};

/// A table holding the shapes the resolver distinguishes:
///   0: felt252
///   1: Array<felt252>
///   2: Snapshot<Array<felt252>>
///   3: Span<felt252> (one-field struct wrapping the snapshot)
///   4: (Span<felt252>,) (one-field result tuple)
///   5: Result enum with ok = 4, err = 1 (legacy felt-array error)
///   6: GasBuiltin
///   7: System
///   8: RangeCheck
///   9: Pedersen
///  10: plain two-field struct (felt252, felt252)
///  11: (panic_marker, Span<felt252>) error struct
///  12: Result enum with ok = 4, err = 11 (current error convention)
fn sample_resolver() -> TypeResolver {
    let decl = |generic_id: GenericId, generic_args: Vec<GenericArg>| ConcreteTypeLongId {
        generic_id,
        generic_args,
    };
    TypeResolver {
        type_decl: vec![
            decl(GenericId::Felt252, vec![]),
            decl(GenericId::Array, vec![GenericArg::Type(0)]),
            decl(GenericId::Snapshot, vec![GenericArg::Type(1)]),
            decl(GenericId::Struct, vec![GenericArg::UserType, GenericArg::Type(2)]),
            decl(GenericId::Struct, vec![GenericArg::UserType, GenericArg::Type(3)]),
            decl(
                GenericId::Enum,
                vec![GenericArg::UserType, GenericArg::Type(4), GenericArg::Type(1)],
            ),
            decl(GenericId::GasBuiltin, vec![]),
            decl(GenericId::System, vec![]),
            decl(GenericId::RangeCheck, vec![]),
            decl(GenericId::Pedersen, vec![]),
            decl(
                GenericId::Struct,
                vec![GenericArg::UserType, GenericArg::Type(0), GenericArg::Type(0)],
            ),
            decl(
                GenericId::Struct,
                vec![GenericArg::UserType, GenericArg::Type(0), GenericArg::Type(3)],
            ),
            decl(
                GenericId::Enum,
                vec![GenericArg::UserType, GenericArg::Type(4), GenericArg::Type(11)],
            ),
        ],
    }
}

#[test]
fn felt252_array_is_recognized_and_is_not_a_span() {
    let r = sample_resolver();
    assert!(r.is_felt252_array(1));
    assert!(!r.is_felt252_span(1));
    assert!(!r.is_felt252_array_snapshot(1));
}

#[test]
fn span_of_snapshot_of_array_is_recognized() {
    let r = sample_resolver();
    assert!(r.is_felt252_array_snapshot(2));
    assert!(r.is_felt252_span(3));
    assert!(!r.is_felt252_array(3));
}

#[test]
fn extract_result_ty_recovers_the_constructed_pair() {
    let r = sample_resolver();
    assert_eq!(r.extract_result_ty(5), Some((4, 1)));
    assert_eq!(r.extract_result_ty(12), Some((4, 11)));
    assert_eq!(r.extract_result_ty(10), None);
    assert_eq!(r.extract_result_ty(1), None);
}

#[test]
fn extract_struct_probes() {
    let r = sample_resolver();
    assert_eq!(r.extract_struct1(4), Some(3));
    assert_eq!(r.extract_struct1(10), None);
    assert_eq!(r.extract_struct2(10), Some((0, 0)));
    assert_eq!(r.extract_struct2(4), None);
}

#[test]
fn valid_return_type_with_legacy_error_branch() {
    let r = sample_resolver();
    assert!(r.is_valid_entry_point_return_type(5));
}

#[test]
fn valid_return_type_with_current_error_branch() {
    let r = sample_resolver();
    assert!(r.is_valid_entry_point_return_type(12));
}

#[test]
fn plain_struct_is_not_a_valid_return_type() {
    let r = sample_resolver();
    assert!(!r.is_valid_entry_point_return_type(10));
    assert!(!r.is_valid_entry_point_return_type(1));
}

#[test]
fn get_long_id_and_generic_id_resolve_by_index() {
    let r = sample_resolver();
    assert_eq!(*r.get_generic_id(0), GenericId::Felt252);
    assert_eq!(*r.get_generic_id(7), GenericId::System);
    assert_eq!(r.get_long_id(1).generic_args, vec![GenericArg::Type(0)]);
}
