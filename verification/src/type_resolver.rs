use vstd::prelude::*;

use crate::types::{arg_wf, decl_wf, ConcreteTypeLongId, GenericArg, GenericId};

verus! {

/// Context for resolving types: the program's type-declaration table, indexed
/// by the dense numeric type id.
pub struct TypeResolver {
    pub type_decl: Vec<ConcreteTypeLongId>,
}

impl TypeResolver {
    /// The declaration table as a sequence.
    pub open spec fn table(self) -> Seq<ConcreteTypeLongId> {
        self.type_decl@
    }

    /// Every cross-reference among generic arguments stays inside the table.
    /// All traversals below rely on this holding of valid input; a reference out of
    /// range is malformed input and rejected by the caller's contract.
    pub open spec fn wf(self) -> bool {
        forall|i: int|
            0 <= i < self.table().len() ==> decl_wf(
                #[trigger] self.table()[i],
                self.table().len() as int,
            )
    }

    pub open spec fn spec_long_id(self, ty: int) -> ConcreteTypeLongId {
        self.table()[ty]
    }

    pub fn get_long_id(&self, type_id: usize) -> (r: &ConcreteTypeLongId)
        requires
            type_id < self.table().len(),
        ensures
            *r == self.spec_long_id(type_id as int),
    {
        &self.type_decl[type_id]
    }

    pub open spec fn spec_generic_id(self, ty: int) -> GenericId {
        self.spec_long_id(ty).generic_id
    }

    pub fn get_generic_id(&self, type_id: usize) -> (r: &GenericId)
        requires
            type_id < self.table().len(),
        ensures
            *r == self.spec_generic_id(type_id as int),
    {
        &self.get_long_id(type_id).generic_id
    }

    /// The type is the array constructor applied to one type argument whose
    /// own constructor is the field-element primitive.
    pub open spec fn spec_is_felt252_array(self, ty: int) -> bool {
        let d = self.spec_long_id(ty);
        &&& d.generic_id is Array
        &&& d.generic_args@.len() == 1
        &&& d.generic_args@[0] is Type
        &&& self.spec_generic_id(d.generic_args@[0]->Type_0 as int) is Felt252
    }

    pub fn is_felt252_array(&self, ty: usize) -> (r: bool)
        requires
            self.wf(),
            ty < self.table().len(),
        ensures
            r == self.spec_is_felt252_array(ty as int),
    {
        let long_id = self.get_long_id(ty);
        if !(matches!(long_id.generic_id, GenericId::Array)) {
            return false;
        }
        if long_id.generic_args.len() != 1 {
            return false;
        }
        proof {
            assert(arg_wf(self.table()[ty as int].generic_args@[0], self.table().len() as int));
        }
        match &long_id.generic_args[0] {
            GenericArg::Type(element_ty) => {
                matches!(self.get_generic_id(*element_ty), GenericId::Felt252)
            },
            _ => false,
        }
    }

    /// The type is the snapshot constructor wrapping a field-element array.
    pub open spec fn spec_is_felt252_array_snapshot(self, ty: int) -> bool {
        let d = self.spec_long_id(ty);
        &&& d.generic_id is Snapshot
        &&& d.generic_args@.len() == 1
        &&& d.generic_args@[0] is Type
        &&& self.spec_is_felt252_array(d.generic_args@[0]->Type_0 as int)
    }

    pub fn is_felt252_array_snapshot(&self, ty: usize) -> (r: bool)
        requires
            self.wf(),
            ty < self.table().len(),
        ensures
            r == self.spec_is_felt252_array_snapshot(ty as int),
    {
        let long_id = self.get_long_id(ty);
        if !(matches!(long_id.generic_id, GenericId::Snapshot)) {
            return false;
        }
        if long_id.generic_args.len() != 1 {
            return false;
        }
        proof {
            assert(arg_wf(self.table()[ty as int].generic_args@[0], self.table().len() as int));
        }
        match &long_id.generic_args[0] {
            GenericArg::Type(inner_ty) => self.is_felt252_array(*inner_ty),
            _ => false,
        }
    }

    /// The type is a one-field struct (a user-type discriminant and one type
    /// argument) wrapping a snapshot of a field-element array: a span.
    pub open spec fn spec_is_felt252_span(self, ty: int) -> bool {
        let d = self.spec_long_id(ty);
        &&& d.generic_id is Struct
        &&& d.generic_args@.len() == 2
        &&& d.generic_args@[0] is UserType
        &&& d.generic_args@[1] is Type
        &&& self.spec_is_felt252_array_snapshot(d.generic_args@[1]->Type_0 as int)
    }

    pub fn is_felt252_span(&self, ty: usize) -> (r: bool)
        requires
            self.wf(),
            ty < self.table().len(),
        ensures
            r == self.spec_is_felt252_span(ty as int),
    {
        let long_id = self.get_long_id(ty);
        if !(matches!(long_id.generic_id, GenericId::Struct)) {
            return false;
        }
        if long_id.generic_args.len() != 2 {
            return false;
        }
        if !(matches!(long_id.generic_args[0], GenericArg::UserType)) {
            return false;
        }
        proof {
            assert(arg_wf(self.table()[ty as int].generic_args@[1], self.table().len() as int));
        }
        match &long_id.generic_args[1] {
            GenericArg::Type(element_ty) => self.is_felt252_array_snapshot(*element_ty),
            _ => false,
        }
    }

    /// The two variant types of a two-variant tagged union: generic arguments
    /// `(UserType, Type(ok), Type(err))` under the enum constructor.
    pub open spec fn spec_extract_result_ty(self, ty: int) -> Option<(usize, usize)> {
        let d = self.spec_long_id(ty);
        if {
            &&& d.generic_id is Enum
            &&& d.generic_args@.len() == 3
            &&& d.generic_args@[0] is UserType
            &&& d.generic_args@[1] is Type
            &&& d.generic_args@[2] is Type
        } {
            Some((d.generic_args@[1]->Type_0, d.generic_args@[2]->Type_0))
        } else {
            None
        }
    }

    pub fn extract_result_ty(&self, ty: usize) -> (r: Option<(usize, usize)>)
        requires
            self.wf(),
            ty < self.table().len(),
        ensures
            r == self.spec_extract_result_ty(ty as int),
            r matches Some((ok, err)) ==> ok < self.table().len() && err < self.table().len(),
    {
        let long_id = self.get_long_id(ty);
        if !(matches!(long_id.generic_id, GenericId::Enum)) {
            return None;
        }
        if long_id.generic_args.len() != 3 {
            return None;
        }
        if !(matches!(long_id.generic_args[0], GenericArg::UserType)) {
            return None;
        }
        proof {
            assert(arg_wf(self.table()[ty as int].generic_args@[1], self.table().len() as int));
            assert(arg_wf(self.table()[ty as int].generic_args@[2], self.table().len() as int));
        }
        match (&long_id.generic_args[1], &long_id.generic_args[2]) {
            (GenericArg::Type(ok_ty), GenericArg::Type(err_ty)) => Some((*ok_ty, *err_ty)),
            _ => None,
        }
    }

    /// The single field type of a one-field struct `(T,)`.
    pub open spec fn spec_extract_struct1(self, ty: int) -> Option<usize> {
        let d = self.spec_long_id(ty);
        if {
            &&& d.generic_id is Struct
            &&& d.generic_args@.len() == 2
            &&& d.generic_args@[0] is UserType
            &&& d.generic_args@[1] is Type
        } {
            Some(d.generic_args@[1]->Type_0)
        } else {
            None
        }
    }

    pub fn extract_struct1(&self, ty: usize) -> (r: Option<usize>)
        requires
            self.wf(),
            ty < self.table().len(),
        ensures
            r == self.spec_extract_struct1(ty as int),
            r matches Some(t0) ==> t0 < self.table().len(),
    {
        let long_id = self.get_long_id(ty);
        if !(matches!(long_id.generic_id, GenericId::Struct)) {
            return None;
        }
        if long_id.generic_args.len() != 2 {
            return None;
        }
        if !(matches!(long_id.generic_args[0], GenericArg::UserType)) {
            return None;
        }
        proof {
            assert(arg_wf(self.table()[ty as int].generic_args@[1], self.table().len() as int));
        }
        match &long_id.generic_args[1] {
            GenericArg::Type(ty0) => Some(*ty0),
            _ => None,
        }
    }

    /// The two field types of a two-field struct `(T0, T1)`.
    pub open spec fn spec_extract_struct2(self, ty: int) -> Option<(usize, usize)> {
        let d = self.spec_long_id(ty);
        if {
            &&& d.generic_id is Struct
            &&& d.generic_args@.len() == 3
            &&& d.generic_args@[0] is UserType
            &&& d.generic_args@[1] is Type
            &&& d.generic_args@[2] is Type
        } {
            Some((d.generic_args@[1]->Type_0, d.generic_args@[2]->Type_0))
        } else {
            None
        }
    }

    pub fn extract_struct2(&self, ty: usize) -> (r: Option<(usize, usize)>)
        requires
            self.wf(),
            ty < self.table().len(),
        ensures
            r == self.spec_extract_struct2(ty as int),
            r matches Some((t0, t1)) ==> t0 < self.table().len() && t1 < self.table().len(),
    {
        let long_id = self.get_long_id(ty);
        if !(matches!(long_id.generic_id, GenericId::Struct)) {
            return None;
        }
        if long_id.generic_args.len() != 3 {
            return None;
        }
        if !(matches!(long_id.generic_args[0], GenericArg::UserType)) {
            return None;
        }
        proof {
            assert(arg_wf(self.table()[ty as int].generic_args@[1], self.table().len() as int));
            assert(arg_wf(self.table()[ty as int].generic_args@[2], self.table().len() as int));
        }
        match (&long_id.generic_args[1], &long_id.generic_args[2]) {
            (GenericArg::Type(ty0), GenericArg::Type(ty1)) => Some((*ty0, *ty1)),
            _ => None,
        }
    }

    /// The entry-point return convention: a two-variant union whose ok branch
    /// is a one-field struct wrapping a span of field elements, and whose
    /// error branch is either directly a field-element array (the legacy
    /// panic convention) or a two-field struct whose second field is a span
    /// of field elements (the current convention).
    pub open spec fn spec_is_valid_entry_point_return_type(self, ty: int) -> bool {
        match self.spec_extract_result_ty(ty) {
            None => false,
            Some((ok_ty, err_ty)) => match self.spec_extract_struct1(ok_ty as int) {
                None => false,
                Some(result_ty) => {
                    &&& self.spec_is_felt252_span(result_ty as int)
                    &&& {
                        ||| self.spec_is_felt252_array(err_ty as int)
                        ||| match self.spec_extract_struct2(err_ty as int) {
                            None => false,
                            Some((_panic_ty, err_data_ty)) => self.spec_is_felt252_span(
                                err_data_ty as int,
                            ),
                        }
                    }
                },
            },
        }
    }

    pub fn is_valid_entry_point_return_type(&self, ty: usize) -> (r: bool)
        requires
            self.wf(),
            ty < self.table().len(),
        ensures
            r == self.spec_is_valid_entry_point_return_type(ty as int),
    {
        let result_err = match self.extract_result_ty(ty) {
            Some(pair) => pair,
            None => {
                return false;
            },
        };
        let (result_tuple_ty, err_ty) = result_err;
        let result_ty = match self.extract_struct1(result_tuple_ty) {
            Some(t) => t,
            None => {
                return false;
            },
        };
        if !self.is_felt252_span(result_ty) {
            return false;
        }
        if self.is_felt252_array(err_ty) {
            return true;
        }
        let err_data_ty = match self.extract_struct2(err_ty) {
            Some((_panic_ty, data_ty)) => data_ty,
            None => {
                return false;
            },
        };
        self.is_felt252_span(err_data_ty)
    }
}

/// A field-element array is never itself a span: the two probes answer on
/// disjoint constructors, so no type id satisfies both.
pub proof fn lemma_felt252_array_is_not_span(r: TypeResolver, ty: int)
    requires
        r.spec_is_felt252_array(ty),
    ensures
        !r.spec_is_felt252_span(ty),
{
}

/// A one-field struct wrapping a snapshot of a field-element array is a span
/// of field elements.
pub proof fn lemma_span_of_array_snapshot(r: TypeResolver, span_ty: int, snap_ty: usize)
    requires
        r.spec_long_id(span_ty).generic_id is Struct,
        r.spec_long_id(span_ty).generic_args@ =~= seq![
            GenericArg::UserType,
            GenericArg::Type(snap_ty),
        ],
        r.spec_is_felt252_array_snapshot(snap_ty as int),
    ensures
        r.spec_is_felt252_span(span_ty),
{
}

/// Probing a freshly described two-variant union recovers exactly the pair of
/// variant types it was described with: extraction is a left inverse of
/// construction.
pub proof fn lemma_extract_result_ty_round_trip(r: TypeResolver, ty: int, ok_ty: usize, err_ty: usize)
    requires
        r.spec_long_id(ty).generic_id is Enum,
        r.spec_long_id(ty).generic_args@ =~= seq![
            GenericArg::UserType,
            GenericArg::Type(ok_ty),
            GenericArg::Type(err_ty),
        ],
    ensures
        r.spec_extract_result_ty(ty) == Some((ok_ty, err_ty)),
{
}

} // verus!
