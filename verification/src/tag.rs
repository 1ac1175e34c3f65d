use vstd::prelude::*;
use core::any::TypeId;

verus! {

#[verifier::external_type_specification]
#[verifier::external_body]
pub struct ExTypeId(TypeId);

/// Relies on core::any::TypeId::of: the runtime identifier of type T.
#[verifier::external_body]
pub fn msg_type<T: 'static>() -> TypeId {
    TypeId::of::<T>()
}

/// Relies on TypeId's PartialEq: two identifiers compare equal exactly when
/// they are the same identifier value (they name the same type).
#[verifier::external_body]
pub fn type_id_eq(a: &TypeId, b: &TypeId) -> (r: bool)
    ensures
        r == (*a == *b),
{
    a == b
}

/// Relies on str's PartialEq: two slices compare equal exactly when their
/// characters are equal.
#[verifier::external_body]
pub fn str_eq(a: &str, b: &str) -> (r: bool)
    ensures
        r == (a@ == b@),
{
    a == b
}

} // verus!
