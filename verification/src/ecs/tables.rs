//! Class information attached to every entity of the world.
use std::any::TypeId;
use vstd::prelude::*;

verus! {

/// `std::any::TypeId`, carried through the library as an opaque value.
#[verifier::external_type_specification]
#[verifier::external_body]
pub struct ExTypeId(TypeId);

/// `std::any::TypeId::of`: the identifier of a type. Nothing about its value is
/// claimed.
pub assume_specification<T: ?Sized + 'static>[ TypeId::of::<T> ]() -> TypeId;

/// The class of an entity: the Rust type it was made from and the name under
/// which its render data (descriptor sets) is shared.
#[derive(Debug)]
pub struct ClassInfo {
    pub type_id: TypeId,
    pub class_name: String,
}

impl ClassInfo {
    /// The class of `T` under a given name, so that objects of one type can
    /// own separate render data.
    pub fn of_class<T: 'static>(class: String) -> (info: Self)
        ensures
            info.class_name == class,
    {
        Self { type_id: TypeId::of::<T>(), class_name: class }
    }
}

} // verus!
