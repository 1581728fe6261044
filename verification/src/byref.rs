use vstd::prelude::*;

use crate::ty::{same_type, Il2CppClass, Il2CppType};
use vstd::std_specs::cmp::PartialEqSpec;

verus! {

/// Whether a by-reference value of `class` fits where `ty` stands: `ty` is
/// the class's `this` type, or `ty` is by-reference and the runtime's
/// assignability answer (`accepts`) is yes.
pub open spec fn reference_fits(class: &Il2CppClass, ty: &Il2CppType, accepts: bool) -> bool {
    same_type(&class.this_arg, ty) || (ty.by_ref && accepts)
}

/// A class's own `this` type always fits a by-reference value of the class,
/// whatever the runtime answers about assignability; a by-value type fits
/// only where it is the same as the class's `this` type.
pub proof fn lemma_this_type_fits(class: &Il2CppClass, ty: &Il2CppType, accepts: bool)
    ensures
        reference_fits(class, &class.this_arg, accepts),
        !ty.by_ref ==> (reference_fits(class, ty, accepts) == same_type(&class.this_arg, ty)),
{
}

/// Once a wrapper is done with (its borrow resolved), the borrowed variable
/// holds what the wrapper last held: writes through the wrapper reach it.
pub proof fn lemma_resolved<'a, T>(b: ByRef<'a, T>)
    ensures
        has_resolved(b) ==> *final(b.target()) == *b.target(),
{
}

/// Wrapper equality is the referents' equality, for every `T` whose
/// equality keeps to its specification.
pub proof fn lemma_eq_follows_referents<'a, T: PartialEq>(a: &ByRef<'a, T>, b: &ByRef<'a, T>)
    requires
        <T as PartialEqSpec>::obeys_eq_spec(),
    ensures
        <ByRef<'a, T> as PartialEqSpec>::obeys_eq_spec(),
        a.eq_spec(b) == (*a.target()).eq_spec(&*b.target()),
{
}

/// Wrapper which marks a value as passed by reference to managed code: it
/// holds a mutable borrow of the value, and writes through it reach the value.
pub struct ByRef<'a, T>(&'a mut T);

impl<'a, T> ByRef<'a, T> {
    /// The reference the wrapper holds.
    pub closed spec fn target(self) -> &'a mut T {
        self.0
    }

    /// Wraps the given reference.
    pub fn new(ptr: &'a mut T) -> (r: Self)
        ensures
            *r.target() == *old(ptr),
            *final(ptr) == *final(r.target()),
    {
        ByRef(ptr)
    }

    /// Wraps the given reference; the same as `new`.
    pub fn from_actual(actual: &'a mut T) -> (r: Self)
        ensures
            *r.target() == *old(actual),
            *final(actual) == *final(r.target()),
    {
        Self::new(actual)
    }

    /// Read access to the referenced value.
    pub fn get_pointer(&self) -> (r: &T)
        ensures
            *r == *self.target(),
    {
        &*self.0
    }

    /// Write access to the referenced value: what is written through the
    /// result is what the wrapper then holds.
    pub fn get_pointer_mut(&mut self) -> (r: &mut T)
        ensures
            *r == *old(self).target(),
            *final(self).target() == *final(r),
            *final(final(self).target()) == *final(old(self).target()),
    {
        &mut *self.0
    }

    /// Read access to the referenced value; the same as `get_pointer`.
    pub fn as_ref(&self) -> (r: &T)
        ensures
            *r == *self.target(),
    {
        self.get_pointer()
    }

    /// Write access to the referenced value; the same as `get_pointer_mut`.
    pub fn as_mut(&mut self) -> (r: &mut T)
        ensures
            *r == *old(self).target(),
            *final(self).target() == *final(r),
            *final(final(self).target()) == *final(old(self).target()),
    {
        self.get_pointer_mut()
    }

    /// Gives up the wrapper, keeping read access for the whole borrow: the
    /// borrowed variable keeps the value the wrapper held.
    pub fn into_actual(self) -> (r: &'a T)
        ensures
            *r == *self.target(),
            *final(self.target()) == *self.target(),
    {
        self.0
    }

    /// The runtime type of a by-reference value of `class`: the class's
    /// `this` type.
    pub fn type_(class: &Il2CppClass) -> (r: &Il2CppType)
        ensures
            *r == class.this_arg,
    {
        class.this_arg_ty()
    }

    /// A by-reference wrapper never fits a by-value argument.
    pub fn matches_value_argument(ty: &Il2CppType) -> (r: bool)
        ensures
            !r,
    {
        false
    }

    /// A by-reference wrapper never fits a by-value parameter.
    pub fn matches_value_parameter(ty: &Il2CppType) -> (r: bool)
        ensures
            !r,
    {
        false
    }

    /// Whether a by-reference wrapper of a value of `class` can be passed
    /// where `ty` is expected: `ty` is the class's `this` type, or `ty` is a
    /// by-reference type whose class accepts values of `class`
    /// (`ty_class_accepts_class`, as the runtime answers it).
    pub fn matches_reference_argument(
        class: &Il2CppClass,
        ty: &Il2CppType,
        ty_class_accepts_class: bool,
    ) -> (r: bool)
        ensures
            r == reference_fits(class, ty, ty_class_accepts_class),
    {
        class.this_arg_ty().same_as(ty) || ty.is_ref() && ty_class_accepts_class
    }

    /// Whether a by-reference wrapper of a value of `class` can receive a
    /// value where `ty` is declared: `ty` is the class's `this` type, or `ty`
    /// is a by-reference type whose class `class` accepts
    /// (`class_accepts_ty_class`, as the runtime answers it).
    pub fn matches_reference_parameter(
        class: &Il2CppClass,
        ty: &Il2CppType,
        class_accepts_ty_class: bool,
    ) -> (r: bool)
        ensures
            r == reference_fits(class, ty, class_accepts_ty_class),
    {
        class.this_arg_ty().same_as(ty) || ty.is_ref() && class_accepts_ty_class
    }
}

impl<'a, T: PartialEq> PartialEq for ByRef<'a, T> {
    fn eq(&self, other: &Self) -> (r: bool) {
        (*self.0).eq(&*other.0)
    }
}

impl<'a, T: PartialEq> vstd::std_specs::cmp::PartialEqSpecImpl for ByRef<'a, T> {
    open spec fn obeys_eq_spec() -> bool {
        <T as PartialEqSpec>::obeys_eq_spec()
    }

    open spec fn eq_spec(&self, other: &Self) -> bool {
        (*self.target()).eq_spec(&*other.target())
    }
}

impl<'a, T> core::ops::Deref for ByRef<'a, T> {
    type Target = T;

    fn deref(&self) -> (r: &T)
        ensures
            *r == *self.target(),
    {
        &*self.0
    }
}

impl<'a, T> core::ops::DerefMut for ByRef<'a, T> {
    fn deref_mut(&mut self) -> (r: &mut T)
        ensures
            *r == *old(self).target(),
            *final(self).target() == *final(r),
            *final(final(self).target()) == *final(old(self).target()),
    {
        &mut *self.0
    }
}

/// Where a by-reference type is declared, a by-reference wrapper of a value
/// of `class` fits exactly when the type has the code, by-reference flag and
/// data of the class's `this` type, or the runtime answers that assignment
/// is allowed; where a by-value type is declared, only the first way fits.
pub proof fn lemma_reference_fit(class: &Il2CppClass, ty: &Il2CppType, accepts: bool)
    ensures
        ty.by_ref ==> (reference_fits(class, ty, accepts) == ((class.this_arg.type_code
            == ty.type_code && class.this_arg.by_ref == ty.by_ref && class.this_arg.data
            == ty.data) || accepts)),
        !ty.by_ref ==> (reference_fits(class, ty, accepts) == (class.this_arg.type_code
            == ty.type_code && class.this_arg.by_ref == ty.by_ref && class.this_arg.data
            == ty.data)),
{
}

} // verus!
