use vstd::prelude::*;

use crate::method_info::{flag_bit, MethodInfo};
use crate::object::{Il2CppException, Il2CppObject};
use crate::ty::{builtin_code, Builtin, Il2CppType};

verus! {

/// Types that can be used as the `this` argument of a managed call.
pub trait ThisArgument {
    /// Whether the type fits as `this` of the method.
    spec fn matches_spec(method: &MethodInfo) -> bool;

    /// Checks whether the type can be used as `this` for the method.
    fn matches(method: &MethodInfo) -> (r: bool)
        ensures
            r == Self::matches_spec(method),
    ;
}

/// Types that a managed call can return.
pub trait Returned {
    /// Whether the type fits as a value of the runtime type.
    spec fn matches_spec(ty: &Il2CppType) -> bool;

    /// Checks whether the type can receive a value of the runtime type.
    fn matches(ty: &Il2CppType) -> (r: bool)
        ensures
            r == Self::matches_spec(ty),
    ;
}

/// Types that can be passed as one argument of a managed call.
pub trait Argument {
    /// Whether the type fits a parameter of the runtime type.
    spec fn matches_spec(ty: &Il2CppType) -> bool;

    /// Checks whether the type can be passed where the runtime type is
    /// declared.
    fn matches(ty: &Il2CppType) -> (r: bool)
        ensures
            r == Self::matches_spec(ty),
    ;
}

/// Whether `ty` declares a by-value slot of the given builtin type.
pub open spec fn builtin_value(ty: &Il2CppType, builtin: Builtin) -> bool {
    !ty.by_ref && ty.type_code == builtin_code(builtin)
}

/// Checks whether `ty` declares a by-value slot of the given builtin type.
pub fn is_builtin_value(ty: &Il2CppType, builtin: Builtin) -> (r: bool)
    ensures
        r == builtin_value(ty, builtin),
{
    !ty.is_ref() && ty.is_builtin(builtin)
}

/// Collections of `N` arguments of a managed call.
pub trait Arguments<const N: usize> {
    /// Whether the collection fits the method's parameters.
    spec fn matches_spec(method: &MethodInfo) -> bool;

    /// Checks whether the collection can be passed to the method.
    fn matches(method: &MethodInfo) -> (r: bool)
        requires
            method.wf(),
        ensures
            r == Self::matches_spec(method),
    ;
}

/// No `this`: fits static methods only.
impl ThisArgument for () {
    open spec fn matches_spec(method: &MethodInfo) -> bool {
        flag_bit(method.flags, 4)
    }

    fn matches(method: &MethodInfo) -> (r: bool) {
        method.is_static()
    }
}

/// Nothing returned: fits methods returning `void`.
impl Returned for () {
    open spec fn matches_spec(ty: &Il2CppType) -> bool {
        ty.type_code == builtin_code(Builtin::Void)
    }

    fn matches(ty: &Il2CppType) -> (r: bool) {
        ty.is_builtin(Builtin::Void)
    }
}

/// No arguments: fits methods without parameters.
impl Arguments<0> for () {
    open spec fn matches_spec(method: &MethodInfo) -> bool {
        method.parameter_seq().len() == 0
    }

    fn matches(method: &MethodInfo) -> (r: bool) {
        method.parameters().is_empty()
    }
}

/// A `bool` is passed by value where a `Boolean` is declared.
impl Argument for bool {
    open spec fn matches_spec(ty: &Il2CppType) -> bool {
        builtin_value(ty, Builtin::Boolean)
    }

    fn matches(ty: &Il2CppType) -> (r: bool) {
        is_builtin_value(ty, Builtin::Boolean)
    }
}

/// A `i8` is passed by value where a `SByte` is declared.
impl Argument for i8 {
    open spec fn matches_spec(ty: &Il2CppType) -> bool {
        builtin_value(ty, Builtin::SByte)
    }

    fn matches(ty: &Il2CppType) -> (r: bool) {
        is_builtin_value(ty, Builtin::SByte)
    }
}

/// A `u8` is passed by value where a `Byte` is declared.
impl Argument for u8 {
    open spec fn matches_spec(ty: &Il2CppType) -> bool {
        builtin_value(ty, Builtin::Byte)
    }

    fn matches(ty: &Il2CppType) -> (r: bool) {
        is_builtin_value(ty, Builtin::Byte)
    }
}

/// A `i16` is passed by value where a `Short` is declared.
impl Argument for i16 {
    open spec fn matches_spec(ty: &Il2CppType) -> bool {
        builtin_value(ty, Builtin::Short)
    }

    fn matches(ty: &Il2CppType) -> (r: bool) {
        is_builtin_value(ty, Builtin::Short)
    }
}

/// A `u16` is passed by value where a `UShort` is declared.
impl Argument for u16 {
    open spec fn matches_spec(ty: &Il2CppType) -> bool {
        builtin_value(ty, Builtin::UShort)
    }

    fn matches(ty: &Il2CppType) -> (r: bool) {
        is_builtin_value(ty, Builtin::UShort)
    }
}

/// A `i32` is passed by value where a `Int` is declared.
impl Argument for i32 {
    open spec fn matches_spec(ty: &Il2CppType) -> bool {
        builtin_value(ty, Builtin::Int)
    }

    fn matches(ty: &Il2CppType) -> (r: bool) {
        is_builtin_value(ty, Builtin::Int)
    }
}

/// A `u32` is passed by value where a `UInt` is declared.
impl Argument for u32 {
    open spec fn matches_spec(ty: &Il2CppType) -> bool {
        builtin_value(ty, Builtin::UInt)
    }

    fn matches(ty: &Il2CppType) -> (r: bool) {
        is_builtin_value(ty, Builtin::UInt)
    }
}

/// A `i64` is passed by value where a `Long` is declared.
impl Argument for i64 {
    open spec fn matches_spec(ty: &Il2CppType) -> bool {
        builtin_value(ty, Builtin::Long)
    }

    fn matches(ty: &Il2CppType) -> (r: bool) {
        is_builtin_value(ty, Builtin::Long)
    }
}

/// A `u64` is passed by value where a `ULong` is declared.
impl Argument for u64 {
    open spec fn matches_spec(ty: &Il2CppType) -> bool {
        builtin_value(ty, Builtin::ULong)
    }

    fn matches(ty: &Il2CppType) -> (r: bool) {
        is_builtin_value(ty, Builtin::ULong)
    }
}

/// One argument: fits methods with exactly one parameter, which the
/// argument fits.
impl<A: Argument> Arguments<1> for A {
    open spec fn matches_spec(method: &MethodInfo) -> bool {
        &&& method.parameter_seq().len() == 1
        &&& A::matches_spec(&method.parameter_seq()[0].parameter_type)
    }

    fn matches(method: &MethodInfo) -> (r: bool) {
        let params = method.parameters();
        params.len() == 1 && A::matches(params[0].ty())
    }
}

impl MethodInfo {
    /// Whether `this`, the arguments and the return type all fit the method.
    pub fn matches_signature<T, A, R, const N: usize>(&self) -> (r: bool) where
        T: ThisArgument,
        A: Arguments<N>,
        R: Returned,

        requires
            self.wf(),
            self.return_type is Some,
        ensures
            r == (T::matches_spec(self) && A::matches_spec(self) && R::matches_spec(
                &self.return_type->0,
            )),
    {
        T::matches(self) && A::matches(self) && R::matches(self.return_ty())
    }
}

/// The outcome of a raw call: an exception if the runtime reported one,
/// else what it returned.
pub open spec fn invoke_outcome(returned: Option<Il2CppObject>, exception: Option<Il2CppException>) -> Result<
    Option<Il2CppObject>,
    Il2CppException,
> {
    match exception {
        None => Ok(returned),
        Some(e) => Err(e),
    }
}

/// What a raw call comes to: the runtime's result, unless it reported an
/// exception, in which case that exception.
pub fn invoke_result(returned: Option<Il2CppObject>, exception: Option<Il2CppException>) -> (r:
    Result<Option<Il2CppObject>, Il2CppException>)
    ensures
        r == invoke_outcome(returned, exception),
{
    match exception {
        None => Ok(returned),
        Some(e) => Err(e),
    }
}

/// With no `this`, no arguments and nothing returned, a signature fits
/// exactly the static methods without parameters that return `void`.
pub proof fn lemma_unit_signature(m: &MethodInfo)
    requires
        m.return_type is Some,
    ensures
        (<() as ThisArgument>::matches_spec(m) && <() as Arguments<0>>::matches_spec(m)
            && <() as Returned>::matches_spec(&m.return_type->0)) <==> (flag_bit(m.flags, 4)
            && m.parameter_seq().len() == 0 && m.return_type->0.type_code == 0x01),
{
}

/// A raw call succeeds exactly when the runtime reports no exception, and
/// then hands back what the runtime returned.
pub proof fn lemma_invoke_result(returned: Option<Il2CppObject>, exception: Option<Il2CppException>)
    ensures
        invoke_outcome(returned, exception) is Ok <==> exception is None,
        exception is None ==> invoke_outcome(returned, exception) == Ok::<
            Option<Il2CppObject>,
            Il2CppException,
        >(returned),
        exception matches Some(e) ==> invoke_outcome(returned, exception) == Err::<
            Option<Il2CppObject>,
            Il2CppException,
        >(e),
{
}

/// One argument fits a method exactly when the method has one parameter and
/// the argument alone fits that parameter's type.
pub proof fn lemma_one_argument<A: Argument>(m: &MethodInfo)
    ensures
        <A as Arguments<1>>::matches_spec(m) == (m.parameter_seq().len() == 1
            && A::matches_spec(&m.parameter_seq()[0].parameter_type)),
{
}

/// Each primitive fits exactly the by-value parameters of its own runtime
/// type code: `bool` 0x02, `i8` 0x04, `u8` 0x05, `i16` 0x06, `u16` 0x07,
/// `i32` 0x08, `u32` 0x09, `i64` 0x0a, `u64` 0x0b.
pub proof fn lemma_primitive_arguments(ty: &Il2CppType)
    ensures
        <bool as Argument>::matches_spec(ty) == (!ty.by_ref && ty.type_code == 0x02),
        <i8 as Argument>::matches_spec(ty) == (!ty.by_ref && ty.type_code == 0x04),
        <u8 as Argument>::matches_spec(ty) == (!ty.by_ref && ty.type_code == 0x05),
        <i16 as Argument>::matches_spec(ty) == (!ty.by_ref && ty.type_code == 0x06),
        <u16 as Argument>::matches_spec(ty) == (!ty.by_ref && ty.type_code == 0x07),
        <i32 as Argument>::matches_spec(ty) == (!ty.by_ref && ty.type_code == 0x08),
        <u32 as Argument>::matches_spec(ty) == (!ty.by_ref && ty.type_code == 0x09),
        <i64 as Argument>::matches_spec(ty) == (!ty.by_ref && ty.type_code == 0x0a),
        <u64 as Argument>::matches_spec(ty) == (!ty.by_ref && ty.type_code == 0x0b),
{
}

/// With an `i32` argument, a method fits exactly when it has one parameter,
/// which is a by-value `Int` (type code 0x08).
pub proof fn lemma_i32_argument(m: &MethodInfo)
    ensures
        <i32 as Arguments<1>>::matches_spec(m) == (m.parameter_seq().len() == 1
            && !m.parameter_seq()[0].parameter_type.by_ref
            && m.parameter_seq()[0].parameter_type.type_code == 0x08),
{
}

} // verus!
