//! Verified core of a binding layer for the il2cpp runtime: method metadata,
//! nullable managed handles, by-reference wrappers and call type checking.

pub mod byref;
pub mod gc;
pub mod method_info;
pub mod object;
pub mod ty;
pub mod typecheck;

pub use byref::ByRef;
pub use gc::Gc;
pub use method_info::{
    MethodInfo, ParameterInfo, METHOD_ATTRIBUTE_ABSTRACT, METHOD_ATTRIBUTE_STATIC,
    METHOD_ATTRIBUTE_VIRTUAL,
};
pub use object::{Il2CppException, Il2CppObject, Il2CppReflectionMethod};
pub use ty::{Builtin, Il2CppClass, Il2CppType};
pub use typecheck::{invoke_result, Argument, Arguments, Returned, ThisArgument};
