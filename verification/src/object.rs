use vstd::prelude::*;

use crate::method_info::MethodInfo;

verus! {

/// A managed object, known by the address the runtime gave it.
#[derive(Clone, Copy, Debug, PartialEq, Eq, Structural)]
pub struct Il2CppObject {
    pub address: usize,
}

/// A managed exception, known by the address of its object.
#[derive(Clone, Copy, Debug, PartialEq, Eq, Structural)]
pub struct Il2CppException {
    pub address: usize,
}

/// The reflection object of a method: the managed object itself and the
/// method it stands for.
pub struct Il2CppReflectionMethod {
    pub object: Il2CppObject,
    pub method: MethodInfo,
}

impl Il2CppReflectionMethod {
    /// The method which this object represents.
    pub fn method_info(&self) -> (r: &MethodInfo)
        ensures
            *r == self.method,
    {
        &self.method
    }

}

impl core::ops::Deref for Il2CppReflectionMethod {
    type Target = Il2CppObject;

    /// The managed object underneath.
    fn deref(&self) -> (r: &Il2CppObject)
        ensures
            *r == self.object,
    {
        &self.object
    }
}

} // verus!
