use vstd::prelude::*;
use vstd::std_specs::cmp::PartialEqSpec;

verus! {

/// The primitive runtime types that have a fixed type code.
#[derive(Clone, Copy, Debug, PartialEq, Eq, Structural)]
pub enum Builtin {
    Void,
    Boolean,
    Char,
    SByte,
    Byte,
    Short,
    UShort,
    Int,
    UInt,
    Long,
    ULong,
    Single,
    Double,
    String,
    Object,
}

/// The runtime's type code for each builtin type.
pub open spec fn builtin_code(b: Builtin) -> u8 {
    match b {
        Builtin::Void => 0x01,
        Builtin::Boolean => 0x02,
        Builtin::Char => 0x03,
        Builtin::SByte => 0x04,
        Builtin::Byte => 0x05,
        Builtin::Short => 0x06,
        Builtin::UShort => 0x07,
        Builtin::Int => 0x08,
        Builtin::UInt => 0x09,
        Builtin::Long => 0x0a,
        Builtin::ULong => 0x0b,
        Builtin::Single => 0x0c,
        Builtin::Double => 0x0d,
        Builtin::String => 0x0e,
        Builtin::Object => 0x1c,
    }
}

impl Builtin {
    /// Type code of this builtin, as stored in a type's descriptor.
    pub fn type_code(self) -> (r: u8)
        ensures
            r == builtin_code(self),
    {
        match self {
            Builtin::Void => 0x01,
            Builtin::Boolean => 0x02,
            Builtin::Char => 0x03,
            Builtin::SByte => 0x04,
            Builtin::Byte => 0x05,
            Builtin::Short => 0x06,
            Builtin::UShort => 0x07,
            Builtin::Int => 0x08,
            Builtin::UInt => 0x09,
            Builtin::Long => 0x0a,
            Builtin::ULong => 0x0b,
            Builtin::Single => 0x0c,
            Builtin::Double => 0x0d,
            Builtin::String => 0x0e,
            Builtin::Object => 0x1c,
        }
    }
}

/// Descriptor of a type as the runtime records it: its type code, whether
/// it denotes a by-reference slot, the handle of the data it refers to (its
/// class or generic argument), and the display name the runtime reports.
pub struct Il2CppType {
    pub type_code: u8,
    pub by_ref: bool,
    pub data: usize,
    pub name: String,
}

/// Two descriptors denote the same type when code, by-reference flag and
/// data handle agree; the display name follows from those.
pub open spec fn same_type(a: &Il2CppType, b: &Il2CppType) -> bool {
    &&& a.type_code == b.type_code
    &&& a.by_ref == b.by_ref
    &&& a.data == b.data
}

impl Il2CppType {
    /// Whether this type is a by-reference slot.
    pub fn is_ref(&self) -> (r: bool)
        ensures
            r == self.by_ref,
    {
        self.by_ref
    }

    /// Whether this type is the given builtin type.
    pub fn is_builtin(&self, builtin: Builtin) -> (r: bool)
        ensures
            r == (self.type_code == builtin_code(builtin)),
    {
        self.type_code == builtin.type_code()
    }

    /// Whether two descriptors denote the same type.
    pub fn same_as(&self, other: &Il2CppType) -> (r: bool)
        ensures
            r == same_type(self, other),
    {
        self.type_code == other.type_code && self.by_ref == other.by_ref && self.data == other.data
    }

    /// The name the runtime reports for this type.
    pub fn name(&self) -> (r: &str)
        ensures
            r@ == self.name@,
    {
        self.name.as_str()
    }
}

impl PartialEq for Il2CppType {
    fn eq(&self, other: &Self) -> (r: bool) {
        self.same_as(other)
    }
}

impl vstd::std_specs::cmp::PartialEqSpecImpl for Il2CppType {
    open spec fn obeys_eq_spec() -> bool {
        true
    }

    open spec fn eq_spec(&self, other: &Self) -> bool {
        same_type(self, other)
    }
}

/// Sameness of types is an equivalence: every type is the same as itself,
/// in either order, and across a chain.
pub proof fn lemma_same_type_equivalence(a: &Il2CppType, b: &Il2CppType, c: &Il2CppType)
    ensures
        same_type(a, a),
        same_type(a, b) ==> same_type(b, a),
        same_type(a, b) && same_type(b, c) ==> same_type(a, c),
{
}

/// A class as the runtime records it: its handle and the type of `this`
/// inside its instance methods.
pub struct Il2CppClass {
    pub handle: usize,
    pub this_arg: Il2CppType,
}

impl Il2CppClass {
    /// Type of the `this` argument of the class's instance methods.
    pub fn this_arg_ty(&self) -> (r: &Il2CppType)
        ensures
            *r == self.this_arg,
    {
        &self.this_arg
    }
}

/// Two type descriptors are the same, and compare equal, exactly when their
/// type codes, by-reference flags and data handles agree; the names play no
/// part. So types of different codes are never the same.
pub proof fn lemma_type_identity(a: &Il2CppType, b: &Il2CppType)
    ensures
        same_type(a, b) == (a.type_code == b.type_code && a.by_ref == b.by_ref && a.data
            == b.data),
        <Il2CppType as PartialEqSpec>::obeys_eq_spec(),
        a.eq_spec(b) == (a.type_code == b.type_code && a.by_ref == b.by_ref && a.data
            == b.data),
{
}

/// The runtime's type code of each builtin type.
pub proof fn lemma_builtin_codes()
    ensures
        builtin_code(Builtin::Void) == 0x01,
        builtin_code(Builtin::Boolean) == 0x02,
        builtin_code(Builtin::Char) == 0x03,
        builtin_code(Builtin::SByte) == 0x04,
        builtin_code(Builtin::Byte) == 0x05,
        builtin_code(Builtin::Short) == 0x06,
        builtin_code(Builtin::UShort) == 0x07,
        builtin_code(Builtin::Int) == 0x08,
        builtin_code(Builtin::UInt) == 0x09,
        builtin_code(Builtin::Long) == 0x0a,
        builtin_code(Builtin::ULong) == 0x0b,
        builtin_code(Builtin::Single) == 0x0c,
        builtin_code(Builtin::Double) == 0x0d,
        builtin_code(Builtin::String) == 0x0e,
        builtin_code(Builtin::Object) == 0x1c,
{
}

} // verus!
