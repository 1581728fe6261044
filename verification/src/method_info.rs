use vstd::prelude::*;
use vstd::string::{StringExecFns, StringSliceAdditionalSpecFns};
use vstd::utf8::valid_utf8;

use std::borrow::Cow;

use crate::ty::{Il2CppClass, Il2CppType};

verus! {

/// Attribute bit marking a static method.
pub const METHOD_ATTRIBUTE_STATIC: u32 = 0x0010;

/// Attribute bit marking a virtual method.
pub const METHOD_ATTRIBUTE_VIRTUAL: u32 = 0x0040;

/// Attribute bit marking an abstract method.
pub const METHOD_ATTRIBUTE_ABSTRACT: u32 = 0x0400;

/// Whether bit number `bit` is set in `flags`.
pub open spec fn flag_bit(flags: u16, bit: nat) -> bool {
    (flags as int / vstd::arithmetic::power2::pow2(bit) as int) % 2 == 1
}

/// Name for the text that `String::from_utf8_lossy` makes of a byte
/// sequence (invalid sequences become U+FFFD).
pub uninterp spec fn utf8_lossy(bytes: Seq<u8>) -> Seq<char>;

/// Whether every byte is below 0x80.
pub open spec fn all_ascii(bytes: Seq<u8>) -> bool {
    forall|i: int| 0 <= i < bytes.len() ==> #[trigger] bytes[i] < 128
}

/// The characters of an ASCII byte sequence.
pub open spec fn ascii_chars(bytes: Seq<u8>) -> Seq<char> {
    bytes.map_values(|b: u8| b as char)
}

/// Calls `String::from_utf8_lossy`. Claimed: the text is the named result
/// of the bytes; it borrows the bytes exactly when they are valid UTF-8, and
/// then its bytes are those bytes; ASCII bytes come back as the same
/// characters (ASCII is valid UTF-8, which the function returns unchanged).
/// How invalid sequences are replaced is left unsaid.
#[verifier::external_body]
fn decode_lossy<'a>(bytes: &'a [u8]) -> (s: Cow<'a, str>)
    ensures
        s@ == utf8_lossy(bytes@),
        (s is Borrowed) <==> valid_utf8(bytes@),
        s matches Cow::Borrowed(b) ==> b.spec_bytes() == bytes@,
        all_ascii(bytes@) ==> s@ == ascii_chars(bytes@),
{
    String::from_utf8_lossy(bytes)
}

/// A parameter of a managed method: its name and its type.
pub struct ParameterInfo {
    pub name: String,
    pub parameter_type: Il2CppType,
}

/// How a parameter is written: its type's name, a space, its name.
pub open spec fn parameter_text(p: ParameterInfo) -> Seq<char> {
    p.parameter_type.name@ + " "@ + p.name@
}

/// Texts joined with `", "` between neighbours.
pub open spec fn comma_list(items: Seq<Seq<char>>) -> Seq<char>
    decreases items.len(),
{
    if items.len() == 0 {
        Seq::empty()
    } else if items.len() == 1 {
        items[0]
    } else {
        comma_list(items.drop_last()) + ", "@ + items.last()
    }
}

impl ParameterInfo {
    /// Type of the parameter.
    pub fn ty(&self) -> (r: &Il2CppType)
        ensures
            *r == self.parameter_type,
    {
        &self.parameter_type
    }

    /// The parameter as it is written in a signature.
    pub fn to_display_string(&self) -> (r: String)
        ensures
            r@ == parameter_text(*self),
    {
        let mut s = String::new();
        s.append(self.parameter_type.name.as_str());
        s.append(" ");
        s.append(self.name.as_str());
        s
    }
}

/// Information about a managed method, as the runtime records it.
///
/// `name` holds the bytes of the method's C string before its terminating
/// zero, `None` where the runtime holds no name. `parameters` holds the
/// runtime's parameter array, `None` where it holds none; only its first
/// `parameters_count` entries belong to the method. `generic` is what the
/// runtime answers when asked whether the method is generic.
pub struct MethodInfo {
    pub name: Option<Vec<u8>>,
    pub klass: Option<Il2CppClass>,
    pub return_type: Option<Il2CppType>,
    pub parameters: Option<Vec<ParameterInfo>>,
    pub parameters_count: u8,
    pub flags: u16,
    pub generic: bool,
}

impl MethodInfo {
    /// The name holds no zero byte (it ends before the string's terminating
    /// zero), and the parameter array holds at least as many entries as the
    /// count says.
    pub open spec fn wf(&self) -> bool {
        &&& self.name matches Some(b) ==> forall|i: int| 0 <= i < b.len() ==> #[trigger] b@[i] != 0
        &&& self.parameters matches Some(v) ==> self.parameters_count <= v.len()
    }

    /// The method's parameters: none without an array, else the counted prefix.
    pub open spec fn parameter_seq(&self) -> Seq<ParameterInfo> {
        match self.parameters {
            Some(v) => v@.subrange(0, self.parameters_count as int),
            None => Seq::empty(),
        }
    }

    /// Whether the method is static.
    pub fn is_static(&self) -> (r: bool)
        ensures
            r == flag_bit(self.flags, 4),
    {
        let flags: u16 = self.flags;
        proof {
            vstd::arithmetic::power2::lemma2_to64();
            assert((flags as u32 & 0x0010u32 != 0) == ((flags as u32 / 16u32) % 2 == 1))
                by (bit_vector);
        }
        flags as u32 & METHOD_ATTRIBUTE_STATIC != 0
    }

    /// Whether the method is abstract.
    pub fn is_abstract(&self) -> (r: bool)
        ensures
            r == flag_bit(self.flags, 10),
    {
        let flags: u16 = self.flags;
        proof {
            vstd::arithmetic::power2::lemma2_to64();
            assert((flags as u32 & 0x0400u32 != 0) == ((flags as u32 / 1024u32) % 2 == 1))
                by (bit_vector);
        }
        flags as u32 & METHOD_ATTRIBUTE_ABSTRACT != 0
    }

    /// Whether the method is virtual.
    pub fn is_virtual(&self) -> (r: bool)
        ensures
            r == flag_bit(self.flags, 6),
    {
        let flags: u16 = self.flags;
        proof {
            vstd::arithmetic::power2::lemma2_to64();
            assert((flags as u32 & 0x0040u32 != 0) == ((flags as u32 / 64u32) % 2 == 1))
                by (bit_vector);
        }
        flags as u32 & METHOD_ATTRIBUTE_VIRTUAL != 0
    }

    /// Whether the method is generic.
    pub fn is_generic(&self) -> (r: bool)
        ensures
            r == self.generic,
    {
        self.generic
    }

    /// Name of the method, decoded leniently from its bytes: borrowed from
    /// them where they are valid UTF-8, an owned copy with the invalid
    /// sequences replaced otherwise.
    pub fn name(&self) -> (r: Cow<'_, str>)
        requires
            self.name is Some,
        ensures
            r@ == utf8_lossy(self.name->0@),
            (r is Borrowed) <==> valid_utf8(self.name->0@),
            r matches Cow::Borrowed(b) ==> b.spec_bytes() == self.name->0@,
            all_ascii(self.name->0@) ==> r@ == ascii_chars(self.name->0@),
    {
        let bytes = self.name.as_ref().unwrap();
        decode_lossy(bytes.as_slice())
    }

    /// Class the method is from.
    pub fn class(&self) -> (r: &Il2CppClass)
        requires
            self.klass is Some,
        ensures
            *r == self.klass->0,
    {
        self.klass.as_ref().unwrap()
    }

    /// Return type of the method.
    pub fn return_ty(&self) -> (r: &Il2CppType)
        requires
            self.return_type is Some,
        ensures
            *r == self.return_type->0,
    {
        self.return_type.as_ref().unwrap()
    }

    /// Parameters the method takes.
    pub fn parameters(&self) -> (r: &[ParameterInfo])
        requires
            self.wf(),
        ensures
            r@ == self.parameter_seq(),
    {
        match &self.parameters {
            Some(v) => {
                let count: usize = self.parameters_count as usize;
                &v.as_slice()[0..count]
            },
            None => &[],
        }
    }

    /// The method's signature as it is written: its modifiers, return type,
    /// name and parameters.
    pub fn to_display_string(&self) -> (r: String)
        requires
            self.wf(),
            self.name is Some,
            self.return_type is Some,
        ensures
            r@ == method_text(*self),
    {
        let params = self.parameters();
        let mut s = String::new();
        if self.is_static() {
            s.append("static ");
        }
        if self.is_abstract() {
            s.append("abstract ");
        }
        if self.is_virtual() {
            s.append("virtual ");
        }
        s.append(self.return_ty().name.as_str());
        s.append(" ");
        let name = self.name();
        match &name {
            Cow::Borrowed(b) => s.append(b),
            Cow::Owned(o) => s.append(o.as_str()),
        }
        s.append("(");
        let ghost head = s@;
        let ghost texts = params@.map_values(|p: ParameterInfo| parameter_text(p));
        let mut i: usize = 0;
        while i < params.len()
            invariant
                0 <= i <= params@.len(),
                texts == params@.map_values(|p: ParameterInfo| parameter_text(p)),
                s@ == head + comma_list(texts.take(i as int)),
            decreases params@.len() - i,
        {
            let text = params[i].to_display_string();
            proof {
                assert(texts.take(i + 1).drop_last() =~= texts.take(i as int));
            }
            if i > 0 {
                s.append(", ");
            }
            s.append(text.as_str());
            i = i + 1;
        }
        proof {
            assert(texts.take(i as int) =~= texts);
        }
        s.append(")");
        s
    }
}

/// The modifiers that open a method's signature.
pub open spec fn modifiers_text(flags: u16) -> Seq<char> {
    (if flag_bit(flags, 4) { "static "@ } else { Seq::empty() })
        + (if flag_bit(flags, 10) { "abstract "@ } else { Seq::empty() })
        + (if flag_bit(flags, 6) { "virtual "@ } else { Seq::empty() })
}

/// A method's signature as it is written:
/// `[static ][abstract ][virtual ]<return type> <name>(<parameters>)`.
pub open spec fn method_text(m: MethodInfo) -> Seq<char> {
    modifiers_text(m.flags) + m.return_type->0.name@ + " "@ + utf8_lossy(m.name->0@) + "("@
        + comma_list(m.parameter_seq().map_values(|p: ParameterInfo| parameter_text(p))) + ")"@
}

/// The method's parameters are the counted prefix of its array, and none
/// without an array.
pub proof fn lemma_parameter_count(m: MethodInfo)
    requires
        m.wf(),
    ensures
        m.parameter_seq().len() == (if m.parameters is Some {
            m.parameters_count as int
        } else {
            0
        }),
        forall|i: int|
            0 <= i < m.parameter_seq().len() ==> #[trigger] m.parameter_seq()[i]
                == m.parameters->0@[i],
{
}

/// A static method's signature starts with `static `; a method without
/// parameters has a signature that ends with `()`.
pub proof fn lemma_signature_shape(m: MethodInfo)
    requires
        m.name is Some,
        m.return_type is Some,
    ensures
        flag_bit(m.flags, 4) ==> method_text(m).take(7) == "static "@,
        m.parameter_seq().len() == 0 ==> method_text(m) == modifiers_text(m.flags)
            + m.return_type->0.name@ + " "@ + utf8_lossy(m.name->0@) + "()"@,
{
    reveal_strlit("static ");
    reveal_strlit("(");
    reveal_strlit(")");
    reveal_strlit("()");
    let rest = m.return_type->0.name@ + " "@ + utf8_lossy(m.name->0@) + "("@ + comma_list(
        m.parameter_seq().map_values(|p: ParameterInfo| parameter_text(p)),
    ) + ")"@;
    if flag_bit(m.flags, 4) {
        assert(method_text(m) =~= "static "@ + ((if flag_bit(m.flags, 10) {
            "abstract "@
        } else {
            Seq::empty()
        }) + (if flag_bit(m.flags, 6) {
            "virtual "@
        } else {
            Seq::empty()
        }) + rest));
    }
    if m.parameter_seq().len() == 0 {
        assert(m.parameter_seq().map_values(|p: ParameterInfo| parameter_text(p)) =~= Seq::<
            Seq<char>,
        >::empty());
        assert("("@ + Seq::<char>::empty() + ")"@ =~= "()"@);
    }
}

/// A parameter list is written with `", "` between neighbours: no text for
/// no parameters, the one text for one parameter, and one more parameter
/// adds `", "` and its text to the end of a non-empty list. So every
/// parameter but the last is followed by `", "`.
pub proof fn lemma_comma_list(xs: Seq<Seq<char>>, x: Seq<char>)
    ensures
        comma_list(Seq::<Seq<char>>::empty()) == Seq::<char>::empty(),
        comma_list(seq![x]) == x,
        xs.len() > 0 ==> comma_list(xs.push(x)) == comma_list(xs) + ", "@ + x,
{
    assert(xs.push(x).drop_last() =~= xs);
}

/// A method's signature text, spelled out: `static `, `abstract ` and
/// `virtual ` for attribute bits 4, 10 and 6 in that order, then the return
/// type's name, a space, the decoded name, and the parameters, each written
/// as its type's name, a space and its name, in brackets.
pub proof fn lemma_signature_text(m: MethodInfo)
    requires
        m.name is Some,
        m.return_type is Some,
    ensures
        method_text(m) == (if (m.flags as int / 16) % 2 == 1 {
            "static "@
        } else {
            Seq::<char>::empty()
        }) + (if (m.flags as int / 1024) % 2 == 1 {
            "abstract "@
        } else {
            Seq::<char>::empty()
        }) + (if (m.flags as int / 64) % 2 == 1 {
            "virtual "@
        } else {
            Seq::<char>::empty()
        }) + m.return_type->0.name@ + " "@ + utf8_lossy(m.name->0@) + "("@ + comma_list(
            m.parameter_seq().map_values(
                |p: ParameterInfo| p.parameter_type.name@ + " "@ + p.name@,
            ),
        ) + ")"@,
{
    vstd::arithmetic::power2::lemma2_to64();
    assert(m.parameter_seq().map_values(|p: ParameterInfo| parameter_text(p))
        =~= m.parameter_seq().map_values(
        |p: ParameterInfo| p.parameter_type.name@ + " "@ + p.name@,
    ));
}

/// Attribute bits 4, 10 and 6, which the static, abstract and virtual
/// predicates read, are the bits of the masks 0x0010, 0x0400 and 0x0040.
pub proof fn lemma_attribute_bits(flags: u16)
    ensures
        flag_bit(flags, 4) == (flags & 0x0010 != 0),
        flag_bit(flags, 10) == (flags & 0x0400 != 0),
        flag_bit(flags, 6) == (flags & 0x0040 != 0),
{
    vstd::arithmetic::power2::lemma2_to64();
    assert((flags & 0x0010u16 != 0) == ((flags / 16u16) % 2 == 1)) by (bit_vector);
    assert((flags & 0x0400u16 != 0) == ((flags / 1024u16) % 2 == 1)) by (bit_vector);
    assert((flags & 0x0040u16 != 0) == ((flags / 64u16) % 2 == 1)) by (bit_vector);
}

} // verus!
