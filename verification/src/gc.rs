use vstd::prelude::*;
use vstd::std_specs::cmp::PartialEqSpec;
use vstd::string::{StrSliceExecFns, StringExecFns};

use core::marker::PhantomData;

verus! {

/// Digit `d` (below sixteen) in lower-case hexadecimal.
pub open spec fn hex_digit(d: nat) -> char {
    if d < 10 {
        (48 + d) as char
    } else {
        (87 + d) as char
    }
}

/// `n` in lower-case hexadecimal, without prefix or leading zeros.
pub open spec fn lower_hex(n: nat) -> Seq<char>
    decreases n,
{
    if n < 16 {
        seq![hex_digit(n)]
    } else {
        lower_hex(n / 16).push(hex_digit(n % 16))
    }
}

/// `n` in lower-case hexadecimal, without prefix or leading zeros.
pub fn lower_hex_text(n: usize) -> (s: String)
    ensures
        s@ == lower_hex(n as nat),
    decreases n,
{
    let table = "0123456789abcdef";
    proof {
        reveal_strlit("0123456789abcdef");
        assert(forall|d: int| 0 <= d < 16 ==> #[trigger] table@[d] == hex_digit(d as nat));
    }
    let d: usize = n % 16;
    let digit = table.substring_char(d, d + 1);
    proof {
        assert(digit@ =~= seq![hex_digit(d as nat)]);
    }
    if n < 16 {
        String::from_str(digit)
    } else {
        let mut s = lower_hex_text(n / 16);
        s.append(digit);
        s
    }
}

/// The address as an option: `None` for address zero.
pub open spec fn optional_address(address: usize) -> Option<usize> {
    if address == 0 {
        None
    } else {
        Some(address)
    }
}

/// The address an option stands for: zero for `None`.
pub open spec fn address_or_null(address: Option<usize>) -> usize {
    match address {
        Some(a) => a,
        None => 0,
    }
}

/// Turning a reference into an option and back gives the same reference;
/// turning an option that holds no zero address into a reference and back
/// gives the same option. The null reference is `None`, any other reference
/// is `Some` of its address, and `None` is the null reference.
pub proof fn lemma_option_round_trip(address: usize, opt: Option<usize>)
    ensures
        (optional_address(address) is None) <==> address == 0,
        address != 0 ==> optional_address(address) == Some(address),
        address_or_null(None) == 0,
        address_or_null(optional_address(address)) == address,
        opt != Some(0usize) ==> optional_address(address_or_null(opt)) == opt,
{
}

/// A garbage-collected managed reference of type `T`, known by the address
/// of the object; address zero is the null reference.
pub struct Gc<T> {
    address: usize,
    marker: PhantomData<T>,
}

impl<T> View for Gc<T> {
    type V = usize;

    closed spec fn view(&self) -> usize {
        self.address
    }
}

impl<T> Gc<T> {
    /// A reference to the object at the given address.
    pub fn new(address: usize) -> (r: Self)
        ensures
            r@ == address,
    {
        Gc { address, marker: PhantomData }
    }

    /// The null reference.
    pub fn null() -> (r: Self)
        ensures
            r@ == 0,
    {
        Self::default()
    }

    /// Whether this is the null reference.
    pub fn is_null(&self) -> (r: bool)
        ensures
            r == (self@ == 0),
    {
        self.address == 0
    }

    /// The object's address, or `None` for the null reference.
    pub fn as_opt(&self) -> (r: Option<usize>)
        ensures
            r == optional_address(self@),
    {
        if self.is_null() {
            None
        } else {
            Some(self.address)
        }
    }

    /// A reference to the given object, or the null reference for `None`.
    pub fn from_option(address: Option<usize>) -> (r: Self)
        ensures
            r@ == address_or_null(address),
    {
        match address {
            Some(a) => Self::new(a),
            None => Self::null(),
        }
    }

    /// How the reference is shown, for a type of the given class name:
    /// `Gc<Name>::null()` for the null reference, else `Gc<Name>(0x...)`
    /// with the address in lower-case hexadecimal.
    pub fn debug_text(&self, class_name: &str) -> (r: String)
        ensures
            r@ == gc_text(self@, class_name@),
    {
        let mut s = String::new();
        s.append("Gc<");
        s.append(class_name);
        if self.is_null() {
            s.append(">::null()");
        } else {
            s.append(">(0x");
            let digits = lower_hex_text(self.address);
            s.append(digits.as_str());
            s.append(")");
        }
        s
    }
}

/// How a reference at `address` to an object of class `class_name` is shown.
pub open spec fn gc_text(address: usize, class_name: Seq<char>) -> Seq<char> {
    if address == 0 {
        "Gc<"@ + class_name + ">::null()"@
    } else {
        "Gc<"@ + class_name + ">(0x"@ + lower_hex(address as nat) + ")"@
    }
}

impl<T> Clone for Gc<T> {
    fn clone(&self) -> (r: Self)
        ensures
            r@ == self@,
    {
        Gc { address: self.address, marker: PhantomData }
    }
}

impl<T> Copy for Gc<T> {
}

impl<T> Default for Gc<T> {
    fn default() -> (r: Self)
        ensures
            r@ == 0,
    {
        Gc { address: 0, marker: PhantomData }
    }
}

impl<T> PartialEq for Gc<T> {
    fn eq(&self, other: &Self) -> (r: bool) {
        self.address == other.address
    }
}

impl<T> vstd::std_specs::cmp::PartialEqSpecImpl for Gc<T> {
    open spec fn obeys_eq_spec() -> bool {
        true
    }

    open spec fn eq_spec(&self, other: &Self) -> bool {
        self@ == other@
    }
}

impl<T> Eq for Gc<T> {
}

impl<T> From<usize> for Gc<T> {
    fn from(address: usize) -> (r: Self)
        ensures
            r@ == address,
    {
        Self::new(address)
    }
}

impl<T> vstd::std_specs::convert::FromSpecImpl<usize> for Gc<T> {
    open spec fn obeys_from_spec() -> bool {
        true
    }

    closed spec fn from_spec(address: usize) -> Self {
        Gc { address, marker: PhantomData }
    }
}

impl<T> From<Option<usize>> for Gc<T> {
    fn from(address: Option<usize>) -> (r: Self)
        ensures
            r@ == address_or_null(address),
    {
        Self::from_option(address)
    }
}

impl<T> vstd::std_specs::convert::FromSpecImpl<Option<usize>> for Gc<T> {
    open spec fn obeys_from_spec() -> bool {
        true
    }

    closed spec fn from_spec(address: Option<usize>) -> Self {
        Gc { address: address_or_null(address), marker: PhantomData }
    }
}

impl<T> From<Gc<T>> for Option<usize> {
    fn from(gc: Gc<T>) -> (r: Self)
        ensures
            r == optional_address(gc@),
    {
        gc.as_opt()
    }
}

impl<T> vstd::std_specs::convert::FromSpecImpl<Gc<T>> for Option<usize> {
    open spec fn obeys_from_spec() -> bool {
        true
    }

    open spec fn from_spec(gc: Gc<T>) -> Self {
        optional_address(gc@)
    }
}

/// Two references are equal exactly when they hold the same address; in
/// particular a reference to an object never equals the null reference.
pub proof fn lemma_gc_equality<T>(a: Gc<T>, b: Gc<T>)
    ensures
        <Gc<T> as PartialEqSpec>::obeys_eq_spec(),
        a.eq_spec(&b) == (a@ == b@),
        a@ != 0 && b@ == 0 ==> !a.eq_spec(&b),
{
}

/// The value of a lower-case hexadecimal digit (zero for other characters).
pub open spec fn hex_value_of(c: char) -> int {
    if '0' <= c && c <= '9' {
        c as int - '0' as int
    } else if 'a' <= c && c <= 'f' {
        c as int - 'a' as int + 10
    } else {
        0
    }
}

/// The number that a text of hexadecimal digits denotes, most significant
/// digit first.
pub open spec fn hex_number(s: Seq<char>) -> int
    decreases s.len(),
{
    if s.len() == 0 {
        0
    } else {
        hex_number(s.drop_last()) * 16 + hex_value_of(s.last())
    }
}

/// The hexadecimal text of `n` is a non-empty string of the characters
/// `0`-`9` and `a`-`f`, with no leading zero unless `n` is zero, and it
/// reads back as `n`.
pub proof fn lemma_lower_hex(n: nat)
    ensures
        lower_hex(n).len() >= 1,
        forall|i: int|
            0 <= i < lower_hex(n).len() ==> ('0' <= #[trigger] lower_hex(n)[i] <= '9') || ('a'
                <= lower_hex(n)[i] <= 'f'),
        n > 0 ==> lower_hex(n)[0] != '0',
        n == 0 ==> lower_hex(n) == seq!['0'],
        hex_number(lower_hex(n)) == n,
    decreases n,
{
    let d = n % 16;
    assert(hex_value_of(hex_digit(d)) == d);
    if n < 16 {
        assert(lower_hex(n).drop_last() =~= Seq::<char>::empty());
        assert(d == n);
        assert(hex_number(lower_hex(n)) == hex_number(Seq::<char>::empty()) * 16 + hex_value_of(
            hex_digit(n),
        ));
    } else {
        lemma_lower_hex(n / 16);
        let s = lower_hex(n);
        assert(s.drop_last() =~= lower_hex(n / 16));
        assert(n == (n / 16) * 16 + n % 16);
        assert(s.last() == hex_digit(d));
        assert(hex_number(s) == hex_number(lower_hex(n / 16)) * 16 + hex_value_of(hex_digit(d)));
        assert(s[0] == lower_hex(n / 16)[0]);
        assert forall|i: int| 0 <= i < s.len() implies ('0' <= #[trigger] s[i] <= '9') || ('a'
            <= s[i] <= 'f') by {
            if i < s.len() - 1 {
                assert(s[i] == lower_hex(n / 16)[i]);
            }
        }
    }
}

/// A reference is shown as `Gc<`, the class name and `>`, then `::null()`
/// for the null reference, else its address as `0x` and lower-case
/// hexadecimal in brackets.
pub proof fn lemma_gc_text(address: usize, class_name: Seq<char>)
    ensures
        address == 0 ==> gc_text(address, class_name) == "Gc<"@ + class_name + ">::null()"@,
        address != 0 ==> gc_text(address, class_name) == "Gc<"@ + class_name + ">(0x"@
            + lower_hex(address as nat) + ")"@,
{
}

} // verus!
