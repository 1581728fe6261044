use std::borrow::Cow;

use libil2cpp::{
    invoke_result, Argument, Arguments, Builtin, Il2CppClass, Il2CppException, Il2CppObject,
    Il2CppReflectionMethod, Il2CppType, MethodInfo, ParameterInfo, Returned, ThisArgument,
    METHOD_ATTRIBUTE_ABSTRACT, METHOD_ATTRIBUTE_STATIC, METHOD_ATTRIBUTE_VIRTUAL,
};

fn ty(code: u8, by_ref: bool, data: usize, name: &str) -> Il2CppType {
    Il2CppType { type_code: code, by_ref, data, name: name.to_string() }
}

fn param(name: &str, t: Il2CppType) -> ParameterInfo {
    ParameterInfo { name: name.to_string(), parameter_type: t }
}

fn method(flags: u16, params: Option<Vec<ParameterInfo>>, count: u8) -> MethodInfo {
    MethodInfo {
        name: Some(b"Update".to_vec()),
        klass: Some(Il2CppClass { handle: 0x40, this_arg: ty(0x12, true, 0x40, "Player&") }),
        return_type: Some(ty(0x01, false, 0, "System.Void")),
        parameters: params,
        parameters_count: count,
        flags,
        generic: false,
    }
}

#[test]
fn attribute_bits_are_the_runtime_values() {
    assert_eq!(METHOD_ATTRIBUTE_STATIC, 0x0010);
    assert_eq!(METHOD_ATTRIBUTE_VIRTUAL, 0x0040);
    assert_eq!(METHOD_ATTRIBUTE_ABSTRACT, 0x0400);
}

#[test]
fn flags_are_read_bit_by_bit() {
    let m = method(0x0010, None, 0);
    assert!(m.is_static() && !m.is_abstract() && !m.is_virtual());
    let m = method(0x0040 | 0x0400, None, 0);
    assert!(!m.is_static() && m.is_abstract() && m.is_virtual());
    let m = method(0xffff & !0x0010 & !0x0040 & !0x0400, None, 0);
    assert!(!m.is_static() && !m.is_abstract() && !m.is_virtual());
    let m = method(0xffff, None, 0);
    assert!(m.is_static() && m.is_abstract() && m.is_virtual());
}

#[test]
fn generic_flag_is_reported() {
    let mut m = method(0, None, 0);
    assert!(!m.is_generic());
    m.generic = true;
    assert!(m.is_generic());
}

#[test]
fn name_is_decoded() {
    let m = method(0, None, 0);
    assert_eq!(m.name(), "Update");
    assert!(matches!(m.name(), Cow::Borrowed(_)));
}

#[test]
fn valid_multibyte_name_is_borrowed() {
    let mut m = method(0, None, 0);
    m.name = Some("Größe".as_bytes().to_vec());
    assert_eq!(m.name(), "Größe");
    assert!(matches!(m.name(), Cow::Borrowed(_)));
}

#[test]
fn invalid_name_bytes_are_replaced() {
    let mut m = method(0, None, 0);
    m.name = Some(vec![b'G', b'o', 0xff, b'!']);
    assert_eq!(m.name(), "Go\u{fffd}!");
    assert!(matches!(m.name(), Cow::Owned(_)));
}

#[test]
fn class_and_return_type_are_the_recorded_ones() {
    let m = method(0, None, 0);
    assert_eq!(m.class().handle, 0x40);
    assert_eq!(m.class().this_arg_ty().name(), "Player&");
    assert!(m.return_ty().is_builtin(Builtin::Void));
    assert_eq!(m.return_ty().name(), "System.Void");
}

#[test]
fn parameters_without_array_are_empty() {
    let m = method(0, None, 3);
    assert!(m.parameters().is_empty());
}

#[test]
fn parameters_are_the_counted_prefix() {
    let ps = vec![
        param("a", ty(0x08, false, 0, "System.Int32")),
        param("b", ty(0x0e, false, 0, "System.String")),
        param("c", ty(0x02, false, 0, "System.Boolean")),
    ];
    let m = method(0, Some(ps), 2);
    let got = m.parameters();
    assert_eq!(got.len(), 2);
    assert_eq!(got[0].name, "a");
    assert_eq!(got[1].ty().name(), "System.String");
}

#[test]
fn display_without_parameters() {
    let m = method(0, Some(vec![]), 0);
    assert_eq!(m.to_display_string(), "System.Void Update()");
}

#[test]
fn display_with_modifiers_and_parameters() {
    let ps = vec![
        param("speed", ty(0x0c, false, 0, "System.Single")),
        param("label", ty(0x0e, false, 0, "System.String")),
    ];
    let m = method(0x0010 | 0x0040 | 0x0400, Some(ps), 2);
    assert_eq!(
        m.to_display_string(),
        "static abstract virtual System.Void Update(System.Single speed, System.String label)"
    );
}

#[test]
fn display_with_one_parameter() {
    let ps = vec![param("x", ty(0x08, false, 0, "System.Int32"))];
    let m = method(0x0040, Some(ps), 1);
    assert_eq!(m.to_display_string(), "virtual System.Void Update(System.Int32 x)");
}

#[test]
fn parameter_display() {
    let p = param("count", ty(0x08, false, 0, "System.Int32"));
    assert_eq!(p.to_display_string(), "System.Int32 count");
}

#[test]
fn builtin_codes() {
    assert_eq!(Builtin::Void.type_code(), 0x01);
    assert_eq!(Builtin::Int.type_code(), 0x08);
    assert_eq!(Builtin::String.type_code(), 0x0e);
    assert_eq!(Builtin::Object.type_code(), 0x1c);
    let t = ty(0x08, false, 0, "System.Int32");
    assert!(t.is_builtin(Builtin::Int));
    assert!(!t.is_builtin(Builtin::UInt));
    assert!(!t.is_ref());
}

#[test]
fn type_equality_ignores_the_name() {
    let a = ty(0x12, true, 0x40, "Player&");
    let b = ty(0x12, true, 0x40, "Player &");
    let c = ty(0x12, false, 0x40, "Player");
    assert!(a == b);
    assert!(a.same_as(&b));
    assert!(a != c);
    assert!(a == a);
}

#[test]
fn unit_this_fits_static_methods_only() {
    assert!(<() as ThisArgument>::matches(&method(0x0010, None, 0)));
    assert!(!<() as ThisArgument>::matches(&method(0x0040, None, 0)));
}

#[test]
fn unit_return_fits_void() {
    assert!(<() as Returned>::matches(&ty(0x01, false, 0, "System.Void")));
    assert!(!<() as Returned>::matches(&ty(0x08, false, 0, "System.Int32")));
}

#[test]
fn no_arguments_fit_methods_without_parameters() {
    assert!(<() as Arguments<0>>::matches(&method(0, None, 0)));
    assert!(<() as Arguments<0>>::matches(&method(0, Some(vec![]), 0)));
    let ps = vec![param("x", ty(0x08, false, 0, "System.Int32"))];
    assert!(!<() as Arguments<0>>::matches(&method(0, Some(ps), 1)));
}

#[test]
fn unit_signature_fits_static_void_methods() {
    assert!(method(0x0010, None, 0).matches_signature::<(), (), (), 0>());
    assert!(!method(0x0000, None, 0).matches_signature::<(), (), (), 0>());
    let mut m = method(0x0010, None, 0);
    m.return_type = Some(ty(0x08, false, 0, "System.Int32"));
    assert!(!m.matches_signature::<(), (), (), 0>());
    let ps = vec![param("x", ty(0x08, false, 0, "System.Int32"))];
    assert!(!method(0x0010, Some(ps), 1).matches_signature::<(), (), (), 0>());
}

#[test]
fn exception_turns_into_error() {
    let obj = Il2CppObject { address: 0x1000 };
    let exc = Il2CppException { address: 0x2000 };
    assert_eq!(invoke_result(Some(obj), None), Ok(Some(obj)));
    assert_eq!(invoke_result(None, None), Ok(None));
    assert_eq!(invoke_result(Some(obj), Some(exc)), Err(exc));
    assert_eq!(invoke_result(None, Some(exc)), Err(exc));
}

#[test]
fn reflection_object_parts() {
    let r = Il2CppReflectionMethod {
        object: Il2CppObject { address: 0x3000 },
        method: method(0x0010, None, 0),
    };
    assert_eq!(r.address, 0x3000);
    assert!(r.method_info().is_static());
}

#[test]
fn primitives_fit_their_builtin_by_value() {
    assert!(<i32 as Argument>::matches(&ty(0x08, false, 0, "System.Int32")));
    assert!(!<i32 as Argument>::matches(&ty(0x08, true, 0, "System.Int32&")));
    assert!(!<i32 as Argument>::matches(&ty(0x09, false, 0, "System.UInt32")));
    assert!(<u32 as Argument>::matches(&ty(0x09, false, 0, "System.UInt32")));
    assert!(<bool as Argument>::matches(&ty(0x02, false, 0, "System.Boolean")));
    assert!(<u8 as Argument>::matches(&ty(0x05, false, 0, "System.Byte")));
    assert!(<i8 as Argument>::matches(&ty(0x04, false, 0, "System.SByte")));
    assert!(<i16 as Argument>::matches(&ty(0x06, false, 0, "System.Int16")));
    assert!(<u16 as Argument>::matches(&ty(0x07, false, 0, "System.UInt16")));
    assert!(<i64 as Argument>::matches(&ty(0x0a, false, 0, "System.Int64")));
    assert!(<u64 as Argument>::matches(&ty(0x0b, false, 0, "System.UInt64")));
}

#[test]
fn one_argument_fits_one_matching_parameter() {
    let one_int = vec![param("x", ty(0x08, false, 0, "System.Int32"))];
    let m = method(0x0010, Some(one_int), 1);
    assert!(<i32 as Arguments<1>>::matches(&m));
    assert!(!<i64 as Arguments<1>>::matches(&m));
    assert!(m.matches_signature::<(), i32, (), 1>());
    let two = vec![
        param("x", ty(0x08, false, 0, "System.Int32")),
        param("y", ty(0x08, false, 0, "System.Int32")),
    ];
    assert!(!<i32 as Arguments<1>>::matches(&method(0, Some(two), 2)));
    assert!(!<i32 as Arguments<1>>::matches(&method(0, None, 0)));
}
