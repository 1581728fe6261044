use libil2cpp::gc::lower_hex_text;
use libil2cpp::{ByRef, Gc, Il2CppClass, Il2CppType};

struct Player;

fn ty(code: u8, by_ref: bool, data: usize, name: &str) -> Il2CppType {
    Il2CppType { type_code: code, by_ref, data, name: name.to_string() }
}

fn player_class() -> Il2CppClass {
    Il2CppClass { handle: 0x40, this_arg: ty(0x12, true, 0x40, "Player&") }
}

#[test]
fn null_reference_is_null() {
    assert!(Gc::<Player>::null().is_null());
    assert!(Gc::<Player>::default().is_null());
    assert!(Gc::<Player>::new(0).is_null());
    assert!(!Gc::<Player>::new(0x1000).is_null());
}

#[test]
fn option_round_trip() {
    let g = Gc::<Player>::new(0x1000);
    assert_eq!(g.as_opt(), Some(0x1000));
    assert!(Gc::<Player>::from_option(g.as_opt()) == g);
    assert_eq!(Gc::<Player>::null().as_opt(), None);
    assert!(Gc::<Player>::from_option(None).is_null());
    assert_eq!(Gc::<Player>::from_option(Some(0x20)).as_opt(), Some(0x20));
}

#[test]
fn equality_is_by_address() {
    let a = Gc::<Player>::new(0x10);
    let b = a.clone();
    let c = a;
    assert!(a == b);
    assert!(a == c);
    assert!(a != Gc::<Player>::new(0x20));
    assert!(Gc::<Player>::null() == Gc::<Player>::default());
}

#[test]
fn debug_text_of_references() {
    assert_eq!(Gc::<Player>::null().debug_text("Player"), "Gc<Player>::null()");
    assert_eq!(Gc::<Player>::new(0x7f3a10).debug_text("Player"), "Gc<Player>(0x7f3a10)");
    assert_eq!(Gc::<Player>::new(9).debug_text("Player"), "Gc<Player>(0x9)");
}

#[test]
fn writes_through_the_wrapper_reach_the_value() {
    let mut x: u32 = 5;
    {
        let mut r = ByRef::new(&mut x);
        assert_eq!(*r.get_pointer(), 5);
        *r.get_pointer_mut() = 7;
        assert_eq!(*r.as_ref(), 7);
        *r.as_mut() += 1;
    }
    assert_eq!(x, 8);
}

#[test]
fn into_actual_keeps_the_value() {
    let mut x: u32 = 11;
    let r = ByRef::from_actual(&mut x);
    assert_eq!(*r.into_actual(), 11);
}

#[test]
fn by_reference_type_is_this_type() {
    let class = player_class();
    assert_eq!(ByRef::<u32>::type_(&class).name(), "Player&");
}

#[test]
fn by_reference_never_fits_by_value() {
    let t = ty(0x12, false, 0x40, "Player");
    assert!(!ByRef::<u32>::matches_value_argument(&t));
    assert!(!ByRef::<u32>::matches_value_parameter(&t));
}

#[test]
fn by_reference_argument_matching() {
    let class = player_class();
    let own = ty(0x12, true, 0x40, "Player&");
    let base_ref = ty(0x12, true, 0x50, "Entity&");
    let base_val = ty(0x12, false, 0x50, "Entity");
    assert!(ByRef::<u32>::matches_reference_argument(&class, &own, false));
    assert!(ByRef::<u32>::matches_reference_argument(&class, &base_ref, true));
    assert!(!ByRef::<u32>::matches_reference_argument(&class, &base_ref, false));
    assert!(!ByRef::<u32>::matches_reference_argument(&class, &base_val, true));
    assert!(ByRef::<u32>::matches_reference_parameter(&class, &own, false));
    assert!(ByRef::<u32>::matches_reference_parameter(&class, &base_ref, true));
    assert!(!ByRef::<u32>::matches_reference_parameter(&class, &base_val, true));
}

#[test]
fn by_reference_equality_compares_values() {
    let mut a: u32 = 3;
    let mut b: u32 = 3;
    let mut c: u32 = 4;
    let ra = ByRef::new(&mut a);
    let rb = ByRef::new(&mut b);
    let rc = ByRef::new(&mut c);
    assert!(ra == rb);
    assert!(ra != rc);
}

#[test]
fn conversions_between_references_and_options() {
    let g: Gc<Player> = Gc::from(0x44usize);
    assert!(g == Gc::<Player>::new(0x44));
    let o: Option<usize> = g.into();
    assert_eq!(o, Some(0x44));
    let n: Option<usize> = Gc::<Player>::null().into();
    assert_eq!(n, None);
    let h: Gc<Player> = Gc::from(None::<usize>);
    assert!(h.is_null());
    let k: Gc<Player> = Gc::from(Some(0x8usize));
    assert_eq!(k.as_opt(), Some(0x8));
}

#[test]
fn hexadecimal_text() {
    assert_eq!(lower_hex_text(0), "0");
    assert_eq!(lower_hex_text(9), "9");
    assert_eq!(lower_hex_text(10), "a");
    assert_eq!(lower_hex_text(255), "ff");
    assert_eq!(lower_hex_text(0x10), "10");
    assert_eq!(lower_hex_text(0xdead_beef), "deadbeef");
    assert_eq!(lower_hex_text(usize::MAX), format!("{:x}", usize::MAX));
}

#[test]
fn by_reference_derefs_to_the_value() {
    let mut x: u32 = 21;
    let r = ByRef::new(&mut x);
    assert_eq!(*r, 21);
}

#[test]
fn written_value_stays_after_into_actual() {
    let mut y: u64 = 1;
    let mut c = ByRef::new(&mut y);
    *c.get_pointer_mut() = 3;
    let r = c.into_actual();
    assert_eq!(*r, 3);
    assert_eq!(y, 3);
}

#[test]
fn assignment_through_deref_mut_reaches_the_variable() {
    let mut x: u32 = 5;
    {
        let mut b = ByRef::new(&mut x);
        *b = 9;
        assert_eq!(*b.get_pointer(), 9);
    }
    assert_eq!(x, 9);
}
