use castaway::internal::{CastMethod, CastToken, TryCastMut, TryCastOwned, TryCastRef};

#[test]
fn owned_cast_gives_the_value_when_types_match() {
    let token = (CastToken::<i32>::of(), CastToken::<i32>::of());
    assert_eq!(token.try_cast(42i32), Ok(42i32));
}

#[test]
fn owned_cast_hands_the_value_back_when_types_differ() {
    let token = (CastToken::<u32>::of(), CastToken::<i32>::of());
    assert_eq!(token.try_cast(42u32), Err(42u32));
    assert!(!token.can_cast());
    assert_eq!(token.cast_method(), None);
}

#[test]
fn owned_cast_of_a_string() {
    let token = (CastToken::<String>::of(), CastToken::<String>::of());
    assert_eq!(token.try_cast(String::from("abc")), Ok(String::from("abc")));
    let other = (CastToken::<String>::of(), CastToken::<&'static str>::of());
    assert_eq!(other.try_cast(String::from("abc")), Err(String::from("abc")));
}

#[test]
fn ref_cast_points_at_the_same_value() {
    let x = 7u8;
    let token = (CastToken::<&u8>::of_val(&&x), CastToken::<&u8>::of());
    let r = (&&token).try_cast(&x).unwrap();
    assert!(core::ptr::eq(r, &x));
    let other = (CastToken::<&u8>::of(), CastToken::<&i8>::of());
    let back = (&&other).try_cast(&x).unwrap_err();
    assert!(core::ptr::eq(back, &x));
}

#[test]
fn mut_cast_writes_through_to_the_original() {
    let mut x = 1u16;
    let token = (CastToken::<&mut u16>::of(), CastToken::<&mut u16>::of());
    *(&&token).try_cast(&mut x).unwrap() = 5;
    assert_eq!(x, 5);
    let other = (CastToken::<&mut u16>::of(), CastToken::<&mut u64>::of());
    *(&&other).try_cast(&mut x).unwrap_err() = 9;
    assert_eq!(x, 9);
    assert_eq!((&&other).cast_method(), None);
    assert_eq!((&&token).cast_method(), Some(CastMethod::Mut));
}

#[test]
fn method_reported_only_when_castable() {
    assert_eq!(CastMethod::SliceRef.if_castable(true), Some(CastMethod::SliceRef));
    assert_eq!(CastMethod::SliceRef.if_castable(false), None);
    assert_eq!(CastMethod::Owned.if_castable(true), Some(CastMethod::Owned));
}

#[test]
fn tokens_made_from_a_value_select_the_same_cast() {
    let x = 5i64;
    let token = (CastToken::of_val(&x), CastToken::<i64>::of());
    assert!(token.can_cast());
    assert_eq!(token.try_cast(x), Ok(5i64));
}
