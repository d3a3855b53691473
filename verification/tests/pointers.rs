use foreign::{BorrowForeign, CloneToForeign, FreeForeign, FromForeign, OwnedPointer};
use libc::c_char;

#[test]
fn test_owned_pointer_null_mut() {
    let p = OwnedPointer::<String>::null_mut();
    assert_eq!(p.as_ptr(), None);
    assert_eq!(p.into_inner(), None);
}

#[test]
fn test_owned_pointer_new_and_into_inner() {
    let p = OwnedPointer::<u8>::new(Some(vec![5u8]));
    assert_eq!(p.as_ptr(), Some(&[5u8][..]));
    assert_eq!(p.into_inner(), Some(vec![5u8]));
}

#[test]
fn test_owned_pointer_from() {
    let foreign_str = "Hello, world!".clone_to_foreign();
    let foreign_string = OwnedPointer::<String>::from(foreign_str);
    assert_eq!(foreign_string.into_native(), "Hello, world!");
}

#[test]
fn test_owned_pointer_as_mut_ptr() {
    let mut p = 7u64.clone_to_foreign();
    p.as_mut_ptr().unwrap()[0] = 8;
    assert_eq!(p.into_native(), 8u64);
}

#[test]
fn test_owned_pointer_default() {
    let p = OwnedPointer::<u32>::default();
    assert_eq!(p.as_ptr(), Some(&[0u32][..]));
    let s = OwnedPointer::<String>::default();
    assert_eq!(s.as_ptr(), Some(&[0 as c_char][..]));
}

#[test]
fn test_borrowed_pointer_to_owned() {
    let s: i8 = 42;
    let borrowed = s.borrow_foreign();
    let owned = borrowed.to_owned();
    assert_eq!(owned.as_ptr(), borrowed.as_ptr());
    assert_eq!(i8::from_foreign(owned.into_inner()), 42);
}

#[test]
fn test_free_foreign_takes_ownership() {
    let p = "bye".clone_to_foreign_ptr();
    String::free_foreign(p);
}
