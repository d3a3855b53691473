use foreign::{BorrowForeign, BorrowForeignMut, CloneToForeign, FromForeign, IntoForeign};
use libc::c_char;
use std::borrow::Cow;

fn c_str(s: &str) -> Vec<c_char> {
    let mut v: Vec<c_char> = s.bytes().map(|b| b as c_char).collect();
    v.push(0);
    v
}

fn strlen(p: &[c_char]) -> usize {
    p.iter().position(|&c| c == 0).unwrap()
}

#[test]
fn test_option() {
    // An Option can be produced if the inner type has the capability.
    let s = Some("Hello, world!".to_string());
    let cstr = c_str("Hello, world!");
    assert_eq!(Option::<String>::cloned_from_foreign(Some(&cstr)), s);

    let s = Some(Box::new(128u16));
    let cloned = Option::<Box<u16>>::cloned_from_foreign(Some(std::slice::from_ref(&128u16)));
    assert_eq!(s, cloned);
}

#[test]
fn test_option_none() {
    // An Option can be used to produce or convert NULL pointers
    assert!(Option::<u16>::cloned_from_foreign(None).is_none());
    assert!(Option::<u16>::from_foreign(None).is_none());

    assert_eq!(Option::<String>::into_foreign(None).as_ptr(), None);

    assert_eq!(Option::<String>::clone_to_foreign_ptr(&None), None);
}

#[test]
fn test_option_into_foreign() {
    let s = Some("Hello, world!".to_string());
    let p = c_str("Hello, world!");
    let consumed = s.into_foreign();
    let block = consumed.as_ptr().unwrap();
    let len = strlen(block);
    assert_eq!(len, p.len() - 1);
    assert_eq!(&block[..len + 1], &p[..len + 1]);
}

#[test]
fn test_option_borrow() {
    let s: Option<Cow<'static, [u8]>> = None;
    assert_eq!(s.borrow_foreign().as_ptr(), None);
}

#[test]
fn test_option_borrow_mut() {
    let mut s: Option<i8> = None;
    assert_eq!(s.borrow_foreign_mut().as_ptr(), None);
}

#[test]
fn test_option_some_borrow_mut_writes_through() {
    let mut s: Option<i32> = Some(5);
    s.borrow_foreign_mut().as_mut_ptr().unwrap()[0] = 6;
    assert_eq!(s, Some(6));
}

#[test]
fn test_option_clone_some_and_none() {
    assert_eq!(Some(9u8).clone_to_foreign().as_ptr(), Some(&[9u8][..]));
    assert_eq!(None::<u8>.clone_to_foreign().as_ptr(), None);
}

#[test]
fn test_nested_option_some_none_reads_back_none() {
    // `Some(None)` is represented by NULL, which reads back as `None`.
    let v: Option<Option<u8>> = Some(None);
    let p = v.clone_to_foreign_ptr();
    assert_eq!(p, None);
    assert_eq!(Option::<Option<u8>>::from_foreign(p), None);
}
