use foreign::{CloneToForeign, FromForeign, IntoForeign, IntoNative, OwnedPointer};
use libc::c_char;

fn c_str(s: &str) -> Vec<c_char> {
    let mut v: Vec<c_char> = s.bytes().map(|b| b as c_char).collect();
    v.push(0);
    v
}

fn strlen<T: Copy + Default + PartialEq>(p: &[T]) -> usize {
    p.iter().position(|&c| c == T::default()).unwrap()
}

#[test]
fn test_cloned_from_foreign_string() {
    let s = "Hello, world!".to_string();
    let cstr = c_str("Hello, world!");
    let cloned = String::cloned_from_foreign(Some(&cstr));
    assert_eq!(s, cloned);
}

#[test]
fn test_from_foreign_string() {
    let s = "Hello, world!".to_string();
    let cloned = s.clone_to_foreign_ptr();
    let copy = String::from_foreign(cloned);
    assert_eq!(s, copy);
}

#[test]
fn test_owned_pointer_into() {
    let s = "Hello, world!";
    let cloned: OwnedPointer<String> = s.clone_to_foreign().into();
    let copy = cloned.into_native();
    assert_eq!(s, copy);
}

#[test]
fn test_owned_pointer_into_native() {
    let s = "Hello, world!".to_string();
    let cloned = s.clone_to_foreign();
    let copy = cloned.into_native();
    assert_eq!(s, copy);
}

#[test]
fn test_ptr_into_native() {
    let s = "Hello, world!".to_string();
    let cloned = s.clone_to_foreign_ptr();
    let copy: String = cloned.into_native();
    assert_eq!(s, copy);

    let cloned = s.clone_to_foreign_ptr();
    let copy: c_char = cloned.into_native();
    assert_eq!(s.as_bytes()[0], copy as u8);
}

#[test]
fn test_clone_to_foreign_str() {
    let s = "Hello, world!";
    let p = c_str("Hello, world!");
    let cloned = s.clone_to_foreign();
    let block = cloned.as_ptr().unwrap();
    let len = strlen(block);
    assert_eq!(len, s.len());
    assert_eq!(&block[..len + 1], &p[..len + 1]);
}

#[test]
fn test_into_foreign_string() {
    let s = "Hello, world!".to_string();
    let p = c_str("Hello, world!");
    let mut consumed = s.into_foreign();
    let block = consumed.as_ptr().unwrap();
    let len = strlen(block);
    assert_eq!(len, p.len() - 1);
    assert_eq!(&block[..len + 1], &p[..len + 1]);

    consumed.as_mut_ptr().unwrap()[5] = 0;
    assert_eq!(String::cloned_from_foreign(consumed.as_ptr()), "Hello");
}

#[test]
fn test_clone_to_foreign_bytes() {
    let s = b"Hello, world!\0";
    let cloned = s.clone_to_foreign();
    let block = cloned.as_ptr().unwrap();
    let len = strlen(block);
    assert_eq!(len, s.len() - 1);
    assert_eq!(&block[..len + 1], &s[..len + 1]);
}

#[test]
fn test_clone_to_foreign_string() {
    let s = "Hello, world!".to_string();
    let cstr = c_str("Hello, world!");
    let cloned = s.clone_to_foreign();
    let block = cloned.as_ptr().unwrap();
    let len = strlen(block);
    assert_eq!(len, s.len());
    assert_eq!(&block[..len + 1], &cstr[..len + 1]);
}

#[test]
fn test_string_roundtrip_unicode() {
    let s = "héllo, wörld ✓ 🦀";
    let back = String::from_foreign(s.clone_to_foreign_ptr());
    assert_eq!(back, s);
}

#[test]
fn test_empty_string_is_lone_nul() {
    let cloned = "".clone_to_foreign();
    assert_eq!(cloned.as_ptr(), Some(&[0 as c_char][..]));
    assert_eq!(String::from_foreign(cloned.into_inner()), "");
}

#[test]
fn test_string_with_nul_reads_back_truncated() {
    let s = "Hello\0world";
    let cloned = s.clone_to_foreign();
    assert_eq!(cloned.as_ptr().unwrap().len(), s.len() + 1);
    assert_eq!(String::from_foreign(cloned.into_inner()), "Hello");
}

#[test]
fn test_invalid_utf8_is_replaced() {
    let cells: Vec<c_char> = vec![0x66, 0xFFu8 as c_char, 0x6f, 0];
    assert_eq!(String::cloned_from_foreign(Some(&cells)), "f\u{FFFD}o");
}

#[test]
fn test_read_stops_at_first_nul() {
    let cells: Vec<c_char> = vec![0x61, 0x62, 0, 0x63, 0];
    assert_eq!(String::cloned_from_foreign(Some(&cells)), "ab");
}
