use foreign::{CloneToForeign, FromForeign, IntoForeign};
use libc::c_char;
use std::borrow::Cow;

fn c_str(s: &str) -> Vec<c_char> {
    let mut v: Vec<c_char> = s.bytes().map(|b| b as c_char).collect();
    v.push(0);
    v
}

fn strlen(p: &[c_char]) -> usize {
    p.iter().position(|&c| c == 0).unwrap()
}

#[test]
fn test_cloned_from_foreign_string_cow() {
    let s = "Hello, world!".to_string();
    let cstr = c_str("Hello, world!");
    let cloned: Cow<str> = Cow::cloned_from_foreign(Some(&cstr));
    assert_eq!(s, cloned);
}

#[test]
fn test_clone_to_foreign_string_cow() {
    let p = c_str("Hello, world!");
    for s in [
        Into::<Cow<str>>::into("Hello, world!"),
        Into::<Cow<str>>::into("Hello, world!".to_string()),
    ] {
        let cloned = s.clone_to_foreign();
        let block = cloned.as_ptr().unwrap();
        let len = strlen(block);
        assert_eq!(len, s.len());
        assert_eq!(&block[..len + 1], &p[..len + 1]);
    }
}

#[test]
fn test_into_foreign_string_cow() {
    let p = c_str("Hello, world!");
    for s in [
        Into::<Cow<str>>::into("Hello, world!"),
        Into::<Cow<str>>::into("Hello, world!".to_string()),
    ] {
        let consumed = s.into_foreign();
        let block = consumed.as_ptr().unwrap();
        let len = strlen(block);
        assert_eq!(len, strlen(&p));
        assert_eq!(&block[..len + 1], &p[..len + 1]);
    }
}

#[test]
fn test_cow_from_foreign_is_owned() {
    let cloned: Cow<str> = Cow::from_foreign("abc".clone_to_foreign_ptr());
    assert!(matches!(cloned, Cow::Owned(_)));
    assert_eq!(cloned, "abc");
}

#[test]
fn test_into_foreign_slice_cow() {
    let data = [7u8, 8, 9];
    for s in [Cow::Borrowed(&data[..]), Cow::Owned(data.to_vec())] {
        let mut consumed = s.into_foreign();
        assert_eq!(consumed.as_ptr(), Some(&data[..]));
        consumed.as_mut_ptr().unwrap()[0] = 1;
        assert_eq!(consumed.as_ptr(), Some(&[1u8, 8, 9][..]));
    }
    assert_eq!(data, [7u8, 8, 9]);
}
