use foreign::{BorrowForeign, BorrowForeignMut, CloneToForeign, FromForeign, IntoForeign};
use libc::c_char;

fn c_str(s: &str) -> Vec<c_char> {
    let mut v: Vec<c_char> = s.bytes().map(|b| b as c_char).collect();
    v.push(0);
    v
}

fn strlen<T: Copy + Default + PartialEq>(p: &[T]) -> usize {
    p.iter().position(|&c| c == T::default()).unwrap()
}

#[test]
fn test_box_cloned_from_foreign() {
    // A box can be produced if the inner type has the capability.
    let s = Box::new("Hello, world!".to_string());
    let cstr = c_str("Hello, world!");
    let cloned = Box::<String>::cloned_from_foreign(Some(&cstr));
    assert_eq!(s, cloned);
}

#[test]
fn test_box_clone_to_foreign() {
    // A box can be turned into a foreign object if the inner type has the capability.
    let s = Box::new(128u32);
    let cloned = s.clone_to_foreign();
    assert_eq!(*s, cloned.as_ptr().unwrap()[0]);
}

#[test]
fn test_box_into_foreign() {
    // A box can be consumed if the inner type can be borrowed.
    let s = Box::new([128i32, 256i32]);
    let consumed = s.into_foreign();
    assert_eq!(consumed.as_ptr().unwrap()[0], 128);
    assert_eq!(consumed.as_ptr().unwrap()[1], 256);
}

#[test]
fn test_box_borrow() {
    // Contents of a Box can be borrowed.
    let s = Box::new(c_str("Hello, world!"));
    let borrowed = s.borrow_foreign();
    let cloned = Box::<String>::cloned_from_foreign(borrowed.as_ptr());
    assert_eq!("Hello, world!", *cloned);
}

#[test]
fn test_box_borrow_mut() {
    // Contents of a Box can be borrowed.
    let mut s = Box::new(123u16);
    let mut borrowed = s.borrow_foreign_mut();
    borrowed.as_mut_ptr().unwrap()[0] = 456;
    assert_eq!(*s, 456);
}

#[test]
fn test_box_unsized() {
    let text = "Hello, world!";
    let boxed: Box<[u8]> = b"Hello, world!\0".to_vec().into_boxed_slice();
    let borrowed = boxed.borrow_foreign();
    let block = borrowed.as_ptr().unwrap();
    let len = strlen(block);
    assert_eq!(len, text.len());
    assert_eq!(&block[..len + 1], b"Hello, world!\0");
}

#[test]
fn test_box_of_slice_into_foreign_keeps_contents() {
    let boxed: Box<[u8]> = vec![3u8, 1, 4].into_boxed_slice();
    let mut consumed = boxed.into_foreign();
    consumed.as_mut_ptr().unwrap()[2] = 5;
    assert_eq!(consumed.as_ptr(), Some(&[3u8, 1, 5][..]));
}

#[test]
fn test_box_of_option_borrow_mut_writes_through() {
    let mut s = Box::new(Some(3u32));
    s.borrow_foreign_mut().as_mut_ptr().unwrap()[0] = 4;
    assert_eq!(*s, Some(4));
}
