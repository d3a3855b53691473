use foreign::{BorrowForeign, BorrowForeignMut, CloneToForeign, FixedAlloc, FromForeign};

#[test]
fn test_foreign_int_convert() {
    let i = 123i8;
    let p = i.clone_to_foreign();
    assert_eq!(i, p.as_ptr().unwrap()[0]);
    assert_eq!(i, i8::cloned_from_foreign(p.as_ptr()));
    assert_eq!(i, p.into_native());

    let p = i.clone_to_foreign();
    assert_eq!(i, i8::from_foreign(p.into_inner()));
}

#[test]
fn test_foreign_int_borrow() {
    let i = 123i8;
    assert_eq!(i, i.borrow_foreign().as_ptr().unwrap()[0]);
    assert_eq!(i, 123i8);
}

#[test]
fn test_foreign_int_borrow_mut() {
    let mut i = 123i8;
    let mut borrowed = i.borrow_foreign_mut();
    assert_eq!(borrowed.as_ptr().unwrap()[0], 123i8);
    borrowed.as_mut_ptr().unwrap()[0] = 45i8;
    let borrowed = i.borrow_foreign_mut();
    assert_eq!(borrowed.as_ptr().unwrap()[0], 45i8);
    assert_eq!(i, 45i8);
}

#[test]
fn test_primitive_roundtrip_each_type() {
    assert!(bool::from_foreign(true.clone_to_foreign_ptr()));
    assert_eq!(u8::from_foreign(200u8.clone_to_foreign_ptr()), 200u8);
    assert_eq!(i16::from_foreign((-300i16).clone_to_foreign_ptr()), -300i16);
    assert_eq!(u16::from_foreign(60000u16.clone_to_foreign_ptr()), 60000u16);
    assert_eq!(i32::from_foreign((-70000i32).clone_to_foreign_ptr()), -70000i32);
    assert_eq!(u32::from_foreign(4000000000u32.clone_to_foreign_ptr()), 4000000000u32);
    assert_eq!(i64::from_foreign(i64::MIN.clone_to_foreign_ptr()), i64::MIN);
    assert_eq!(u64::from_foreign(u64::MAX.clone_to_foreign_ptr()), u64::MAX);
    assert_eq!(isize::from_foreign((-5isize).clone_to_foreign_ptr()), -5isize);
    assert_eq!(usize::from_foreign(77usize.clone_to_foreign_ptr()), 77usize);
}

#[test]
fn test_primitive_datum_is_one_cell() {
    let p = 0x1234u16.clone_to_foreign();
    assert_eq!(p.as_ptr(), Some(&[0x1234u16][..]));
}

#[test]
fn test_cloned_from_foreign_reads_first_cell() {
    let block = [7u32, 8u32, 9u32];
    assert_eq!(u32::cloned_from_foreign(Some(&block[1..])), 8u32);
}

#[test]
fn test_clone_into_foreign_appends_cell() {
    let mut dest: Vec<u8> = vec![1];
    u8::clone_into_foreign(&mut dest, &42);
    assert_eq!(dest, vec![1u8, 42u8]);
}

#[test]
fn test_clone_array_from_foreign() {
    let src: [u8; 3] = [1, 2, 3];
    let dest: [u8; 3] = u8::clone_array_from_foreign(&src);
    assert_eq!(dest, src);
}

#[test]
fn test_clone_from_native_slice() {
    let mut dest: Vec<u8> = Vec::new();
    u8::clone_from_native_slice(&mut dest, &[1, 2, 3]);
    assert_eq!(dest, vec![1u8, 2u8, 3u8]);
}

#[test]
fn test_borrow_mut_bool_writes_through() {
    let mut b = false;
    b.borrow_foreign_mut().as_mut_ptr().unwrap()[0] = true;
    assert!(b);
}
