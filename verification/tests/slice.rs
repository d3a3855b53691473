use foreign::{BorrowForeign, BorrowForeignMut, CloneToForeign, FromForeign};

#[test]
fn test_slice_convert() {
    let a = [123i8, 45i8, 67i8];
    let i = &a[0..=1];
    let p = i.clone_to_foreign();
    assert_eq!(&p.as_ptr().unwrap()[..i.len()], i);
    assert_eq!(i, <[i8; 2]>::cloned_from_foreign(p.as_ptr()));

    let p = i.clone_to_foreign();
    assert_eq!(i, <[i8; 2]>::from_foreign(p.into_inner()));
}

#[test]
fn test_slice_borrow() {
    let i = [123i8, 45i8];
    let borrowed = i.borrow_foreign();
    assert_eq!(&borrowed.as_ptr().unwrap()[..i.len()], &i[..]);

    let cloned = <[i8; 2]>::cloned_from_foreign(borrowed.as_ptr());
    assert_eq!(i, cloned);
}

#[test]
fn test_slice_borrow_mut() {
    let mut i = [123u8, 45u8];
    let (before, len) = (i, i.len());
    let mut borrowed = i.borrow_foreign_mut();
    assert_eq!(&borrowed.as_ptr().unwrap()[..len], &before[..]);

    borrowed.as_mut_ptr().unwrap()[1] = 234;
    let cloned = <[u8; 2]>::cloned_from_foreign(borrowed.as_ptr());

    assert_eq!(i[1], 234);
    assert_eq!(i, cloned);
}

#[test]
fn test_array_convert() {
    let i = [123i8, 45i8];
    let p = i.clone_to_foreign();
    assert_eq!(&p.as_ptr().unwrap()[..i.len()], &i[..]);
    assert_eq!(i, <[i8; 2]>::cloned_from_foreign(p.as_ptr()));

    let p = i.clone_to_foreign();
    assert_eq!(i, <[i8; 2]>::from_foreign(p.into_inner()));
}

#[test]
fn test_empty_slice_is_empty_block() {
    let e: &[u32] = &[];
    assert_eq!(e.clone_to_foreign().as_ptr(), Some(&[][..]));
    assert_eq!(<[u32; 0]>::cloned_from_foreign(Some(&[])), []);
}

#[test]
fn test_array_reads_prefix_of_longer_block() {
    let block = [1u16, 2, 3, 4];
    assert_eq!(<[u16; 3]>::cloned_from_foreign(Some(&block)), [1u16, 2, 3]);
}

#[test]
fn test_slice_of_slice_borrow_mut() {
    let mut v = [1i64, 2, 3];
    let s: &mut [i64] = &mut v[1..];
    s.borrow_foreign_mut().as_mut_ptr().unwrap()[0] = 20;
    assert_eq!(v, [1, 20, 3]);
}
