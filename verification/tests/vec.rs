use foreign::{BorrowForeign, BorrowForeignMut, CloneToForeign, IntoForeign};

#[test]
fn test_vec() {
    // A vec can be produced if a slice type for the elements has the capability.
    let v: Vec<u8> = vec![1, 2, 3];
    let bstr = b"\x01\x02\x03";
    let cloned = v.clone_to_foreign();
    assert_eq!(&cloned.as_ptr().unwrap()[..bstr.len()], &bstr[..]);
}

#[test]
fn test_vec_borrow() {
    // A vec can be produced if a slice type for the elements has the capability.
    let v: Vec<u8> = vec![0x31, 0x41, 0x59];
    let bstr = b"\x31\x41\x59";
    let borrowed = v.borrow_foreign();
    assert_eq!(&borrowed.as_ptr().unwrap()[..bstr.len()], &bstr[..]);
}

#[test]
fn test_vec_into_foreign() {
    // A vec can be produced if a slice type for the elements can be borrowed.
    let v: Vec<u8> = vec![0x21, 0x78, 0x28];
    let bstr = b"\x21\x78\x28";
    let consumed = v.into_foreign();
    assert_eq!(&consumed.as_ptr().unwrap()[..bstr.len()], &bstr[..]);
}

#[test]
fn test_vec_borrow_mut() {
    // A vec can be produced if a slice type for the elements has the capability.
    let mut v: Vec<u8> = vec![0x57, 0x72, 0x15];
    let bstr1 = b"\x57\x72\x15";
    let mut borrowed = v.borrow_foreign_mut();
    assert_eq!(&borrowed.as_ptr().unwrap()[..bstr1.len()], &bstr1[..]);
    borrowed.as_mut_ptr().unwrap()[1] = 0xFF;
    assert_eq!(v[1], 0xFF);
}

#[test]
fn test_vec_into_foreign_write() {
    let v: Vec<u32> = vec![10, 20];
    let mut consumed = v.into_foreign();
    consumed.as_mut_ptr().unwrap()[0] = 11;
    assert_eq!(consumed.as_ptr(), Some(&[11u32, 20][..]));
}
