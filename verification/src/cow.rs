//! Copy-on-write values: the C datum of a `Cow` is that of the borrowed or
//! owned value it holds.
use crate::foreign::{
    BorrowForeign, BorrowedMutPointer, BorrowedPointer, CloneToForeign, FreeForeign, FromForeign,
    IntoForeign, OwnedPointer, PlainForeign,
};
use std::borrow::Cow;
use std::borrow::ToOwned;
use vstd::prelude::*;

verus! {

impl<'a, B> FreeForeign for Cow<'a, B> where
    B: 'a + ToOwned + ?Sized + FreeForeign,
    <B as ToOwned>::Owned: FreeForeign<Foreign = <B as FreeForeign>::Foreign>,
 {
    type Foreign = <B as FreeForeign>::Foreign;

    open spec fn foreign_repr(&self) -> Option<Seq<<B as FreeForeign>::Foreign>> {
        match self {
            Cow::Borrowed(b) => b.foreign_repr(),
            Cow::Owned(o) => o.foreign_repr(),
        }
    }

    fn free_foreign(ptr: Option<Vec<<B as FreeForeign>::Foreign>>) {
        B::free_foreign(ptr);
    }
}

impl<'a, B> CloneToForeign for Cow<'a, B> where
    B: 'a + ToOwned + ?Sized + CloneToForeign,
    <B as ToOwned>::Owned: CloneToForeign + FreeForeign<Foreign = <B as FreeForeign>::Foreign>,
 {
    fn clone_to_foreign(&self) -> (r: OwnedPointer<Self>) {
        match self {
            Cow::Borrowed(b) => b.clone_to_foreign().into(),
            Cow::Owned(o) => o.clone_to_foreign().into(),
        }
    }
}

impl<'a, B> BorrowForeign<'a> for Cow<'a, B> where
    B: 'a + ToOwned + ?Sized + BorrowForeign<'a>,
    <B as ToOwned>::Owned: BorrowForeign<
        'a,
        Foreign = <B as FreeForeign>::Foreign,
        Storage = <B as BorrowForeign<'a>>::Storage,
    >,
 {
    type Storage = <B as BorrowForeign<'a>>::Storage;

    fn borrow_foreign(&'a self) -> (r: BorrowedPointer<Self, Self::Storage>) {
        match self {
            Cow::Borrowed(b) => b.borrow_foreign().into(),
            Cow::Owned(o) => o.borrow_foreign().into(),
        }
    }
}

impl<'a, B> FromForeign for Cow<'a, B> where
    B: 'a + ToOwned + ?Sized + FreeForeign,
    <B as ToOwned>::Owned: FromForeign + FreeForeign<Foreign = <B as FreeForeign>::Foreign>,
 {
    open spec fn valid_foreign(p: Option<Seq<<B as FreeForeign>::Foreign>>) -> bool {
        <B as ToOwned>::Owned::valid_foreign(p)
    }

    open spec fn read_foreign(p: Option<Seq<<B as FreeForeign>::Foreign>>, v: Cow<'a, B>) -> bool {
        v matches Cow::Owned(o) && <B as ToOwned>::Owned::read_foreign(p, o)
    }

    fn cloned_from_foreign(p: Option<&[<B as FreeForeign>::Foreign]>) -> (r: Cow<'a, B>) {
        let cloned: <B as ToOwned>::Owned = FromForeign::cloned_from_foreign(p);
        Cow::Owned(cloned)
    }
}

impl<'a> IntoForeign for Cow<'a, str> {
    type Storage = <String as IntoForeign>::Storage;

    open spec fn into_foreign_requires(&self) -> bool {
        match self {
            Cow::Borrowed(b) => !b@.contains('\0'),
            Cow::Owned(o) => o.into_foreign_requires(),
        }
    }

    fn into_foreign(self) -> (r: BorrowedMutPointer<Self, Self::Storage>) {
        let owned: String = match self {
            Cow::Borrowed(b) => b.to_owned(),
            Cow::Owned(o) => o,
        };
        owned.into_foreign().into()
    }
}

impl<'a, T: PlainForeign + Copy + 'static> IntoForeign for Cow<'a, [T]> {
    type Storage = <Vec<T> as IntoForeign>::Storage;

    open spec fn into_foreign_requires(&self) -> bool {
        true
    }

    fn into_foreign(self) -> (r: BorrowedMutPointer<Self, Self::Storage>) {
        let owned: Vec<T> = match self {
            Cow::Borrowed(b) => vstd::slice::slice_to_vec(b),
            Cow::Owned(o) => o,
        };
        owned.into_foreign().into()
    }
}

} // verus!
