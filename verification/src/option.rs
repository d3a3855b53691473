//! Options: `None` is represented by `NULL`, `Some` by the C datum of its
//! contents.
use crate::foreign::{
    BorrowForeign, BorrowForeignMut, BorrowedMutPointer, BorrowedPointer, CloneToForeign,
    FreeForeign, FromForeign, IntoForeign, OwnedPointer,
};
use vstd::prelude::*;

verus! {

/// Put `s` in a `Some`.
fn wrap_some<S>(s: S) -> (o: Option<S>)
    ensures
        o == Some(s),
{
    Some(s)
}

impl<T: FreeForeign> FreeForeign for Option<T> {
    type Foreign = <T as FreeForeign>::Foreign;

    open spec fn foreign_repr(&self) -> Option<Seq<<T as FreeForeign>::Foreign>> {
        match self {
            Some(x) => x.foreign_repr(),
            None => None,
        }
    }

    fn free_foreign(x: Option<Vec<<T as FreeForeign>::Foreign>>) {
        T::free_foreign(x)
    }
}

impl<T: CloneToForeign> CloneToForeign for Option<T> {
    fn clone_to_foreign(&self) -> (r: OwnedPointer<Self>) {
        // Same as the underlying implementation, but `None` becomes `NULL`.
        match self {
            Some(x) => x.clone_to_foreign().into(),
            None => OwnedPointer::null_mut(),
        }
    }
}

impl<T: FromForeign> FromForeign for Option<T> {
    open spec fn valid_foreign(p: Option<Seq<<T as FreeForeign>::Foreign>>) -> bool {
        p is None || T::valid_foreign(p)
    }

    open spec fn read_foreign(p: Option<Seq<<T as FreeForeign>::Foreign>>, v: Option<T>) -> bool {
        match p {
            None => v is None,
            Some(_) => v matches Some(x) && T::read_foreign(p, x),
        }
    }

    fn cloned_from_foreign(p: Option<&[<T as FreeForeign>::Foreign]>) -> (r: Option<T>) {
        // Same as the underlying implementation, but `NULL` is accepted.
        if p.is_none() {
            None
        } else {
            Some(T::cloned_from_foreign(p))
        }
    }
}

impl<'a, T: BorrowForeign<'a>> BorrowForeign<'a> for Option<T> {
    type Storage = Option<<T as BorrowForeign<'a>>::Storage>;

    fn borrow_foreign(&'a self) -> (r: BorrowedPointer<Self, Self::Storage>)
        ensures
            *self is None ==> r.storage_spec() is None,
            *self is Some ==> exists|
                x: &'a T,
                inner: BorrowedPointer<T, <T as BorrowForeign<'a>>::Storage>,
            |
                {
                    &&& *x == self.unwrap()
                    &&& call_ensures(T::borrow_foreign, (x,), inner)
                    &&& r.storage_spec() == Some(inner.storage_spec())
                },
    {
        match self {
            None => BorrowedPointer::new(None),
            Some(x) => {
                let bp = x.borrow_foreign();
                bp.map(wrap_some)
            },
        }
    }
}

impl<T: IntoForeign> IntoForeign for Option<T> {
    type Storage = Option<<T as IntoForeign>::Storage>;

    open spec fn into_foreign_requires(&self) -> bool {
        match self {
            Some(x) => x.into_foreign_requires(),
            None => true,
        }
    }

    fn into_foreign(self) -> (r: BorrowedMutPointer<Self, Self::Storage>)
        ensures
            self is None ==> r.storage_spec() is None,
            self is Some ==> exists|inner: BorrowedMutPointer<T, <T as IntoForeign>::Storage>|
                {
                    &&& call_ensures(T::into_foreign, (self.unwrap(),), inner)
                    &&& r.storage_spec() == Some(inner.storage_spec())
                },
    {
        match self {
            None => BorrowedMutPointer::new(None),
            Some(x) => {
                let bp = x.into_foreign();
                bp.map(wrap_some)
            },
        }
    }
}

impl<'a, T: BorrowForeignMut<'a>> BorrowForeignMut<'a> for Option<T> {
    type Storage = Option<<T as BorrowForeignMut<'a>>::Storage>;

    fn borrow_foreign_mut(&'a mut self) -> (r: BorrowedMutPointer<Self, Self::Storage>)
        ensures
            *old(self) is None ==> r.storage_spec() is None && *final(self) is None,
            *old(self) is Some ==> *final(self) is Some && exists|
                x: &'a mut T,
                inner: BorrowedMutPointer<T, <T as BorrowForeignMut<'a>>::Storage>,
            |
                {
                    &&& *x == old(self).unwrap()
                    &&& *final(x) == final(self).unwrap()
                    &&& call_ensures(T::borrow_foreign_mut, (x,), inner)
                    &&& r.storage_spec() == Some(inner.storage_spec())
                },
    {
        match self {
            None => BorrowedMutPointer::new(None),
            Some(x) => {
                let bp = x.borrow_foreign_mut();
                bp.map(wrap_some)
            },
        }
    }
}

/// `NULL` and `None` stand for each other: `None` is represented by `NULL`,
/// `NULL` is valid data for an `Option`, and it is read back as `None`.
pub proof fn lemma_none_is_null<T: FromForeign>(v: Option<T>)
    ensures
        (None::<T>).foreign_repr() is None,
        Option::<T>::valid_foreign(None),
        Option::<T>::read_foreign(None, v) <==> v is None,
{
}

/// A value represented by a non-`NULL` datum is read back, through an
/// `Option`, as `Some` of what the datum is read as.
pub proof fn lemma_some_roundtrip<T: FromForeign>(x: T, v: Option<T>)
    requires
        x.foreign_repr() is Some,
    ensures
        Some(x).foreign_repr() == x.foreign_repr(),
        T::valid_foreign(x.foreign_repr()) ==> Option::<T>::valid_foreign(Some(x).foreign_repr()),
        Option::<T>::read_foreign(Some(x).foreign_repr(), v) <==> (v matches Some(y)
            && T::read_foreign(x.foreign_repr(), y)),
{
}

} // verus!
