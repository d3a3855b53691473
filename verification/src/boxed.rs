//! Boxes: the C datum of a box is that of its contents.
use crate::foreign::{
    BorrowForeign, BorrowForeignMut, BorrowedMutPointer, BorrowedPointer, CloneToForeign,
    ForeignLayout, FreeForeign, FromForeign, IntoForeign, OwnedPointer,
};
use vstd::prelude::*;

verus! {

impl<T: FreeForeign + ?Sized> FreeForeign for Box<T> {
    type Foreign = <T as FreeForeign>::Foreign;

    open spec fn foreign_repr(&self) -> Option<Seq<<T as FreeForeign>::Foreign>> {
        (**self).foreign_repr()
    }

    fn free_foreign(x: Option<Vec<<T as FreeForeign>::Foreign>>) {
        T::free_foreign(x)
    }
}

impl<T: CloneToForeign + ?Sized> CloneToForeign for Box<T> {
    fn clone_to_foreign(&self) -> (r: OwnedPointer<Self>) {
        (**self).clone_to_foreign().into()
    }
}

impl<T: FromForeign> FromForeign for Box<T> {
    open spec fn valid_foreign(p: Option<Seq<<T as FreeForeign>::Foreign>>) -> bool {
        T::valid_foreign(p)
    }

    open spec fn read_foreign(p: Option<Seq<<T as FreeForeign>::Foreign>>, v: Box<T>) -> bool {
        T::read_foreign(p, *v)
    }

    fn cloned_from_foreign(p: Option<&[<T as FreeForeign>::Foreign]>) -> (r: Box<T>) {
        Box::new(T::cloned_from_foreign(p))
    }
}

impl<'a, T: BorrowForeign<'a> + ?Sized> BorrowForeign<'a> for Box<T> {
    type Storage = <T as BorrowForeign<'a>>::Storage;

    fn borrow_foreign(&'a self) -> (r: BorrowedPointer<Self, Self::Storage>)
        ensures
            exists|x: &'a T, inner: BorrowedPointer<T, <T as BorrowForeign<'a>>::Storage>|
                {
                    &&& x == &**self
                    &&& call_ensures(T::borrow_foreign, (x,), inner)
                    &&& r.storage_spec() == inner.storage_spec()
                },
    {
        (**self).borrow_foreign().into()
    }
}

impl<T: ForeignLayout + ?Sized + 'static> IntoForeign for Box<T> {
    type Storage = Self;

    open spec fn into_foreign_requires(&self) -> bool {
        true
    }

    fn into_foreign(self) -> (r: BorrowedMutPointer<Self, Self>)
        ensures
            r.storage_spec() == self,
    {
        proof {
            T::lemma_layout(&*self);
        }
        BorrowedMutPointer::new(self)
    }
}

impl<'a, T: BorrowForeignMut<'a> + ?Sized> BorrowForeignMut<'a> for Box<T> {
    type Storage = <T as BorrowForeignMut<'a>>::Storage;

    fn borrow_foreign_mut(&'a mut self) -> (r: BorrowedMutPointer<Self, Self::Storage>)
        ensures
            exists|
                x: &'a mut T,
                inner: BorrowedMutPointer<T, <T as BorrowForeignMut<'a>>::Storage>,
            |
                {
                    &&& &*x == &**old(self)
                    &&& &*final(x) == &**final(self)
                    &&& call_ensures(T::borrow_foreign_mut, (x,), inner)
                    &&& r.storage_spec() == inner.storage_spec()
                },
    {
        let x: &'a mut T = &mut **self;
        let inner = T::borrow_foreign_mut(x);
        inner.into()
    }
}

impl<T: ForeignLayout + ?Sized> ForeignLayout for Box<T> {
    proof fn lemma_layout(x: &Self) {
        T::lemma_layout(&**x);
    }
}

/// A box has the C datum of its contents, and a C datum is read as a box of
/// what it is read as.
pub proof fn lemma_box_is_transparent<T: FromForeign>(x: Box<T>, p: Option<Seq<T::Foreign>>, y: Box<T>)
    ensures
        x.foreign_repr() == (*x).foreign_repr(),
        Box::<T>::valid_foreign(p) == T::valid_foreign(p),
        Box::<T>::read_foreign(p, y) == T::read_foreign(p, *y),
{
}

} // verus!
