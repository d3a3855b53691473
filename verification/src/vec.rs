//! Vectors of one-cell values: their C datum is the C array of the cells of
//! their elements, as for slices.
use crate::foreign::{
    foreign_cells, BorrowForeign, BorrowForeignMut, BorrowedMutPointer, BorrowedPointer,
    CloneToForeign, FixedAlloc, ForeignLayout, FreeForeign, IntoForeign, OwnedPointer,
    PlainForeign,
};
use crate::slice::lemma_plain_cells;
use vstd::prelude::*;

verus! {

impl<T: FixedAlloc> FreeForeign for Vec<T> {
    type Foreign = <T as FreeForeign>::Foreign;

    open spec fn foreign_repr(&self) -> Option<Seq<<T as FreeForeign>::Foreign>> {
        Some(foreign_cells(self@))
    }

    fn free_foreign(x: Option<Vec<<T as FreeForeign>::Foreign>>) {
        <[T]>::free_foreign(x)
    }
}

impl<T: FixedAlloc> CloneToForeign for Vec<T> {
    fn clone_to_foreign(&self) -> (r: OwnedPointer<Self>) {
        self.as_slice().clone_to_foreign().into()
    }
}

impl<'a, T: PlainForeign + 'a> BorrowForeign<'a> for Vec<T> {
    type Storage = &'a [T];

    fn borrow_foreign(&'a self) -> (r: BorrowedPointer<Self, &'a [T]>)
        ensures
            r.storage_spec()@ == self@,
    {
        self.as_slice().borrow_foreign().into()
    }
}

impl<T: PlainForeign + 'static> IntoForeign for Vec<T> {
    type Storage = Self;

    open spec fn into_foreign_requires(&self) -> bool {
        true
    }

    fn into_foreign(self) -> (r: BorrowedMutPointer<Self, Self>)
        ensures
            r.storage_spec() == self,
    {
        proof {
            lemma_plain_cells(self@);
        }
        BorrowedMutPointer::new(self)
    }
}

impl<'a, T: PlainForeign + 'a> BorrowForeignMut<'a> for Vec<T> {
    type Storage = &'a mut [T];

    fn borrow_foreign_mut(&'a mut self) -> (r: BorrowedMutPointer<Self, &'a mut [T]>)
        ensures
            r.storage_spec()@ == old(self)@,
            final(self)@ == final(r.storage_spec())@,
    {
        self.as_mut_slice().borrow_foreign_mut().into()
    }
}

impl<T: PlainForeign> ForeignLayout for Vec<T> {
    proof fn lemma_layout(x: &Self) {
        lemma_plain_cells(x@);
    }
}

/// The C datum of a vector of values that are their own C type is the
/// elements themselves, in order.
pub proof fn lemma_vec_datum<T: PlainForeign>(v: Vec<T>)
    ensures
        v.foreign_repr() == Some(v@),
{
    lemma_plain_cells(v@);
}

} // verus!
