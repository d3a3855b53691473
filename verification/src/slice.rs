//! Slices and arrays of one-cell values: their C datum is the C array of
//! the cells of their elements.
use crate::foreign::{
    foreign_cells, BorrowForeign, BorrowForeignMut, BorrowedMutPointer, BorrowedPointer,
    CloneToForeign, FixedAlloc, ForeignCells, ForeignLayout, FreeForeign, FromForeign,
    OwnedPointer, PlainForeign,
};
use vstd::prelude::*;

verus! {

/// The cells of values that are their own C type are the values themselves.
pub proof fn lemma_plain_cells<T: PlainForeign>(s: Seq<T>)
    ensures
        foreign_cells(s) == s,
{
    assert forall|i: int| 0 <= i < s.len() implies #[trigger] foreign_cells(s)[i] == s[i] by {
        T::lemma_plain(&s[i]);
    }
    assert(foreign_cells(s) =~= s);
}

impl<T: FixedAlloc> FreeForeign for [T] {
    type Foreign = <T as FreeForeign>::Foreign;

    open spec fn foreign_repr(&self) -> Option<Seq<<T as FreeForeign>::Foreign>> {
        Some(foreign_cells(self@))
    }
}

impl<T: FixedAlloc> CloneToForeign for [T] {
    fn clone_to_foreign(&self) -> (r: OwnedPointer<Self>) {
        let mut block: Vec<<T as FreeForeign>::Foreign> = Vec::new();
        T::clone_from_native_slice(&mut block, self);
        assert(block@ == foreign_cells(self@));
        OwnedPointer::new(Some(block))
    }
}

impl<'a, T: PlainForeign + 'a> BorrowForeign<'a> for [T] {
    type Storage = &'a [T];

    fn borrow_foreign(&'a self) -> (r: BorrowedPointer<Self, &'a [T]>)
        ensures
            r.storage_spec() == self,
    {
        proof {
            lemma_plain_cells(self@);
        }
        BorrowedPointer::new(self)
    }
}

impl<'a, T: PlainForeign + 'a> BorrowForeignMut<'a> for [T] {
    type Storage = &'a mut [T];

    fn borrow_foreign_mut(&'a mut self) -> (r: BorrowedMutPointer<Self, &'a mut [T]>)
        ensures
            r.storage_spec()@ == old(self)@,
            final(self)@ == final(r.storage_spec())@,
    {
        proof {
            lemma_plain_cells(self@);
        }
        BorrowedMutPointer::new(self)
    }
}

impl<T: PlainForeign> ForeignLayout for [T] {
    proof fn lemma_layout(x: &Self) {
        lemma_plain_cells(x@);
    }
}

impl<T: FixedAlloc, const N: usize> FreeForeign for [T; N] {
    type Foreign = <T as FreeForeign>::Foreign;

    open spec fn foreign_repr(&self) -> Option<Seq<<T as FreeForeign>::Foreign>> {
        Some(foreign_cells(self@))
    }
}

impl<T: FixedAlloc, const N: usize> CloneToForeign for [T; N] {
    fn clone_to_foreign(&self) -> (r: OwnedPointer<Self>) {
        self.as_slice().clone_to_foreign().into()
    }
}

impl<T: FixedAlloc, const N: usize> FromForeign for [T; N] {
    open spec fn valid_foreign(p: Option<Seq<<T as FreeForeign>::Foreign>>) -> bool {
        &&& p matches Some(b)
        &&& b.len() >= N
        &&& forall|i: int| 0 <= i < N ==> T::valid_foreign(Some(#[trigger] b.skip(i)))
    }

    open spec fn read_foreign(p: Option<Seq<<T as FreeForeign>::Foreign>>, v: [T; N]) -> bool {
        &&& p matches Some(b)
        &&& forall|i: int| 0 <= i < N ==> T::read_foreign(Some(b.skip(i)), #[trigger] v@[i])
    }

    fn cloned_from_foreign(p: Option<&[<T as FreeForeign>::Foreign]>) -> (r: [T; N]) {
        T::clone_array_from_foreign(p.unwrap())
    }
}

impl<'a, T: PlainForeign + 'a, const N: usize> BorrowForeign<'a> for [T; N] {
    type Storage = &'a [T; N];

    fn borrow_foreign(&'a self) -> (r: BorrowedPointer<Self, &'a [T; N]>)
        ensures
            r.storage_spec() == self,
    {
        proof {
            lemma_plain_cells(self@);
        }
        BorrowedPointer::new(self)
    }
}

impl<'a, T: PlainForeign + 'a, const N: usize> BorrowForeignMut<'a> for [T; N] {
    type Storage = &'a mut [T; N];

    fn borrow_foreign_mut(&'a mut self) -> (r: BorrowedMutPointer<Self, &'a mut [T; N]>)
        ensures
            *r.storage_spec() == *old(self),
            *final(self) == *final(r.storage_spec()),
    {
        proof {
            lemma_plain_cells(self@);
        }
        BorrowedMutPointer::new(self)
    }
}

impl<T: PlainForeign, const N: usize> ForeignLayout for [T; N] {
    proof fn lemma_layout(x: &Self) {
        lemma_plain_cells(x@);
    }
}

/// Values laid out one cell each are read back, as an array, as the same
/// values: copying a slice or an array to C and back gives it back.
pub proof fn lemma_cells_roundtrip<T: FixedAlloc, const N: usize>(s: Seq<T>, r: [T; N])
    requires
        s.len() == N,
    ensures
        <[T; N]>::valid_foreign(Some(foreign_cells(s))),
        <[T; N]>::read_foreign(Some(foreign_cells(s)), r) ==> r@ == s,
{
    let b = foreign_cells(s);
    assert forall|i: int| 0 <= i < N implies #[trigger] b.skip(i) == seq![s[i].foreign_cell()]
        + foreign_cells(s.skip(i + 1)) by {
        assert(b.skip(i) =~= seq![s[i].foreign_cell()] + foreign_cells(s.skip(i + 1)));
    }
    assert forall|i: int| 0 <= i < N implies T::valid_foreign(Some(#[trigger] b.skip(i))) by {
        T::lemma_cell_roundtrip(s[i], foreign_cells(s.skip(i + 1)), s[i]);
    }
    if <[T; N]>::read_foreign(Some(b), r) {
        assert forall|i: int| 0 <= i < N implies #[trigger] r@[i] == s[i] by {
            T::lemma_cell_roundtrip(s[i], foreign_cells(s.skip(i + 1)), r@[i]);
        }
        assert(r@ =~= s);
    }
}

/// A value that is its own C type has, as C datum, the one cell holding the
/// value itself; and a block is read as the value in its first cell.
pub proof fn lemma_plain_datum<T: PlainForeign>(x: T, b: Seq<T>, y: T)
    ensures
        x.foreign_repr() == Some(seq![x]),
        b.len() >= 1 ==> T::valid_foreign(Some(b)),
        b.len() >= 1 && T::read_foreign(Some(b), y) ==> y == b[0],
{
    T::lemma_single_cell(&x);
    T::lemma_plain(&x);
    if b.len() >= 1 {
        T::lemma_plain(&b[0]);
        T::lemma_cell_roundtrip(b[0], b.drop_first(), y);
        assert(seq![b[0].foreign_cell()] + b.drop_first() =~= b);
    }
}

/// The C datum of a slice of values that are their own C type is the
/// elements themselves, in order.
pub proof fn lemma_slice_datum<T: PlainForeign>(s: &[T])
    ensures
        s.foreign_repr() == Some(s@),
{
    lemma_plain_cells(s@);
}

/// The C datum of an array of values that are their own C type is the
/// elements themselves, in order.
pub proof fn lemma_array_datum<T: PlainForeign, const N: usize>(a: [T; N])
    ensures
        a.foreign_repr() == Some(a@),
{
    lemma_plain_cells(a@);
}

/// An array of `N` values that are their own C type is read from a block as
/// the first `N` cells of the block.
pub proof fn lemma_array_read<T: PlainForeign, const N: usize>(b: Seq<T>, r: [T; N])
    requires
        b.len() >= N,
    ensures
        <[T; N]>::valid_foreign(Some(b)),
        <[T; N]>::read_foreign(Some(b), r) ==> r@ == b.take(N as int),
{
    assert forall|i: int| 0 <= i < N implies T::valid_foreign(Some(#[trigger] b.skip(i))) by {
        lemma_plain_datum(b[i], b.skip(i), b[i]);
    }
    if <[T; N]>::read_foreign(Some(b), r) {
        assert forall|i: int| 0 <= i < N implies #[trigger] r@[i] == b[i] by {
            lemma_plain_datum(b[i], b.skip(i), r@[i]);
        }
        assert(r@ =~= b.take(N as int));
    }
}

} // verus!
