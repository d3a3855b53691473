//! Traits to map between C data and native Rust values, and the pointer
//! types that hand C data out.
//!
//! A pointer is modelled by the block of cells it designates: a read-only
//! pointer is an `Option<&[F]>`, a mutable one an `Option<&mut [F]>`, and an
//! owned C allocation an `Option<Vec<F>>`; `None` is `NULL`.  Freeing a block
//! is giving up its ownership.
use std::marker::PhantomData;
use vstd::prelude::*;

verus! {

/// The block that a read-only pointer designates (`None` for `NULL`).
pub open spec fn block_of<F>(p: Option<&[F]>) -> Option<Seq<F>> {
    match p {
        Some(s) => Some(s@),
        None => None,
    }
}

/// The block that a mutable pointer designates (`None` for `NULL`).
pub open spec fn block_of_mut<F>(p: Option<&mut [F]>) -> Option<Seq<F>> {
    match p {
        Some(s) => Some((*s)@),
        None => None,
    }
}

/// The block that an owned C allocation holds (`None` for `NULL`).
pub open spec fn owned_block<F>(p: Option<Vec<F>>) -> Option<Seq<F>> {
    match p {
        Some(v) => Some(v@),
        None => None,
    }
}

/// Read-only access to an owned allocation, as a pointer.
pub fn owned_as_ptr<F>(p: &Option<Vec<F>>) -> (r: Option<&[F]>)
    ensures
        block_of(r) == owned_block(*p),
{
    match p {
        Some(v) => Some(v.as_slice()),
        None => None,
    }
}

/// A type for which there is a canonical representation as a C datum.
pub trait FreeForeign {
    /// The type of the cells of the C datum.  For strings this is the C
    /// character type, and the datum is the nul-terminated block.
    type Foreign;

    /// The C datum that represents `self`: the cells of its block, or `None`
    /// where it is represented by `NULL`.
    spec fn foreign_repr(&self) -> Option<Seq<Self::Foreign>>;

    /// Free the C datum `p`: its block is released when ownership ends.
    fn free_foreign(p: Option<Vec<Self::Foreign>>) {
    }
}

/// A type for which a representation as a C datum can be produced.
pub trait CloneToForeign: FreeForeign {
    /// Copy `self` into a fresh C datum, owned by the returned pointer.
    fn clone_to_foreign(&self) -> (r: OwnedPointer<Self>)
        ensures
            r@ == self.foreign_repr(),
    ;

    /// Copy `self` into a fresh C datum whose ownership passes to the caller.
    fn clone_to_foreign_ptr(&self) -> (r: Option<Vec<Self::Foreign>>)
        ensures
            owned_block(r) == self.foreign_repr(),
    {
        self.clone_to_foreign().into_inner()
    }
}

/// A type which can be constructed from a canonical representation as a C
/// datum.
pub trait FromForeign: FreeForeign + Sized {
    /// Whether the block `p` holds a C datum that can be read as `Self`.
    spec fn valid_foreign(p: Option<Seq<Self::Foreign>>) -> bool;

    /// Whether `v` is the native value that the C datum `p` stands for.
    spec fn read_foreign(p: Option<Seq<Self::Foreign>>, v: Self) -> bool;

    /// Build a native value from the C datum `p`, copying what it points to.
    fn cloned_from_foreign(p: Option<&[Self::Foreign]>) -> (r: Self)
        requires
            Self::valid_foreign(block_of(p)),
        ensures
            Self::read_foreign(block_of(p), r),
    ;

    /// Build a native value from the C datum `p`, taking ownership of it:
    /// the datum is read, then freed.  The value is what
    /// `cloned_from_foreign` returns for a pointer to the same block.
    fn from_foreign(p: Option<Vec<Self::Foreign>>) -> (r: Self)
        requires
            Self::valid_foreign(owned_block(p)),
        ensures
            Self::read_foreign(owned_block(p), r),
            exists|q: Option<&[Self::Foreign]>|
                block_of(q) == owned_block(p) && call_ensures(Self::cloned_from_foreign, (q,), r),
    {
        let q = owned_as_ptr(&p);
        let result = Self::cloned_from_foreign(q);
        Self::free_foreign(p);
        result
    }
}

/// A C datum that can be converted to a native Rust value, taking ownership
/// of it.
pub trait IntoNative<U> {
    /// Whether `self` holds a datum that can be read as a `U`.
    spec fn native_requires(&self) -> bool;

    /// Whether `r` is the native value that `self` stands for.
    spec fn native_ensures(&self, r: U) -> bool;

    /// Convert `self` to a native value, consuming it.
    fn into_native(self) -> (r: U)
        requires
            self.native_requires(),
        ensures
            self.native_ensures(r),
    ;
}

impl<T, U> IntoNative<U> for Option<Vec<T>> where U: FromForeign<Foreign = T> {
    open spec fn native_requires(&self) -> bool {
        U::valid_foreign(owned_block(*self))
    }

    open spec fn native_ensures(&self, r: U) -> bool {
        U::read_foreign(owned_block(*self), r)
    }

    fn into_native(self) -> (r: U) {
        U::from_foreign(self)
    }
}

/// The cells of the C data of a sequence of values that each fit in one cell.
pub open spec fn foreign_cells<T: FixedAlloc>(s: Seq<T>) -> Seq<T::Foreign> {
    s.map_values(|x: T| x.foreign_cell())
}

/// A type whose C datum is a single cell of `Self::Foreign`, so that values
/// can be laid out one after the other in a block.
pub trait FixedAlloc: CloneToForeign + FromForeign + Sized {
    /// The single cell of the C datum of `self`.
    spec fn foreign_cell(&self) -> Self::Foreign;

    /// The C datum of `x` is the single cell `x.foreign_cell()`.
    proof fn lemma_single_cell(x: &Self)
        ensures
            x.foreign_repr() == Some(seq![x.foreign_cell()]),
    ;

    /// A block that starts with the cell of `x` is read back as `x`.
    proof fn lemma_cell_roundtrip(x: Self, rest: Seq<Self::Foreign>, y: Self)
        ensures
            Self::valid_foreign(Some(seq![x.foreign_cell()] + rest)),
            Self::read_foreign(Some(seq![x.foreign_cell()] + rest), y) ==> y == x,
    ;

    /// Copy `src` into the memory that follows the block `dest`, which grows
    /// by the one cell that the datum of `src` takes.
    fn clone_into_foreign(dest: &mut Vec<Self::Foreign>, src: &Self)
        ensures
            final(dest)@ == old(dest)@.push(src.foreign_cell()),
    ;

    /// Read `N` values laid out from the start of `src`, value `i` being read
    /// from the block that starts at cell `i`.
    fn clone_array_from_foreign<const N: usize>(src: &[Self::Foreign]) -> (r: [Self; N])
        requires
            src@.len() >= N,
            forall|i: int| 0 <= i < N ==> Self::valid_foreign(Some(#[trigger] src@.skip(i))),
        ensures
            forall|i: int| 0 <= i < N ==> Self::read_foreign(Some(src@.skip(i)), #[trigger] r@[i]),
    {
        let mut values: Vec<Self> = Vec::new();
        let mut i: usize = 0;
        while i < N
            invariant
                i <= N,
                src@.len() >= N,
                values@.len() == i,
                forall|k: int| 0 <= k < N ==> Self::valid_foreign(Some(#[trigger] src@.skip(k))),
                forall|k: int|
                    0 <= k < i ==> Self::read_foreign(Some(src@.skip(k)), #[trigger] values@[k]),
            decreases N - i,
        {
            let tail = &src[i..src.len()];
            assert(tail@ == src@.skip(i as int));
            let value = Self::cloned_from_foreign(Some(tail));
            values.push(value);
            i = i + 1;
        }
        vec_into_array(values)
    }

    /// Copy the values of `src`, one cell each, into the memory that follows
    /// the block `dest`.
    fn clone_from_native_slice(dest: &mut Vec<Self::Foreign>, src: &[Self])
        ensures
            final(dest)@ == old(dest)@ + src@.map_values(|x: Self| x.foreign_cell()),
    {
        let ghost start = dest@;
        let mut i: usize = 0;
        while i < src.len()
            invariant
                i <= src@.len(),
                dest@ == start + src@.take(i as int).map_values(|x: Self| x.foreign_cell()),
            decreases src@.len() - i,
        {
            Self::clone_into_foreign(dest, &src[i]);
            i = i + 1;
            assert(src@.take(i as int).map_values(|x: Self| x.foreign_cell()) == src@.take(
                i - 1,
            ).map_values(|x: Self| x.foreign_cell()).push(src@[i - 1].foreign_cell()));
        }
        assert(src@.take(src@.len() as int) == src@);
    }
}

/// An owned C datum that is freed when the pointer goes out of scope.
pub struct OwnedPointer<T: FreeForeign + ?Sized> {
    ptr: Option<Vec<<T as FreeForeign>::Foreign>>,
}

impl<T: FreeForeign + ?Sized> View for OwnedPointer<T> {
    type V = Option<Seq<<T as FreeForeign>::Foreign>>;

    closed spec fn view(&self) -> Self::V {
        owned_block(self.ptr)
    }
}

impl<T: FreeForeign + ?Sized> OwnedPointer<T> {
    /// Return a new `OwnedPointer` that wraps the `NULL` pointer.
    pub fn null_mut() -> (r: Self)
        ensures
            r@ is None,
    {
        OwnedPointer { ptr: None }
    }

    /// Return a new `OwnedPointer` that takes ownership of the datum `ptr`.
    pub fn new(ptr: Option<Vec<<T as FreeForeign>::Foreign>>) -> (r: Self)
        ensures
            r@ == owned_block(ptr),
    {
        OwnedPointer { ptr }
    }

    /// Create an `OwnedPointer` from one whose datum has the same C type.
    pub fn from<U>(x: OwnedPointer<U>) -> (r: Self) where
        U: FreeForeign<Foreign = <T as FreeForeign>::Foreign> + ?Sized,
        ensures
            r@ == x@,
    {
        OwnedPointer::new(x.into_inner())
    }

    /// Convert an `OwnedPointer` into one whose datum has the same C type.
    pub fn into<U>(self) -> (r: OwnedPointer<U>) where
        U: FreeForeign<Foreign = <T as FreeForeign>::Foreign>,
        ensures
            r@ == self@,
    {
        OwnedPointer::from(self)
    }

    /// The pointer that is stored in the `OwnedPointer`, valid for as long
    /// as the `OwnedPointer` itself.
    pub fn as_ptr(&self) -> (r: Option<&[<T as FreeForeign>::Foreign]>)
        ensures
            block_of(r) == self@,
    {
        owned_as_ptr(&self.ptr)
    }

    /// The pointer that is stored in the `OwnedPointer`, through which the
    /// datum can be written.
    pub fn as_mut_ptr(&mut self) -> (r: Option<&mut [<T as FreeForeign>::Foreign]>)
        ensures
            block_of_mut(r) == old(self)@,
            r is None ==> final(self)@ is None,
            r is Some ==> final(self)@ == Some(final(r.unwrap())@),
    {
        match &mut self.ptr {
            Some(v) => Some(v.as_mut_slice()),
            None => None,
        }
    }

    /// The datum that is stored in the `OwnedPointer`, whose ownership passes
    /// to the caller: it is not freed.
    pub fn into_inner(self) -> (r: Option<Vec<<T as FreeForeign>::Foreign>>)
        ensures
            owned_block(r) == self@,
    {
        self.ptr
    }
}

impl<T: FromForeign> OwnedPointer<T> {
    /// Convert the C datum to a native value, taking ownership of it.
    pub fn into_native(self) -> (r: T)
        requires
            T::valid_foreign(self@),
        ensures
            T::read_foreign(self@, r),
    {
        T::from_foreign(self.into_inner())
    }
}



impl<T: CloneToForeign + Default> Default for OwnedPointer<T> {
    /// A fresh C datum for the default value of `T`.
    fn default() -> (r: Self)
        ensures
            exists|d: T| call_ensures(T::default, (), d) && r@ == d.foreign_repr(),
    {
        let d = T::default();
        d.clone_to_foreign()
    }
}

/// A pointer whose contents were borrowed from a Rust object, and whose
/// lifetime is therefore limited by that of the storage it holds.  The
/// object was borrowed from a shared reference, and the pointer is read-only.
pub struct BorrowedPointer<P: FreeForeign + ?Sized, T> {
    storage: T,
    marker: PhantomData<P>,
}

impl<P: FreeForeign + ?Sized, T> BorrowedPointer<P, T> {
    /// The storage that the pointer borrows from.
    pub closed spec fn storage_spec(&self) -> T {
        self.storage
    }

    /// The block that the pointer designates.
    pub open spec fn ptr_spec(&self) -> Option<Seq<<P as FreeForeign>::Foreign>> where
        T: ForeignCells<<P as FreeForeign>::Foreign>,
     {
        self.storage_spec().cells_spec()
    }

    /// Return a new `BorrowedPointer` into `storage`, which is kept alive for
    /// as long as the pointer.
    pub fn new(storage: T) -> (r: Self)
        ensures
            r.storage_spec() == storage,
    {
        BorrowedPointer { storage, marker: PhantomData }
    }

    /// The pointer that is stored in the `BorrowedPointer`, valid for as long
    /// as the `BorrowedPointer` itself.
    pub fn as_ptr(&self) -> (r: Option<&[<P as FreeForeign>::Foreign]>) where
        T: ForeignCells<<P as FreeForeign>::Foreign>,
        ensures
            block_of(r) == self.ptr_spec(),
    {
        self.storage.cells()
    }

    /// Convert a `BorrowedPointer` into one whose datum has the same C type.
    pub(crate) fn into<Q>(self) -> (r: BorrowedPointer<Q, T>) where
        Q: FreeForeign<Foreign = <P as FreeForeign>::Foreign>,
        ensures
            r.storage_spec() == self.storage_spec(),
    {
        BorrowedPointer { storage: self.storage, marker: PhantomData }
    }

    /// Convert a `BorrowedPointer` into one whose datum has the same C type,
    /// transforming the storage with `f`.
    pub(crate) fn map<Q, F, U>(self, f: F) -> (r: BorrowedPointer<Q, U>) where
        Q: FreeForeign<Foreign = <P as FreeForeign>::Foreign>,
        F: FnOnce(T) -> U,
        T: ForeignCells<<P as FreeForeign>::Foreign>,
        U: ForeignCells<<P as FreeForeign>::Foreign>,
        requires
            f.requires((self.storage_spec(),)),
            forall|u: U| #[trigger]
                f.ensures((self.storage_spec(),), u) ==> u.cells_spec() == self.ptr_spec(),
        ensures
            f.ensures((self.storage_spec(),), r.storage_spec()),
            r.ptr_spec() == self.ptr_spec(),
    {
        BorrowedPointer { storage: f(self.storage), marker: PhantomData }
    }
}

impl<'a, T: CloneToForeign + ?Sized> BorrowedPointer<T, &'a T> {
    /// Clone the data that the pointer borrows from, creating a new C datum
    /// that holds the same data.
    pub fn to_owned(&self) -> (r: OwnedPointer<T>)
        ensures
            r@ == self.storage_spec().foreign_repr(),
    {
        self.storage.clone_to_foreign()
    }
}

/// A type for which a C representation can be borrowed without cloning.
pub trait BorrowForeign<'a>: FreeForeign {
    /// The data that must stay alive while the `BorrowedPointer` is alive.
    type Storage: 'a + ForeignCells<Self::Foreign>;

    /// Return a read-only pointer to the C representation of `self`, which
    /// borrows the data of `self`.
    fn borrow_foreign(&'a self) -> (r: BorrowedPointer<Self, Self::Storage>)
        ensures
            r.ptr_spec() == self.foreign_repr(),
    ;
}

/// A pointer whose contents were borrowed from a Rust object, and whose
/// lifetime is therefore limited by that of the storage it holds.  The
/// object is held exclusively, and the pointer can be written through.
pub struct BorrowedMutPointer<P: FreeForeign + ?Sized, T> {
    storage: T,
    marker: PhantomData<P>,
}

impl<P: FreeForeign + ?Sized, T> BorrowedMutPointer<P, T> {
    /// The storage that the pointer borrows from.
    pub closed spec fn storage_spec(&self) -> T {
        self.storage
    }

    /// The block that the pointer designates.
    pub open spec fn ptr_spec(&self) -> Option<Seq<<P as FreeForeign>::Foreign>> where
        T: ForeignCells<<P as FreeForeign>::Foreign>,
     {
        self.storage_spec().cells_spec()
    }

    /// Return a new `BorrowedMutPointer` into `storage`, which is kept alive
    /// for as long as the pointer.
    pub fn new(storage: T) -> (r: Self)
        ensures
            r.storage_spec() == storage,
    {
        BorrowedMutPointer { storage, marker: PhantomData }
    }

    /// The pointer that is stored in the `BorrowedMutPointer`, as a
    /// read-only pointer.
    pub fn as_ptr(&self) -> (r: Option<&[<P as FreeForeign>::Foreign]>) where
        T: ForeignCells<<P as FreeForeign>::Foreign>,
        ensures
            block_of(r) == self.ptr_spec(),
    {
        self.storage.cells()
    }

    /// A pointer that is no longer used leaves its storage unused too: the
    /// storage then holds its final value.
    pub proof fn lemma_resolved(self)
        requires
            has_resolved(self),
        ensures
            has_resolved(self.storage_spec()),
    {
    }

    /// Convert a `BorrowedMutPointer` into one whose datum has the same C
    /// type.
    pub(crate) fn into<Q>(self) -> (r: BorrowedMutPointer<Q, T>) where
        Q: FreeForeign<Foreign = <P as FreeForeign>::Foreign>,
        ensures
            r.storage_spec() == self.storage_spec(),
    {
        BorrowedMutPointer { storage: self.storage, marker: PhantomData }
    }

    /// Convert a `BorrowedMutPointer` into one whose datum has the same C
    /// type, transforming the storage with `f`.
    pub(crate) fn map<Q, U, F>(self, f: F) -> (r: BorrowedMutPointer<Q, U>) where
        Q: FreeForeign<Foreign = <P as FreeForeign>::Foreign>,
        F: FnOnce(T) -> U,
        T: ForeignCells<<P as FreeForeign>::Foreign>,
        U: ForeignCells<<P as FreeForeign>::Foreign>,
        requires
            f.requires((self.storage_spec(),)),
            forall|u: U| #[trigger]
                f.ensures((self.storage_spec(),), u) ==> u.cells_spec() == self.ptr_spec(),
        ensures
            f.ensures((self.storage_spec(),), r.storage_spec()),
            r.ptr_spec() == self.ptr_spec(),
    {
        BorrowedMutPointer { storage: f(self.storage), marker: PhantomData }
    }
}

/// Mutable pointers into data borrowed through a mutable reference.
impl<'a, P, F, X> BorrowedMutPointer<P, &'a mut X> where
    P: FreeForeign<Foreign = F> + ?Sized,
    X: ForeignCellsMut<F> + ?Sized,
 {
    /// The pointer that is stored in the `BorrowedMutPointer`: what is
    /// written through it lands in the storage, and the storage keeps handing
    /// its final value back to the data it borrows from.
    pub fn as_mut_ptr(&mut self) -> (r: Option<&mut [F]>)
        ensures
            block_of_mut(r) == old(self).ptr_spec(),
            r is None ==> final(self).ptr_spec() is None,
            r is Some ==> final(self).ptr_spec() == Some(final(r.unwrap())@),
            (*final(final(self).storage_spec())).cells_spec()
                == (*final(old(self).storage_spec())).cells_spec(),
    {
        (*self.storage).cells_mut()
    }
}

/// Mutable pointers into data borrowed through a mutable reference, or
/// `NULL`.
impl<'a, P, F, X> BorrowedMutPointer<P, Option<&'a mut X>> where
    P: FreeForeign<Foreign = F> + ?Sized,
    X: ForeignCellsMut<F> + ?Sized,
 {
    /// The pointer that is stored in the `BorrowedMutPointer`: what is
    /// written through it lands in the storage, and the storage keeps handing
    /// its final value back to the data it borrows from.
    pub fn as_mut_ptr(&mut self) -> (r: Option<&mut [F]>)
        ensures
            block_of_mut(r) == old(self).ptr_spec(),
            r is None ==> final(self).ptr_spec() is None,
            r is Some ==> final(self).ptr_spec() == Some(final(r.unwrap())@),
            final(self).storage_spec() is Some <==> old(self).storage_spec() is Some,
            old(self).storage_spec() is Some ==> (*final(final(self).storage_spec().unwrap())).cells_spec()
                == (*final(old(self).storage_spec().unwrap())).cells_spec(),
    {
        match &mut self.storage {
            Some(s) => (**s).cells_mut(),
            None => None,
        }
    }
}

/// Mutable pointers into data owned by the pointer.
impl<P, F> BorrowedMutPointer<P, Vec<F>> where P: FreeForeign<Foreign = F> + ?Sized {
    /// The pointer that is stored in the `BorrowedMutPointer`: what is
    /// written through it lands in the storage.
    pub fn as_mut_ptr(&mut self) -> (r: Option<&mut [F]>)
        ensures
            block_of_mut(r) == old(self).ptr_spec(),
            r is Some,
            final(self).ptr_spec() == Some(final(r.unwrap())@),
    {
        Some(self.storage.as_mut_slice())
    }
}

/// Mutable pointers into boxed data owned by the pointer.
impl<P, F, X> BorrowedMutPointer<P, Box<X>> where
    P: FreeForeign<Foreign = F> + ?Sized,
    X: ForeignCellsMut<F> + ?Sized,
 {
    /// The pointer that is stored in the `BorrowedMutPointer`: what is
    /// written through it lands in the storage.
    pub fn as_mut_ptr(&mut self) -> (r: Option<&mut [F]>)
        ensures
            block_of_mut(r) == old(self).ptr_spec(),
            r is None ==> final(self).ptr_spec() is None,
            r is Some ==> final(self).ptr_spec() == Some(final(r.unwrap())@),
    {
        (*self.storage).cells_mut()
    }
}

/// Mutable pointers into data owned by the pointer, or `NULL`.
impl<P, F> BorrowedMutPointer<P, Option<Vec<F>>> where P: FreeForeign<Foreign = F> + ?Sized {
    /// The pointer that is stored in the `BorrowedMutPointer`: what is
    /// written through it lands in the storage.
    pub fn as_mut_ptr(&mut self) -> (r: Option<&mut [F]>)
        ensures
            block_of_mut(r) == old(self).ptr_spec(),
            r is None ==> final(self).ptr_spec() is None,
            r is Some ==> final(self).ptr_spec() == Some(final(r.unwrap())@),
    {
        match &mut self.storage {
            Some(v) => Some(v.as_mut_slice()),
            None => None,
        }
    }
}

/// Mutable pointers into boxed data owned by the pointer, or `NULL`.
impl<P, F, X> BorrowedMutPointer<P, Option<Box<X>>> where
    P: FreeForeign<Foreign = F> + ?Sized,
    X: ForeignCellsMut<F> + ?Sized,
 {
    /// The pointer that is stored in the `BorrowedMutPointer`: what is
    /// written through it lands in the storage.
    pub fn as_mut_ptr(&mut self) -> (r: Option<&mut [F]>)
        ensures
            block_of_mut(r) == old(self).ptr_spec(),
            r is None ==> final(self).ptr_spec() is None,
            r is Some ==> final(self).ptr_spec() == Some(final(r.unwrap())@),
    {
        match &mut self.storage {
            Some(b) => (**b).cells_mut(),
            None => None,
        }
    }
}

/// A type for which a C representation can be created by consuming the Rust
/// representation, without copying the data.
pub trait IntoForeign: FreeForeign {
    /// The data that the `BorrowedMutPointer` owns, and that its pointer
    /// designates.
    type Storage: 'static + ForeignCellsMut<Self::Foreign>;

    /// Return a pointer to the C representation of `self`; the pointer
    /// becomes the owner of the data.
    fn into_foreign(self) -> (r: BorrowedMutPointer<Self, Self::Storage>) where Self: Sized
        requires
            self.into_foreign_requires(),
        ensures
            r.ptr_spec() == self.foreign_repr(),
    ;

    /// The inputs on which `into_foreign` succeeds.
    spec fn into_foreign_requires(&self) -> bool;
}

/// A type for which a C representation can be borrowed mutably without
/// cloning.
pub trait BorrowForeignMut<'a>: FreeForeign {
    /// The data that must stay alive while the `BorrowedMutPointer` is alive.
    type Storage: 'a + ForeignCellsMut<Self::Foreign>;

    /// Return a pointer to the C representation of `self`, which borrows the
    /// data of `self` and through which it can be written.
    fn borrow_foreign_mut(&'a mut self) -> (r: BorrowedMutPointer<Self, Self::Storage>)
        ensures
            r.ptr_spec() == old(self).foreign_repr(),
    ;
}

/// A Rust value whose memory is itself a C block of `F` cells, or stands
/// for `NULL`.
pub trait ForeignCells<F> {
    /// The block that the memory of `self` forms.
    spec fn cells_spec(&self) -> Option<Seq<F>>;

    /// A pointer to the block that the memory of `self` forms.
    fn cells(&self) -> (r: Option<&[F]>)
        ensures
            block_of(r) == self.cells_spec(),
    ;
}

/// A Rust value whose memory is itself a C block of `F` cells that can be
/// written through a pointer.
pub trait ForeignCellsMut<F>: ForeignCells<F> {
    /// A mutable pointer to the block that the memory of `self` forms: what
    /// is written through it is what `self` holds afterwards.
    fn cells_mut(&mut self) -> (r: Option<&mut [F]>)
        ensures
            block_of_mut(r) == old(self).cells_spec(),
            r is None ==> (*final(self)).cells_spec() is None,
            r is Some ==> (*final(self)).cells_spec() == Some(final(r.unwrap())@),
    ;
}

impl<F> ForeignCells<F> for [F] {
    open spec fn cells_spec(&self) -> Option<Seq<F>> {
        Some(self@)
    }

    fn cells(&self) -> (r: Option<&[F]>) {
        Some(self)
    }
}

impl<F> ForeignCellsMut<F> for [F] {
    fn cells_mut(&mut self) -> (r: Option<&mut [F]>) {
        Some(self)
    }
}

impl<F, const N: usize> ForeignCells<F> for [F; N] {
    open spec fn cells_spec(&self) -> Option<Seq<F>> {
        Some(self@)
    }

    fn cells(&self) -> (r: Option<&[F]>) {
        Some(self.as_slice())
    }
}

impl<F, const N: usize> ForeignCellsMut<F> for [F; N] {
    fn cells_mut(&mut self) -> (r: Option<&mut [F]>) {
        let cells: &mut [F] = self;
        Some(cells)
    }
}

impl<F> ForeignCells<F> for Vec<F> {
    open spec fn cells_spec(&self) -> Option<Seq<F>> {
        Some(self@)
    }

    fn cells(&self) -> (r: Option<&[F]>) {
        Some(self.as_slice())
    }
}

impl<F> ForeignCellsMut<F> for Vec<F> {
    fn cells_mut(&mut self) -> (r: Option<&mut [F]>) {
        Some(self.as_mut_slice())
    }
}

impl<F, X: ForeignCells<F> + ?Sized> ForeignCells<F> for Box<X> {
    open spec fn cells_spec(&self) -> Option<Seq<F>> {
        (**self).cells_spec()
    }

    fn cells(&self) -> (r: Option<&[F]>) {
        (**self).cells()
    }
}

impl<F, X: ForeignCellsMut<F> + ?Sized> ForeignCellsMut<F> for Box<X> {
    fn cells_mut(&mut self) -> (r: Option<&mut [F]>) {
        (**self).cells_mut()
    }
}

impl<'a, F, X: ForeignCells<F> + ?Sized> ForeignCells<F> for &'a X {
    open spec fn cells_spec(&self) -> Option<Seq<F>> {
        (**self).cells_spec()
    }

    fn cells(&self) -> (r: Option<&[F]>) {
        (**self).cells()
    }
}

impl<'a, F, X: ForeignCells<F> + ?Sized> ForeignCells<F> for &'a mut X {
    open spec fn cells_spec(&self) -> Option<Seq<F>> {
        (**self).cells_spec()
    }

    fn cells(&self) -> (r: Option<&[F]>) {
        (**self).cells()
    }
}

impl<'a, F, X: ForeignCellsMut<F> + ?Sized> ForeignCellsMut<F> for &'a mut X {
    fn cells_mut(&mut self) -> (r: Option<&mut [F]>) {
        (**self).cells_mut()
    }
}

impl<F, S: ForeignCells<F>> ForeignCells<F> for Option<S> {
    open spec fn cells_spec(&self) -> Option<Seq<F>> {
        match self {
            Some(s) => s.cells_spec(),
            None => None,
        }
    }

    fn cells(&self) -> (r: Option<&[F]>) {
        match self {
            Some(s) => s.cells(),
            None => None,
        }
    }
}

impl<F, S: ForeignCellsMut<F>> ForeignCellsMut<F> for Option<S> {
    fn cells_mut(&mut self) -> (r: Option<&mut [F]>) {
        match self {
            Some(s) => s.cells_mut(),
            None => None,
        }
    }
}

/// A type whose memory already holds its C datum, so that a pointer to the
/// C datum can be made without converting anything.
pub trait ForeignLayout: FreeForeign + ForeignCellsMut<<Self as FreeForeign>::Foreign> {
    /// The cells of the memory of `x` are its C datum.
    proof fn lemma_layout(x: &Self)
        ensures
            x.cells_spec() == x.foreign_repr(),
    ;
}

/// A one-cell value is read back from its C datum as the same value:
/// copying it to C and back gives it back.
pub proof fn lemma_fixed_roundtrip<T: FixedAlloc>(x: T, y: T)
    ensures
        T::valid_foreign(x.foreign_repr()),
        T::read_foreign(x.foreign_repr(), y) ==> y == x,
{
    T::lemma_single_cell(&x);
    T::lemma_cell_roundtrip(x, Seq::empty(), y);
    assert(seq![x.foreign_cell()] + Seq::<T::Foreign>::empty() =~= seq![x.foreign_cell()]);
}

/// A type that fits in one cell and is its own C type: its C datum is the
/// value itself, so a block of such values is a C array as it stands.
pub trait PlainForeign: FixedAlloc + FreeForeign<Foreign = Self> {
    /// The cell of `x` is `x`.
    proof fn lemma_plain(x: &Self)
        ensures
            x.foreign_cell() == *x,
    ;
}

/// For a value whose memory is its C datum, the datum that `to_owned`
/// copies is the one that the borrowed pointer designates.
pub proof fn lemma_to_owned_same_data<T: ForeignLayout + ?Sized>(bp: BorrowedPointer<T, &T>)
    ensures
        bp.ptr_spec() == bp.storage_spec().foreign_repr(),
{
    T::lemma_layout(bp.storage_spec());
}

/// `<[T; N] as TryFrom<Vec<T>>>::try_from`: a vector of exactly `N` values
/// becomes an array of the same values, in the same order.
#[verifier::external_body]
fn vec_into_array<T, const N: usize>(v: Vec<T>) -> (r: [T; N])
    requires
        v@.len() == N,
    ensures
        r@ == v@,
{
    let converted: Result<[T; N], Vec<T>> = v.try_into();
    converted.ok().unwrap()
}

} // verus!
