//! Primitive values: each one is its own C datum, a single cell of the
//! corresponding C type.
use crate::foreign::{
    BorrowForeign, BorrowForeignMut, BorrowedMutPointer, BorrowedPointer, CloneToForeign,
    FixedAlloc, ForeignCells, ForeignCellsMut, ForeignLayout, PlainForeign, FreeForeign, FromForeign, OwnedPointer,
};
use vstd::prelude::*;

verus! {

/// A read-only pointer to the single value `x`.
#[verifier::external_body]
fn slice_from_ref<T>(x: &T) -> (r: &[T])
    ensures
        r@ == seq![*x],
{
    std::slice::from_ref(x)
}

/// A mutable pointer to the single value `x`: what is written through it
/// is what `x` holds afterwards.
#[verifier::external_body]
fn slice_from_mut<T>(x: &mut T) -> (r: &mut [T])
    ensures
        r@ == seq![*old(x)],
        final(r)@.len() == 1,
        *final(x) == final(r)@[0],
{
    std::slice::from_mut(x)
}

impl FreeForeign for bool {
    type Foreign = bool;

    open spec fn foreign_repr(&self) -> Option<Seq<bool>> {
        Some(seq![*self])
    }
}

impl CloneToForeign for bool {
    fn clone_to_foreign(&self) -> (r: OwnedPointer<Self>) {
        let mut block: Vec<bool> = Vec::new();
        block.push(*self);
        OwnedPointer::new(Some(block))
    }
}

impl FromForeign for bool {
    open spec fn valid_foreign(p: Option<Seq<bool>>) -> bool {
        p matches Some(b) && b.len() >= 1
    }

    open spec fn read_foreign(p: Option<Seq<bool>>, v: bool) -> bool {
        p matches Some(b) && b.len() >= 1 && v == b[0]
    }

    fn cloned_from_foreign(p: Option<&[bool]>) -> (r: bool) {
        let block = p.unwrap();
        block[0]
    }
}

impl ForeignCells<bool> for bool {
    open spec fn cells_spec(&self) -> Option<Seq<bool>> {
        Some(seq![*self])
    }

    fn cells(&self) -> (r: Option<&[bool]>) {
        Some(slice_from_ref(self))
    }
}

impl ForeignCellsMut<bool> for bool {
    fn cells_mut(&mut self) -> (r: Option<&mut [bool]>) {
        Some(slice_from_mut(self))
    }
}

impl ForeignLayout for bool {
    proof fn lemma_layout(x: &Self) {
    }
}

impl PlainForeign for bool {
    proof fn lemma_plain(x: &Self) {
    }
}

impl<'a> BorrowForeign<'a> for bool {
    type Storage = &'a bool;

    fn borrow_foreign(&'a self) -> (r: BorrowedPointer<Self, &'a bool>)
        ensures
            r.storage_spec() == self,
    {
        BorrowedPointer::new(self)
    }
}

impl<'a> BorrowForeignMut<'a> for bool {
    type Storage = &'a mut bool;

    fn borrow_foreign_mut(&'a mut self) -> (r: BorrowedMutPointer<Self, &'a mut bool>)
        ensures
            *r.storage_spec() == *old(self),
            *final(self) == *final(r.storage_spec()),
    {
        BorrowedMutPointer::new(self)
    }
}

impl FixedAlloc for bool {
    open spec fn foreign_cell(&self) -> bool {
        *self
    }

    proof fn lemma_single_cell(x: &Self) {
    }

    proof fn lemma_cell_roundtrip(x: Self, rest: Seq<bool>, y: Self) {
    }

    fn clone_into_foreign(dest: &mut Vec<bool>, src: &Self) {
        dest.push(*src);
    }
}

impl FreeForeign for i8 {
    type Foreign = i8;

    open spec fn foreign_repr(&self) -> Option<Seq<i8>> {
        Some(seq![*self])
    }
}

impl CloneToForeign for i8 {
    fn clone_to_foreign(&self) -> (r: OwnedPointer<Self>) {
        let mut block: Vec<i8> = Vec::new();
        block.push(*self);
        OwnedPointer::new(Some(block))
    }
}

impl FromForeign for i8 {
    open spec fn valid_foreign(p: Option<Seq<i8>>) -> bool {
        p matches Some(b) && b.len() >= 1
    }

    open spec fn read_foreign(p: Option<Seq<i8>>, v: i8) -> bool {
        p matches Some(b) && b.len() >= 1 && v == b[0]
    }

    fn cloned_from_foreign(p: Option<&[i8]>) -> (r: i8) {
        let block = p.unwrap();
        block[0]
    }
}

impl ForeignCells<i8> for i8 {
    open spec fn cells_spec(&self) -> Option<Seq<i8>> {
        Some(seq![*self])
    }

    fn cells(&self) -> (r: Option<&[i8]>) {
        Some(slice_from_ref(self))
    }
}

impl ForeignCellsMut<i8> for i8 {
    fn cells_mut(&mut self) -> (r: Option<&mut [i8]>) {
        Some(slice_from_mut(self))
    }
}

impl ForeignLayout for i8 {
    proof fn lemma_layout(x: &Self) {
    }
}

impl PlainForeign for i8 {
    proof fn lemma_plain(x: &Self) {
    }
}

impl<'a> BorrowForeign<'a> for i8 {
    type Storage = &'a i8;

    fn borrow_foreign(&'a self) -> (r: BorrowedPointer<Self, &'a i8>)
        ensures
            r.storage_spec() == self,
    {
        BorrowedPointer::new(self)
    }
}

impl<'a> BorrowForeignMut<'a> for i8 {
    type Storage = &'a mut i8;

    fn borrow_foreign_mut(&'a mut self) -> (r: BorrowedMutPointer<Self, &'a mut i8>)
        ensures
            *r.storage_spec() == *old(self),
            *final(self) == *final(r.storage_spec()),
    {
        BorrowedMutPointer::new(self)
    }
}

impl FixedAlloc for i8 {
    open spec fn foreign_cell(&self) -> i8 {
        *self
    }

    proof fn lemma_single_cell(x: &Self) {
    }

    proof fn lemma_cell_roundtrip(x: Self, rest: Seq<i8>, y: Self) {
    }

    fn clone_into_foreign(dest: &mut Vec<i8>, src: &Self) {
        dest.push(*src);
    }
}

impl FreeForeign for u8 {
    type Foreign = u8;

    open spec fn foreign_repr(&self) -> Option<Seq<u8>> {
        Some(seq![*self])
    }
}

impl CloneToForeign for u8 {
    fn clone_to_foreign(&self) -> (r: OwnedPointer<Self>) {
        let mut block: Vec<u8> = Vec::new();
        block.push(*self);
        OwnedPointer::new(Some(block))
    }
}

impl FromForeign for u8 {
    open spec fn valid_foreign(p: Option<Seq<u8>>) -> bool {
        p matches Some(b) && b.len() >= 1
    }

    open spec fn read_foreign(p: Option<Seq<u8>>, v: u8) -> bool {
        p matches Some(b) && b.len() >= 1 && v == b[0]
    }

    fn cloned_from_foreign(p: Option<&[u8]>) -> (r: u8) {
        let block = p.unwrap();
        block[0]
    }
}

impl ForeignCells<u8> for u8 {
    open spec fn cells_spec(&self) -> Option<Seq<u8>> {
        Some(seq![*self])
    }

    fn cells(&self) -> (r: Option<&[u8]>) {
        Some(slice_from_ref(self))
    }
}

impl ForeignCellsMut<u8> for u8 {
    fn cells_mut(&mut self) -> (r: Option<&mut [u8]>) {
        Some(slice_from_mut(self))
    }
}

impl ForeignLayout for u8 {
    proof fn lemma_layout(x: &Self) {
    }
}

impl PlainForeign for u8 {
    proof fn lemma_plain(x: &Self) {
    }
}

impl<'a> BorrowForeign<'a> for u8 {
    type Storage = &'a u8;

    fn borrow_foreign(&'a self) -> (r: BorrowedPointer<Self, &'a u8>)
        ensures
            r.storage_spec() == self,
    {
        BorrowedPointer::new(self)
    }
}

impl<'a> BorrowForeignMut<'a> for u8 {
    type Storage = &'a mut u8;

    fn borrow_foreign_mut(&'a mut self) -> (r: BorrowedMutPointer<Self, &'a mut u8>)
        ensures
            *r.storage_spec() == *old(self),
            *final(self) == *final(r.storage_spec()),
    {
        BorrowedMutPointer::new(self)
    }
}

impl FixedAlloc for u8 {
    open spec fn foreign_cell(&self) -> u8 {
        *self
    }

    proof fn lemma_single_cell(x: &Self) {
    }

    proof fn lemma_cell_roundtrip(x: Self, rest: Seq<u8>, y: Self) {
    }

    fn clone_into_foreign(dest: &mut Vec<u8>, src: &Self) {
        dest.push(*src);
    }
}

impl FreeForeign for i16 {
    type Foreign = i16;

    open spec fn foreign_repr(&self) -> Option<Seq<i16>> {
        Some(seq![*self])
    }
}

impl CloneToForeign for i16 {
    fn clone_to_foreign(&self) -> (r: OwnedPointer<Self>) {
        let mut block: Vec<i16> = Vec::new();
        block.push(*self);
        OwnedPointer::new(Some(block))
    }
}

impl FromForeign for i16 {
    open spec fn valid_foreign(p: Option<Seq<i16>>) -> bool {
        p matches Some(b) && b.len() >= 1
    }

    open spec fn read_foreign(p: Option<Seq<i16>>, v: i16) -> bool {
        p matches Some(b) && b.len() >= 1 && v == b[0]
    }

    fn cloned_from_foreign(p: Option<&[i16]>) -> (r: i16) {
        let block = p.unwrap();
        block[0]
    }
}

impl ForeignCells<i16> for i16 {
    open spec fn cells_spec(&self) -> Option<Seq<i16>> {
        Some(seq![*self])
    }

    fn cells(&self) -> (r: Option<&[i16]>) {
        Some(slice_from_ref(self))
    }
}

impl ForeignCellsMut<i16> for i16 {
    fn cells_mut(&mut self) -> (r: Option<&mut [i16]>) {
        Some(slice_from_mut(self))
    }
}

impl ForeignLayout for i16 {
    proof fn lemma_layout(x: &Self) {
    }
}

impl PlainForeign for i16 {
    proof fn lemma_plain(x: &Self) {
    }
}

impl<'a> BorrowForeign<'a> for i16 {
    type Storage = &'a i16;

    fn borrow_foreign(&'a self) -> (r: BorrowedPointer<Self, &'a i16>)
        ensures
            r.storage_spec() == self,
    {
        BorrowedPointer::new(self)
    }
}

impl<'a> BorrowForeignMut<'a> for i16 {
    type Storage = &'a mut i16;

    fn borrow_foreign_mut(&'a mut self) -> (r: BorrowedMutPointer<Self, &'a mut i16>)
        ensures
            *r.storage_spec() == *old(self),
            *final(self) == *final(r.storage_spec()),
    {
        BorrowedMutPointer::new(self)
    }
}

impl FixedAlloc for i16 {
    open spec fn foreign_cell(&self) -> i16 {
        *self
    }

    proof fn lemma_single_cell(x: &Self) {
    }

    proof fn lemma_cell_roundtrip(x: Self, rest: Seq<i16>, y: Self) {
    }

    fn clone_into_foreign(dest: &mut Vec<i16>, src: &Self) {
        dest.push(*src);
    }
}

impl FreeForeign for u16 {
    type Foreign = u16;

    open spec fn foreign_repr(&self) -> Option<Seq<u16>> {
        Some(seq![*self])
    }
}

impl CloneToForeign for u16 {
    fn clone_to_foreign(&self) -> (r: OwnedPointer<Self>) {
        let mut block: Vec<u16> = Vec::new();
        block.push(*self);
        OwnedPointer::new(Some(block))
    }
}

impl FromForeign for u16 {
    open spec fn valid_foreign(p: Option<Seq<u16>>) -> bool {
        p matches Some(b) && b.len() >= 1
    }

    open spec fn read_foreign(p: Option<Seq<u16>>, v: u16) -> bool {
        p matches Some(b) && b.len() >= 1 && v == b[0]
    }

    fn cloned_from_foreign(p: Option<&[u16]>) -> (r: u16) {
        let block = p.unwrap();
        block[0]
    }
}

impl ForeignCells<u16> for u16 {
    open spec fn cells_spec(&self) -> Option<Seq<u16>> {
        Some(seq![*self])
    }

    fn cells(&self) -> (r: Option<&[u16]>) {
        Some(slice_from_ref(self))
    }
}

impl ForeignCellsMut<u16> for u16 {
    fn cells_mut(&mut self) -> (r: Option<&mut [u16]>) {
        Some(slice_from_mut(self))
    }
}

impl ForeignLayout for u16 {
    proof fn lemma_layout(x: &Self) {
    }
}

impl PlainForeign for u16 {
    proof fn lemma_plain(x: &Self) {
    }
}

impl<'a> BorrowForeign<'a> for u16 {
    type Storage = &'a u16;

    fn borrow_foreign(&'a self) -> (r: BorrowedPointer<Self, &'a u16>)
        ensures
            r.storage_spec() == self,
    {
        BorrowedPointer::new(self)
    }
}

impl<'a> BorrowForeignMut<'a> for u16 {
    type Storage = &'a mut u16;

    fn borrow_foreign_mut(&'a mut self) -> (r: BorrowedMutPointer<Self, &'a mut u16>)
        ensures
            *r.storage_spec() == *old(self),
            *final(self) == *final(r.storage_spec()),
    {
        BorrowedMutPointer::new(self)
    }
}

impl FixedAlloc for u16 {
    open spec fn foreign_cell(&self) -> u16 {
        *self
    }

    proof fn lemma_single_cell(x: &Self) {
    }

    proof fn lemma_cell_roundtrip(x: Self, rest: Seq<u16>, y: Self) {
    }

    fn clone_into_foreign(dest: &mut Vec<u16>, src: &Self) {
        dest.push(*src);
    }
}

impl FreeForeign for i32 {
    type Foreign = i32;

    open spec fn foreign_repr(&self) -> Option<Seq<i32>> {
        Some(seq![*self])
    }
}

impl CloneToForeign for i32 {
    fn clone_to_foreign(&self) -> (r: OwnedPointer<Self>) {
        let mut block: Vec<i32> = Vec::new();
        block.push(*self);
        OwnedPointer::new(Some(block))
    }
}

impl FromForeign for i32 {
    open spec fn valid_foreign(p: Option<Seq<i32>>) -> bool {
        p matches Some(b) && b.len() >= 1
    }

    open spec fn read_foreign(p: Option<Seq<i32>>, v: i32) -> bool {
        p matches Some(b) && b.len() >= 1 && v == b[0]
    }

    fn cloned_from_foreign(p: Option<&[i32]>) -> (r: i32) {
        let block = p.unwrap();
        block[0]
    }
}

impl ForeignCells<i32> for i32 {
    open spec fn cells_spec(&self) -> Option<Seq<i32>> {
        Some(seq![*self])
    }

    fn cells(&self) -> (r: Option<&[i32]>) {
        Some(slice_from_ref(self))
    }
}

impl ForeignCellsMut<i32> for i32 {
    fn cells_mut(&mut self) -> (r: Option<&mut [i32]>) {
        Some(slice_from_mut(self))
    }
}

impl ForeignLayout for i32 {
    proof fn lemma_layout(x: &Self) {
    }
}

impl PlainForeign for i32 {
    proof fn lemma_plain(x: &Self) {
    }
}

impl<'a> BorrowForeign<'a> for i32 {
    type Storage = &'a i32;

    fn borrow_foreign(&'a self) -> (r: BorrowedPointer<Self, &'a i32>)
        ensures
            r.storage_spec() == self,
    {
        BorrowedPointer::new(self)
    }
}

impl<'a> BorrowForeignMut<'a> for i32 {
    type Storage = &'a mut i32;

    fn borrow_foreign_mut(&'a mut self) -> (r: BorrowedMutPointer<Self, &'a mut i32>)
        ensures
            *r.storage_spec() == *old(self),
            *final(self) == *final(r.storage_spec()),
    {
        BorrowedMutPointer::new(self)
    }
}

impl FixedAlloc for i32 {
    open spec fn foreign_cell(&self) -> i32 {
        *self
    }

    proof fn lemma_single_cell(x: &Self) {
    }

    proof fn lemma_cell_roundtrip(x: Self, rest: Seq<i32>, y: Self) {
    }

    fn clone_into_foreign(dest: &mut Vec<i32>, src: &Self) {
        dest.push(*src);
    }
}

impl FreeForeign for u32 {
    type Foreign = u32;

    open spec fn foreign_repr(&self) -> Option<Seq<u32>> {
        Some(seq![*self])
    }
}

impl CloneToForeign for u32 {
    fn clone_to_foreign(&self) -> (r: OwnedPointer<Self>) {
        let mut block: Vec<u32> = Vec::new();
        block.push(*self);
        OwnedPointer::new(Some(block))
    }
}

impl FromForeign for u32 {
    open spec fn valid_foreign(p: Option<Seq<u32>>) -> bool {
        p matches Some(b) && b.len() >= 1
    }

    open spec fn read_foreign(p: Option<Seq<u32>>, v: u32) -> bool {
        p matches Some(b) && b.len() >= 1 && v == b[0]
    }

    fn cloned_from_foreign(p: Option<&[u32]>) -> (r: u32) {
        let block = p.unwrap();
        block[0]
    }
}

impl ForeignCells<u32> for u32 {
    open spec fn cells_spec(&self) -> Option<Seq<u32>> {
        Some(seq![*self])
    }

    fn cells(&self) -> (r: Option<&[u32]>) {
        Some(slice_from_ref(self))
    }
}

impl ForeignCellsMut<u32> for u32 {
    fn cells_mut(&mut self) -> (r: Option<&mut [u32]>) {
        Some(slice_from_mut(self))
    }
}

impl ForeignLayout for u32 {
    proof fn lemma_layout(x: &Self) {
    }
}

impl PlainForeign for u32 {
    proof fn lemma_plain(x: &Self) {
    }
}

impl<'a> BorrowForeign<'a> for u32 {
    type Storage = &'a u32;

    fn borrow_foreign(&'a self) -> (r: BorrowedPointer<Self, &'a u32>)
        ensures
            r.storage_spec() == self,
    {
        BorrowedPointer::new(self)
    }
}

impl<'a> BorrowForeignMut<'a> for u32 {
    type Storage = &'a mut u32;

    fn borrow_foreign_mut(&'a mut self) -> (r: BorrowedMutPointer<Self, &'a mut u32>)
        ensures
            *r.storage_spec() == *old(self),
            *final(self) == *final(r.storage_spec()),
    {
        BorrowedMutPointer::new(self)
    }
}

impl FixedAlloc for u32 {
    open spec fn foreign_cell(&self) -> u32 {
        *self
    }

    proof fn lemma_single_cell(x: &Self) {
    }

    proof fn lemma_cell_roundtrip(x: Self, rest: Seq<u32>, y: Self) {
    }

    fn clone_into_foreign(dest: &mut Vec<u32>, src: &Self) {
        dest.push(*src);
    }
}

impl FreeForeign for i64 {
    type Foreign = i64;

    open spec fn foreign_repr(&self) -> Option<Seq<i64>> {
        Some(seq![*self])
    }
}

impl CloneToForeign for i64 {
    fn clone_to_foreign(&self) -> (r: OwnedPointer<Self>) {
        let mut block: Vec<i64> = Vec::new();
        block.push(*self);
        OwnedPointer::new(Some(block))
    }
}

impl FromForeign for i64 {
    open spec fn valid_foreign(p: Option<Seq<i64>>) -> bool {
        p matches Some(b) && b.len() >= 1
    }

    open spec fn read_foreign(p: Option<Seq<i64>>, v: i64) -> bool {
        p matches Some(b) && b.len() >= 1 && v == b[0]
    }

    fn cloned_from_foreign(p: Option<&[i64]>) -> (r: i64) {
        let block = p.unwrap();
        block[0]
    }
}

impl ForeignCells<i64> for i64 {
    open spec fn cells_spec(&self) -> Option<Seq<i64>> {
        Some(seq![*self])
    }

    fn cells(&self) -> (r: Option<&[i64]>) {
        Some(slice_from_ref(self))
    }
}

impl ForeignCellsMut<i64> for i64 {
    fn cells_mut(&mut self) -> (r: Option<&mut [i64]>) {
        Some(slice_from_mut(self))
    }
}

impl ForeignLayout for i64 {
    proof fn lemma_layout(x: &Self) {
    }
}

impl PlainForeign for i64 {
    proof fn lemma_plain(x: &Self) {
    }
}

impl<'a> BorrowForeign<'a> for i64 {
    type Storage = &'a i64;

    fn borrow_foreign(&'a self) -> (r: BorrowedPointer<Self, &'a i64>)
        ensures
            r.storage_spec() == self,
    {
        BorrowedPointer::new(self)
    }
}

impl<'a> BorrowForeignMut<'a> for i64 {
    type Storage = &'a mut i64;

    fn borrow_foreign_mut(&'a mut self) -> (r: BorrowedMutPointer<Self, &'a mut i64>)
        ensures
            *r.storage_spec() == *old(self),
            *final(self) == *final(r.storage_spec()),
    {
        BorrowedMutPointer::new(self)
    }
}

impl FixedAlloc for i64 {
    open spec fn foreign_cell(&self) -> i64 {
        *self
    }

    proof fn lemma_single_cell(x: &Self) {
    }

    proof fn lemma_cell_roundtrip(x: Self, rest: Seq<i64>, y: Self) {
    }

    fn clone_into_foreign(dest: &mut Vec<i64>, src: &Self) {
        dest.push(*src);
    }
}

impl FreeForeign for u64 {
    type Foreign = u64;

    open spec fn foreign_repr(&self) -> Option<Seq<u64>> {
        Some(seq![*self])
    }
}

impl CloneToForeign for u64 {
    fn clone_to_foreign(&self) -> (r: OwnedPointer<Self>) {
        let mut block: Vec<u64> = Vec::new();
        block.push(*self);
        OwnedPointer::new(Some(block))
    }
}

impl FromForeign for u64 {
    open spec fn valid_foreign(p: Option<Seq<u64>>) -> bool {
        p matches Some(b) && b.len() >= 1
    }

    open spec fn read_foreign(p: Option<Seq<u64>>, v: u64) -> bool {
        p matches Some(b) && b.len() >= 1 && v == b[0]
    }

    fn cloned_from_foreign(p: Option<&[u64]>) -> (r: u64) {
        let block = p.unwrap();
        block[0]
    }
}

impl ForeignCells<u64> for u64 {
    open spec fn cells_spec(&self) -> Option<Seq<u64>> {
        Some(seq![*self])
    }

    fn cells(&self) -> (r: Option<&[u64]>) {
        Some(slice_from_ref(self))
    }
}

impl ForeignCellsMut<u64> for u64 {
    fn cells_mut(&mut self) -> (r: Option<&mut [u64]>) {
        Some(slice_from_mut(self))
    }
}

impl ForeignLayout for u64 {
    proof fn lemma_layout(x: &Self) {
    }
}

impl PlainForeign for u64 {
    proof fn lemma_plain(x: &Self) {
    }
}

impl<'a> BorrowForeign<'a> for u64 {
    type Storage = &'a u64;

    fn borrow_foreign(&'a self) -> (r: BorrowedPointer<Self, &'a u64>)
        ensures
            r.storage_spec() == self,
    {
        BorrowedPointer::new(self)
    }
}

impl<'a> BorrowForeignMut<'a> for u64 {
    type Storage = &'a mut u64;

    fn borrow_foreign_mut(&'a mut self) -> (r: BorrowedMutPointer<Self, &'a mut u64>)
        ensures
            *r.storage_spec() == *old(self),
            *final(self) == *final(r.storage_spec()),
    {
        BorrowedMutPointer::new(self)
    }
}

impl FixedAlloc for u64 {
    open spec fn foreign_cell(&self) -> u64 {
        *self
    }

    proof fn lemma_single_cell(x: &Self) {
    }

    proof fn lemma_cell_roundtrip(x: Self, rest: Seq<u64>, y: Self) {
    }

    fn clone_into_foreign(dest: &mut Vec<u64>, src: &Self) {
        dest.push(*src);
    }
}

impl FreeForeign for isize {
    type Foreign = libc::ptrdiff_t;

    open spec fn foreign_repr(&self) -> Option<Seq<libc::ptrdiff_t>> {
        Some(seq![*self])
    }
}

impl CloneToForeign for isize {
    fn clone_to_foreign(&self) -> (r: OwnedPointer<Self>) {
        let mut block: Vec<libc::ptrdiff_t> = Vec::new();
        block.push(*self);
        OwnedPointer::new(Some(block))
    }
}

impl FromForeign for isize {
    open spec fn valid_foreign(p: Option<Seq<libc::ptrdiff_t>>) -> bool {
        p matches Some(b) && b.len() >= 1
    }

    open spec fn read_foreign(p: Option<Seq<libc::ptrdiff_t>>, v: isize) -> bool {
        p matches Some(b) && b.len() >= 1 && v == b[0]
    }

    fn cloned_from_foreign(p: Option<&[libc::ptrdiff_t]>) -> (r: isize) {
        let block = p.unwrap();
        block[0]
    }
}

impl ForeignCells<libc::ptrdiff_t> for isize {
    open spec fn cells_spec(&self) -> Option<Seq<libc::ptrdiff_t>> {
        Some(seq![*self])
    }

    fn cells(&self) -> (r: Option<&[libc::ptrdiff_t]>) {
        Some(slice_from_ref(self))
    }
}

impl ForeignCellsMut<libc::ptrdiff_t> for isize {
    fn cells_mut(&mut self) -> (r: Option<&mut [libc::ptrdiff_t]>) {
        Some(slice_from_mut(self))
    }
}

impl ForeignLayout for isize {
    proof fn lemma_layout(x: &Self) {
    }
}

impl PlainForeign for isize {
    proof fn lemma_plain(x: &Self) {
    }
}

impl<'a> BorrowForeign<'a> for isize {
    type Storage = &'a isize;

    fn borrow_foreign(&'a self) -> (r: BorrowedPointer<Self, &'a isize>)
        ensures
            r.storage_spec() == self,
    {
        BorrowedPointer::new(self)
    }
}

impl<'a> BorrowForeignMut<'a> for isize {
    type Storage = &'a mut isize;

    fn borrow_foreign_mut(&'a mut self) -> (r: BorrowedMutPointer<Self, &'a mut isize>)
        ensures
            *r.storage_spec() == *old(self),
            *final(self) == *final(r.storage_spec()),
    {
        BorrowedMutPointer::new(self)
    }
}

impl FixedAlloc for isize {
    open spec fn foreign_cell(&self) -> libc::ptrdiff_t {
        *self
    }

    proof fn lemma_single_cell(x: &Self) {
    }

    proof fn lemma_cell_roundtrip(x: Self, rest: Seq<libc::ptrdiff_t>, y: Self) {
    }

    fn clone_into_foreign(dest: &mut Vec<libc::ptrdiff_t>, src: &Self) {
        dest.push(*src);
    }
}

impl FreeForeign for usize {
    type Foreign = libc::size_t;

    open spec fn foreign_repr(&self) -> Option<Seq<libc::size_t>> {
        Some(seq![*self])
    }
}

impl CloneToForeign for usize {
    fn clone_to_foreign(&self) -> (r: OwnedPointer<Self>) {
        let mut block: Vec<libc::size_t> = Vec::new();
        block.push(*self);
        OwnedPointer::new(Some(block))
    }
}

impl FromForeign for usize {
    open spec fn valid_foreign(p: Option<Seq<libc::size_t>>) -> bool {
        p matches Some(b) && b.len() >= 1
    }

    open spec fn read_foreign(p: Option<Seq<libc::size_t>>, v: usize) -> bool {
        p matches Some(b) && b.len() >= 1 && v == b[0]
    }

    fn cloned_from_foreign(p: Option<&[libc::size_t]>) -> (r: usize) {
        let block = p.unwrap();
        block[0]
    }
}

impl ForeignCells<libc::size_t> for usize {
    open spec fn cells_spec(&self) -> Option<Seq<libc::size_t>> {
        Some(seq![*self])
    }

    fn cells(&self) -> (r: Option<&[libc::size_t]>) {
        Some(slice_from_ref(self))
    }
}

impl ForeignCellsMut<libc::size_t> for usize {
    fn cells_mut(&mut self) -> (r: Option<&mut [libc::size_t]>) {
        Some(slice_from_mut(self))
    }
}

impl ForeignLayout for usize {
    proof fn lemma_layout(x: &Self) {
    }
}

impl PlainForeign for usize {
    proof fn lemma_plain(x: &Self) {
    }
}

impl<'a> BorrowForeign<'a> for usize {
    type Storage = &'a usize;

    fn borrow_foreign(&'a self) -> (r: BorrowedPointer<Self, &'a usize>)
        ensures
            r.storage_spec() == self,
    {
        BorrowedPointer::new(self)
    }
}

impl<'a> BorrowForeignMut<'a> for usize {
    type Storage = &'a mut usize;

    fn borrow_foreign_mut(&'a mut self) -> (r: BorrowedMutPointer<Self, &'a mut usize>)
        ensures
            *r.storage_spec() == *old(self),
            *final(self) == *final(r.storage_spec()),
    {
        BorrowedMutPointer::new(self)
    }
}

impl FixedAlloc for usize {
    open spec fn foreign_cell(&self) -> libc::size_t {
        *self
    }

    proof fn lemma_single_cell(x: &Self) {
    }

    proof fn lemma_cell_roundtrip(x: Self, rest: Seq<libc::size_t>, y: Self) {
    }

    fn clone_into_foreign(dest: &mut Vec<libc::size_t>, src: &Self) {
        dest.push(*src);
    }
}

} // verus!
