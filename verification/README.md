# foreign

Conversions between native Rust values and their C representations, with
contracts proved by Verus.

A C datum is reached through a pointer.  The library models a pointer by the
block of memory it designates, seen as a sequence of cells of the C type:

* a read-only pointer is an `Option<&[F]>`, a writable one an
  `Option<&mut [F]>`, and an owned C allocation an `Option<Vec<F>>`;
* `None` is `NULL`;
* freeing a datum is giving up ownership of its block.

Each type has a canonical C datum (`FreeForeign::foreign_repr`): a primitive
is one cell, a slice, array or vector of primitives is the array of its
elements, a string is its UTF-8 bytes followed by a nul, `None` is `NULL`, and
a `Box` or `Cow` has the datum of what it holds.  `CloneToForeign`,
`BorrowForeign`, `BorrowForeignMut` and `IntoForeign` all hand out that datum;
`FromForeign` reads a datum back.  Writing through the pointer of a
`BorrowedMutPointer` reaches the data it borrows from: `as_mut_ptr` is given
for each kind of storage (a mutable reference, an owned vector or box, or an
`Option` of these), and once the pointer is no longer used
`lemma_resolved` hands its storage's final value back to the borrowed data.  The proof functions in each module state
the round trips (what is copied to C is read back as the same value) and the
handling of `NULL`.

Layout:

* `src/foreign.rs`: the traits, `OwnedPointer`, `BorrowedPointer`,
  `BorrowedMutPointer`;
* `src/primitive.rs`, `src/slice.rs`, `src/vec.rs`, `src/string.rs`,
  `src/option.rs`, `src/boxed.rs`, `src/cow.rs`: the conversions for each
  kind of type;
* `app/lib.rs`: the C side, which moves blocks into memory from the C
  allocator and reads them back from raw pointers through `libc`.
