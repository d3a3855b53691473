//! Conversions between native Rust values and their C representations.
//!
//! A C datum is reached through a pointer; here a pointer is modelled by the
//! memory block it designates, seen as a sequence of cells of the foreign
//! type (`None` standing for `NULL`).  An owned block is a `Vec`, a borrowed
//! one a slice.  The traits say which conversions exist for a type, and
//! their contracts say which C datum each one produces or reads.
pub mod boxed;
pub mod cow;
pub mod foreign;
pub mod option;
pub mod primitive;
pub mod slice;
pub mod string;
pub mod vec;

pub use foreign::{
    owned_as_ptr, BorrowForeign, BorrowForeignMut, BorrowedMutPointer, BorrowedPointer,
    CloneToForeign, FixedAlloc, ForeignCells, ForeignCellsMut, ForeignLayout, FreeForeign,
    FromForeign, IntoForeign, IntoNative, OwnedPointer, PlainForeign,
};
