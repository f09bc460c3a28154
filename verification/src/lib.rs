//! Types for keeping a value in storage that makes no promise about its
//! alignment.
//!
//! [`Unaligned<T>`] is the storage shim. It never lends its payload out by
//! reference as a matter of course: the payload is moved in and out, or it is
//! relocated for the length of a scope and written back when the scope ends.
//! Only a caller that knows the address of the storage, and so whether that
//! address happens to be aligned for `T`, gets a reference to the payload in
//! place.
//!
//! [`UnalignedCell<T>`] is the borrow-checked cell. It lends its payload to
//! one guard at a time and checks at run time that it has a payload to lend:
//! a second borrow, made before the first guard has been released, is
//! refused.
//!
//! [`UnalignedCell<T>`]: cell::UnalignedCell

pub mod cell;
pub mod unaligned;

pub use unaligned::Unaligned;
