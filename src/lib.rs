//! Verified core of a binding layer between native values and the object
//! model of an embedded interpreter.
//!
//! Foreign values are held as plain data ([`value::ForeignValue`]). On that
//! model the library states and proves:
//! - the two conversion directions ([`ToPython`], [`PyTryFrom`]) for
//!   booleans, integers of every width (`i8` to `i128`, `u8` to `u128`,
//!   `isize`, `usize`), strings, byte strings, optional and boxed values,
//!   sequences, tuples of one to twelve items, sorted maps and sets, hash
//!   maps and sets, dates, times, offsets, date-times and durations, and
//!   that they undo each other;
//! - wrapper handles ([`PyWrapper`], [`PyWrapperMut`]), data structures
//!   exposed field by field, tagged unions and unit enumerations;
//! - the exceptions that conversion failures are raised as;
//! - the naming and ordering helpers used when registering and describing
//!   exposed classes.
pub mod convert;
pub mod datetime;
pub mod enums;
pub mod errors;
pub mod hashed;
pub mod naming;
pub mod record;
pub mod sorted;
pub mod stubs;
pub mod tuples;
pub mod union;
pub mod value;
pub mod wrapper;

pub use convert::{PyTryFrom, ToPython};
pub use errors::ToPythonError;
pub use wrapper::{PyWrapper, PyWrapperMut};
