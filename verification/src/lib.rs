//! Utilities for splitting sequences with range parameters.
//!
//! The `TakeRange` trait provides polymorphic, easily memorizable methods
//! for splitting indexed sequences with a parameter given in range syntax.
//!
//! ```
//! use bytes::Bytes;
//! use range_split::TakeRange;
//!
//! let mut buf = Bytes::from("Hello, world");
//! let p = buf.take_range(..5);
//! buf.remove_range(2..);
//! assert_eq!(p, "Hello");
//! assert_eq!(buf, ", ");
//! ```
//!
//! is equivalent to
//!
//! ```
//! use bytes::Bytes;
//!
//! let mut buf = Bytes::from("Hello, world");
//! let p = buf.split_to(5);
//! buf.truncate(2);
//! ```
//!
//! Implementations of `TakeRange` are provided for `Bytes` and `BytesMut`
//! from the crate `bytes`. The module `str` checks that a range splits a
//! string only between characters.

pub mod bounds;
pub mod buffers;
pub mod mem;
pub mod str;
pub mod take_range;

pub use take_range::TakeRange;
