//! Turning an `Option` into a `ControlFlow` in one expression.
//!
//! A loop that draws optional items from a source has to decide, for each of
//! them, whether to go on with the item or to stop with a final value. The
//! methods of [`OptionExt`] make that decision from the presence of the
//! payload alone: the payload goes into one arm, and a value that the caller
//! supplies (handed over, produced on demand, or the type's default) goes
//! into the other.
//!
//! - [`model`] states each conversion over plain values.
//! - [`option_ext`] holds the trait and its implementation for `Option`.
//! - [`laws`] proves how the conversions relate to one another.

pub mod laws;
pub mod model;
pub mod option_ext;

pub use option_ext::OptionExt;
