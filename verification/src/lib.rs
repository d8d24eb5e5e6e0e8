//! Generates, for a function that reports a check by what it returns, a macro
//! `assert_<name>!` that calls the function and asserts on its result.
//!
//! A function that returns `bool` is asserted to return true; one that returns
//! a tuple, to return equal values in its first two elements; one that returns
//! a `Result` of either is checked in the same way where it returns `Ok`. The
//! checks only read the result, and the macro evaluates to what the function
//! returned.
//!
//! [`syntax`] holds the parsed input; [`shape`], [`message`] and [`signature`]
//! read it; [`layout`] says how a macro is laid out and [`literal`] how a
//! message is written between quotes; [`synth`] generates the
//! macro whose assertion follows from the return type, [`explicit`] the one
//! whose assertion the caller picks; [`laws`] states what holds of every
//! generated macro.

pub mod error;
pub mod explicit;
pub mod laws;
pub mod layout;
pub mod literal;
pub mod message;
pub mod panic_message;
pub mod shape;
pub mod signature;
pub mod synth;
pub mod syntax;
pub mod text;

pub use crate::synth::assert_fn;
