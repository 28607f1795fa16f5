//! Errors that carry a chain of causes and a stack of trace points.
//!
//! An [`Error`] holds a payload and, unless it was raised without one, a
//! [`Trace`](trace::Trace). Errors are chained through [`AnyError`], whose
//! payload is one of the library's [`Throwable`](error::Throwable)s. The
//! user-facing text of an error is the message of its own payload; the full
//! rendering lists every error of the chain, outermost first, each with its
//! trace points, newest first.

pub mod error;
pub mod text;
pub mod trace;

pub use crate::error::{
    AnyError, Error, IThrowable, catch, catch_with, throw, throw_formattable,
    throw_formattable_string, throw_string, throw_untraced,
};
pub use crate::text::location_point;
