//! A small, allocation-free I/O error value: a classification, optionally
//! paired with a static message, and its two textual renderings.

pub mod error;
pub mod kind;
pub mod render;

pub use error::{Error, ErrorView, Result};
pub use kind::ErrorKind;
