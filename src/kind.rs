//! The closed classification of I/O failures.

use vstd::prelude::*;

verus! {

/// A closed set of error classifications, to be filled in by the embedding
/// system.
///
/// No classification exists yet. Verus requires an enum to have a variant,
/// so the type has one whose payload is `Infallible`: no value of `ErrorKind`
/// can be built, and code that matches on it stays exhaustive.
#[derive(Clone, Copy, Debug, PartialEq, Eq, PartialOrd, Ord, Hash)]
pub enum ErrorKind {
    Never(core::convert::Infallible),
}

/// The text that the derived `Debug` gives for a classification.
pub uninterp spec fn kind_debug_text(k: ErrorKind) -> Seq<char>;

/// Relies on the derived `Debug` of `ErrorKind`, through `format!("{:?}")`:
/// the text depends on the classification alone.
#[verifier::external_body]
pub(crate) fn kind_debug(k: &ErrorKind) -> (r: String)
    ensures
        r@ == kind_debug_text(*k),
{
    format!("{:?}", k)
}

} // verus!
