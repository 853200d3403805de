//! The error value, its mathematical view, and the result type that carries it.

use vstd::prelude::*;
use vstd::std_specs::convert::FromSpec;

use crate::kind::{kind_debug, kind_debug_text, ErrorKind};
use crate::render::{
    message_debug, str_debug_text, struct_debug_form, tuple_debug, tuple_debug_form,
};

verus! {

/// The outcome of an I/O-style operation: a value, or an [`Error`].
pub type Result<T> = core::result::Result<T, Error>;

/// What an [`Error`] holds: a bare classification, or a classification with
/// the text of its message.
pub enum ErrorView {
    Simple(ErrorKind),
    SimpleMessage(ErrorKind, Seq<char>),
}

impl ErrorView {
    /// The classification, present in both shapes.
    pub open spec fn kind(self) -> ErrorKind {
        match self {
            ErrorView::Simple(k) => k,
            ErrorView::SimpleMessage(k, _) => k,
        }
    }

    /// The diagnostic rendering: the tuple shape for a bare classification,
    /// the struct shape, with the message quoted, otherwise.
    pub open spec fn debug_form(self) -> Seq<char> {
        match self {
            ErrorView::Simple(k) => tuple_debug_form(kind_debug_text(k)),
            ErrorView::SimpleMessage(k, m) => struct_debug_form(
                kind_debug_text(k),
                str_debug_text(m),
            ),
        }
    }

    /// The human-readable rendering: the classification's debug text when
    /// there is no message, the message exactly otherwise.
    pub open spec fn display_form(self) -> Seq<char> {
        match self {
            ErrorView::Simple(k) => kind_debug_text(k),
            ErrorView::SimpleMessage(_, m) => m,
        }
    }
}

/// An I/O-style error that never allocates: a classification, optionally
/// with a message of static text.
pub struct Error {
    data: ErrorData,
}

enum ErrorData {
    Simple(ErrorKind),
    SimpleMessage(SimpleMessage),
}

struct SimpleMessage {
    kind: ErrorKind,
    message: &'static str,
}

impl SimpleMessage {
    fn new(kind: ErrorKind, message: &'static str) -> (r: Self)
        ensures
            r.kind == kind,
            r.message == message,
    {
        Self { kind, message }
    }
}

impl View for Error {
    type V = ErrorView;

    closed spec fn view(&self) -> ErrorView {
        match self.data {
            ErrorData::Simple(k) => ErrorView::Simple(k),
            ErrorData::SimpleMessage(m) => ErrorView::SimpleMessage(m.kind, m.message@),
        }
    }
}

impl Error {
    /// An error of classification `kind` with the message `error`.
    pub fn new(kind: ErrorKind, error: &'static str) -> (r: Self)
        ensures
            r@ == ErrorView::SimpleMessage(kind, error@),
    {
        Self { data: ErrorData::SimpleMessage(SimpleMessage::new(kind, error)) }
    }

    /// The classification of the error.
    #[inline]
    pub fn kind(&self) -> (r: ErrorKind)
        ensures
            r == self@.kind(),
    {
        match &self.data {
            ErrorData::Simple(k) => *k,
            ErrorData::SimpleMessage(m) => m.kind,
        }
    }

    /// The diagnostic rendering: `Kind(<kind>)` for a bare classification,
    /// `Error { kind: <kind>, message: "<message>" }` otherwise.
    pub fn to_debug_string(&self) -> (r: String)
        ensures
            r@ == self@.debug_form(),
    {
        match &self.data {
            ErrorData::Simple(k) => {
                let kind_text = kind_debug(k);
                tuple_debug(kind_text.as_str())
            },
            ErrorData::SimpleMessage(m) => {
                let kind_text = kind_debug(&m.kind);
                message_debug(kind_text.as_str(), m.message)
            },
        }
    }

    /// The human-readable rendering: the message exactly where there is one,
    /// else the classification in its debug text.
    pub fn to_string(&self) -> (r: String)
        ensures
            r@ == self@.display_form(),
    {
        match &self.data {
            ErrorData::Simple(k) => kind_debug(k),
            ErrorData::SimpleMessage(m) => String::from_str(m.message),
        }
    }
}

impl From<ErrorKind> for Error {
    fn from(value: ErrorKind) -> Self {
        Self { data: ErrorData::Simple(value) }
    }
}

impl vstd::std_specs::convert::FromSpecImpl<ErrorKind> for Error {
    open spec fn obeys_from_spec() -> bool {
        true
    }

    closed spec fn from_spec(v: ErrorKind) -> Self {
        Error { data: ErrorData::Simple(v) }
    }
}

/// Converting a classification gives the error that holds it alone, so its
/// `kind` is that classification.
pub proof fn lemma_from_kind(k: ErrorKind)
    ensures
        <Error as FromSpec<ErrorKind>>::from_spec(k)@ == ErrorView::Simple(k),
        <Error as FromSpec<ErrorKind>>::from_spec(k)@.kind() == k,
{
}

/// An error made with a classification and a message has that
/// classification as its `kind`.
pub proof fn lemma_new_kind(k: ErrorKind, msg: Seq<char>)
    ensures
        ErrorView::SimpleMessage(k, msg).kind() == k,
{
}

/// The human-readable rendering of an error with a message is the message
/// itself, with nothing added.
pub proof fn lemma_display_is_message(k: ErrorKind, msg: Seq<char>)
    ensures
        ErrorView::SimpleMessage(k, msg).display_form() == msg,
{
}

/// The diagnostic renderings of the two shapes never coincide: one starts
/// with the tag `Kind`, the other with `Error`, whatever the classifications
/// and the message.
pub proof fn lemma_debug_shapes_differ(k1: ErrorKind, k2: ErrorKind, msg: Seq<char>)
    ensures
        ErrorView::Simple(k1).debug_form() != ErrorView::SimpleMessage(k2, msg).debug_form(),
{
    let a = ErrorView::Simple(k1).debug_form();
    let b = ErrorView::SimpleMessage(k2, msg).debug_form();
    reveal_strlit("Kind(");
    reveal_strlit("Error { kind: ");
    assert(a[0] == 'K');
    assert(b[0] == 'E');
}

} // verus!
