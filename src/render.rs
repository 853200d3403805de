//! The debug-style shapes in which an error is rendered, built from the text
//! of their parts.

use vstd::prelude::*;

verus! {

/// `Kind(<kind>)`: the tuple shape of a bare classification.
pub open spec fn tuple_debug_form(kind_text: Seq<char>) -> Seq<char> {
    "Kind("@ + kind_text + ")"@
}

/// `Error { kind: <kind>, message: <message> }`: the struct shape of a
/// classification with a message, the message given in its debug form.
pub open spec fn struct_debug_form(kind_text: Seq<char>, quoted_message: Seq<char>) -> Seq<char> {
    "Error { kind: "@ + kind_text + ", message: "@ + quoted_message + " }"@
}

/// The text that `str`'s `Debug` gives for a string: quoted and escaped.
pub uninterp spec fn str_debug_text(s: Seq<char>) -> Seq<char>;

/// Relies on `str`'s `Debug`, through `format!("{:?}")`: the text depends on
/// the characters alone.
#[verifier::external_body]
fn quote(s: &str) -> (r: String)
    ensures
        r@ == str_debug_text(s@),
{
    format!("{:?}", s)
}

/// Renders a bare classification, given its debug text, in the tuple shape.
pub fn tuple_debug(kind_text: &str) -> (r: String)
    ensures
        r@ == tuple_debug_form(kind_text@),
{
    let mut r = String::from_str("Kind(");
    r.append(kind_text);
    r.append(")");
    r
}

/// Renders a classification and a message, both given in their debug text,
/// in the struct shape.
pub fn struct_debug(kind_text: &str, quoted_message: &str) -> (r: String)
    ensures
        r@ == struct_debug_form(kind_text@, quoted_message@),
{
    let mut r = String::from_str("Error { kind: ");
    r.append(kind_text);
    r.append(", message: ");
    r.append(quoted_message);
    r.append(" }");
    r
}

/// Renders a classification, given its debug text, and a message in the
/// struct shape, quoting the message first.
pub fn message_debug(kind_text: &str, message: &str) -> (r: String)
    ensures
        r@ == struct_debug_form(kind_text@, str_debug_text(message@)),
{
    let quoted = quote(message);
    struct_debug(kind_text, quoted.as_str())
}

} // verus!
