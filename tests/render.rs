use ioerr::render::{message_debug, struct_debug, tuple_debug};
use ioerr::{Error, ErrorKind, Result};

#[test]
fn tuple_debug_wraps_kind_in_tag() {
    assert_eq!(tuple_debug("NotFound"), "Kind(NotFound)");
}

#[test]
fn tuple_debug_of_empty_kind_text() {
    assert_eq!(tuple_debug(""), "Kind()");
}

#[test]
fn struct_debug_names_both_fields() {
    assert_eq!(
        struct_debug("NotFound", "\"no such file\""),
        "Error { kind: NotFound, message: \"no such file\" }"
    );
}

#[test]
fn message_debug_quotes_the_message() {
    assert_eq!(
        message_debug("NotFound", "no such file"),
        "Error { kind: NotFound, message: \"no such file\" }"
    );
}

#[test]
fn message_debug_escapes_quotes_and_newlines() {
    assert_eq!(
        message_debug("Other", "say \"hi\"\n"),
        "Error { kind: Other, message: \"say \\\"hi\\\"\\n\" }"
    );
}

#[test]
fn message_debug_of_empty_message() {
    assert_eq!(message_debug("Other", ""), "Error { kind: Other, message: \"\" }");
}

#[test]
fn debug_shapes_start_with_distinct_tags() {
    let bare = tuple_debug("Other");
    let with_message = message_debug("Other", "boom");
    assert_ne!(bare, with_message);
    assert!(bare.starts_with("Kind("));
    assert!(with_message.starts_with("Error {"));
}

#[test]
fn result_alias_carries_success_value() {
    let r: Result<u32> = Ok(7);
    assert!(matches!(r, Ok(7)));
}

#[test]
fn error_constructors_accept_any_kind() {
    let from_kind: fn(ErrorKind) -> Error = Error::from;
    let with_message: fn(ErrorKind, &'static str) -> Error = Error::new;
    let kind_of: fn(&Error) -> ErrorKind = Error::kind;
    let _ = (from_kind, with_message, kind_of);
}
