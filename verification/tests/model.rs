//! The plain data types and their accessors.
use harpi::model::{Comment, Ident, MessageReference};

#[test]
fn ident_accessors() {
    let mut id = Ident::new(false, String::from("foo"));
    assert!(!id.relative());
    assert_eq!(id.value(), "foo");
    id.set_relative(true);
    assert!(id.relative());
    id.set_value(String::from("bar.baz"));
    assert_eq!(id.value(), "bar.baz");
}

#[test]
fn ident_display_string() {
    let id = Ident::new(true, String::from("pkg.Name"));
    assert_eq!(id.display_string(), ".pkg.Name");
    let id = Ident::new(false, String::from("Name"));
    assert_eq!(id.display_string(), "Name");
}

#[test]
fn comment_holds_its_text() {
    let c = Comment::new(String::from(" a comment "));
    assert_eq!(c.value(), " a comment ");
}

#[test]
fn message_reference_holds_its_name() {
    let m = MessageReference::new(String::from("pkg.Msg"));
    assert_eq!(m.value(), "pkg.Msg");
}
