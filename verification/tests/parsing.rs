//! Tree construction: messages, fields, enums, services, reserved
//! declarations.
use harpi::builder::{MessageBuilder, ProtoOptionBuilder};
use harpi::error::{Error, NodeKind, RequiredField};
use harpi::model::{Field, MapFieldKeyType, Proto, ReservedData, Type};
use harpi::parse;
use harpi::proto3::Proto3;

fn parse_one_message(body: &str) -> Proto {
    let p = Proto3.parse_body(body).expect("parse failed");
    assert_eq!(p.messages().len(), 1);
    p
}

#[test]
fn reserved_ranges_in_order() {
    let p = parse_one_message("message M { reserved 2, 15, 9 to 11; }");
    let m = &p.messages()[0];
    assert_eq!(m.reserved().len(), 1);
    assert_eq!(
        m.reserved()[0].items().as_slice(),
        &[
            ReservedData::Range(2, 2),
            ReservedData::Range(15, 15),
            ReservedData::Range(9, 11),
        ]
    );
}

#[test]
fn reserved_to_max() {
    let p = parse_one_message("message M { reserved 5 to max; }");
    let m = &p.messages()[0];
    assert_eq!(
        m.reserved()[0].items().as_slice(),
        &[ReservedData::Range(5, i64::MAX)]
    );
}

#[test]
fn reserved_field_names() {
    let p = parse_one_message("message M { reserved \"foo\", \"bar\"; }");
    let items = p.messages()[0].reserved()[0].items().clone();
    match (&items[0], &items[1]) {
        (ReservedData::Field(a), ReservedData::Field(b)) => {
            assert_eq!(a.value(), "foo");
            assert_eq!(b.value(), "bar");
        }
        other => panic!("not field names: {:?}", other),
    }
}

#[test]
fn minimal_message_round_trip() {
    let p = parse("syntax = \"proto3\"; message Foo { string name = 1; }").expect("parse failed");
    assert_eq!(p.syntax().value(), "proto3");
    assert_eq!(p.messages().len(), 1);
    let m = &p.messages()[0];
    assert_eq!(m.name().value(), "Foo");
    assert_eq!(m.fields().len(), 1);
    match &m.fields()[0] {
        Field::Normal(f) => {
            assert_eq!(*f.ty(), Type::String);
            assert_eq!(f.name().value(), "name");
            assert_eq!(f.number(), 1);
            assert!(!f.repeated());
            assert!(!f.optional());
        }
        other => panic!("not a normal field: {:?}", other),
    }
}

#[test]
fn one_of_group() {
    let p = parse_one_message("message M { oneof x { string a = 1; int32 b = 2; } }");
    let m = &p.messages()[0];
    assert_eq!(m.fields().len(), 1);
    match &m.fields()[0] {
        Field::OneOf(o) => {
            assert_eq!(o.name().value(), "x");
            assert_eq!(o.fields().len(), 2);
            assert_eq!(*o.fields()[0].ty(), Type::String);
            assert_eq!(o.fields()[0].name().value(), "a");
            assert_eq!(o.fields()[0].number(), 1);
            assert_eq!(*o.fields()[1].ty(), Type::Int32);
            assert_eq!(o.fields()[1].name().value(), "b");
            assert_eq!(o.fields()[1].number(), 2);
        }
        other => panic!("not a one-of field: {:?}", other),
    }
}

#[test]
fn map_field() {
    let p = parse_one_message("message M { map<string, int32> counts = 3; }");
    let m = &p.messages()[0];
    match &m.fields()[0] {
        Field::Mapping(f) => {
            assert_eq!(f.key_ty(), MapFieldKeyType::String);
            assert_eq!(*f.value_ty(), Type::Int32);
            assert_eq!(f.name().value(), "counts");
            assert_eq!(f.number(), 3);
        }
        other => panic!("not a map field: {:?}", other),
    }
}

#[test]
fn service_with_rpc() {
    let p = Proto3
        .parse_body("service S { rpc Get(Req) returns (Res); }")
        .expect("parse failed");
    assert_eq!(p.services().len(), 1);
    let s = &p.services()[0];
    assert_eq!(s.name().value(), "S");
    assert_eq!(s.rpcs().len(), 1);
    let rpc = &s.rpcs()[0];
    assert_eq!(rpc.name().value(), "Get");
    assert!(!rpc.input().stream());
    assert!(!rpc.output().stream());
    assert_eq!(rpc.input().value().value(), "Req");
    assert_eq!(rpc.output().value().value(), "Res");
}

#[test]
fn streaming_rpc_with_options() {
    let p = Proto3
        .parse_body(
            "service S { rpc Watch(stream In) returns (stream Out) { option deadline = 5; } }",
        )
        .expect("parse failed");
    let rpc = &p.services()[0].rpcs()[0];
    assert!(rpc.input().stream());
    assert!(rpc.output().stream());
    assert_eq!(rpc.options().len(), 1);
    assert_eq!(rpc.options()[0].name().value(), "deadline");
}

#[test]
fn repeated_and_optional_flags() {
    let p = parse_one_message("message M { repeated int32 xs = 1; }");
    match &p.messages()[0].fields()[0] {
        Field::Normal(f) => {
            assert!(f.repeated());
            assert!(!f.optional());
        }
        other => panic!("not a normal field: {:?}", other),
    }
    let p = parse_one_message("message M { optional string s = 2; }");
    match &p.messages()[0].fields()[0] {
        Field::Normal(f) => {
            assert!(f.optional());
            assert!(!f.repeated());
        }
        other => panic!("not a normal field: {:?}", other),
    }
}

#[test]
fn field_with_options() {
    let p = parse_one_message("message M { int32 a = 1 [deprecated = true, foo = 2]; }");
    match &p.messages()[0].fields()[0] {
        Field::Normal(f) => {
            assert_eq!(f.options().len(), 2);
            assert_eq!(f.options()[0].name().value(), "deprecated");
            assert_eq!(f.options()[1].name().value(), "foo");
        }
        other => panic!("not a normal field: {:?}", other),
    }
}

#[test]
fn nested_messages_and_enums() {
    let p = parse_one_message(
        "message Outer { message Inner { bool b = 1; } enum E { A = 0; B = 1; } Inner f = 2; }",
    );
    let m = &p.messages()[0];
    assert_eq!(m.messages().len(), 1);
    assert_eq!(m.messages()[0].name().value(), "Inner");
    assert_eq!(m.enums().len(), 1);
    let e = &m.enums()[0];
    assert_eq!(e.name().value(), "E");
    assert_eq!(e.fields().len(), 2);
    assert_eq!(e.fields()[0].name().value(), "A");
    assert_eq!(e.fields()[0].number(), 0);
    assert_eq!(e.fields()[1].name().value(), "B");
    assert_eq!(e.fields()[1].number(), 1);
    match &m.fields()[0] {
        Field::Normal(f) => match f.ty() {
            Type::Reference(name) => assert_eq!(name.as_str(), "Inner"),
            other => panic!("not a reference: {:?}", other),
        },
        other => panic!("not a normal field: {:?}", other),
    }
}

#[test]
fn enum_with_negative_value_and_reserved() {
    let p = Proto3
        .parse_body("enum E { UNKNOWN = 0; LOW = -1; reserved 4, 5; }")
        .expect("parse failed");
    assert_eq!(p.enums().len(), 1);
    let e = &p.enums()[0];
    assert_eq!(e.fields()[1].number(), -1);
    assert_eq!(
        e.reserved()[0].items().as_slice(),
        &[ReservedData::Range(4, 4), ReservedData::Range(5, 5)]
    );
}

#[test]
fn package_import_and_option() {
    let p = Proto3
        .parse_body(
            "package com.example.app; import public \"other.proto\"; import weak \"w.proto\"; \
             import \"p.proto\"; option java_package = \"com.example\";",
        )
        .expect("parse failed");
    assert_eq!(p.package().value(), "com.example.app");
    assert_eq!(p.imports().len(), 3);
    assert!(p.imports()[0].public());
    assert!(!p.imports()[0].weak());
    assert_eq!(p.imports()[0].value(), "other.proto");
    assert!(p.imports()[1].weak());
    assert_eq!(p.imports()[2].value(), "p.proto");
    assert!(!p.imports()[2].weak() && !p.imports()[2].public());
    assert_eq!(p.options().len(), 1);
    assert_eq!(p.options()[0].name().value(), "java_package");
}

#[test]
fn extension_style_option_name() {
    let p = Proto3
        .parse_body("option (my.custom.opt) = 1;")
        .expect("parse failed");
    assert_eq!(p.options()[0].name().value(), "my.custom.opt");
}

#[test]
fn relative_type_reference() {
    let p = parse_one_message("message M { .foo.Bar f = 1; }");
    match &p.messages()[0].fields()[0] {
        Field::Normal(f) => match f.ty() {
            Type::Reference(name) => assert_eq!(name.as_str(), ".foo.Bar"),
            other => panic!("not a reference: {:?}", other),
        },
        other => panic!("not a normal field: {:?}", other),
    }
}

#[test]
fn comments_attach_to_enclosing_construct() {
    let p = parse_one_message("message M { // doc\n int32 a = 1; }");
    let m = &p.messages()[0];
    assert_eq!(m.comments().len(), 1);
    assert_eq!(m.comments()[0].value(), " doc");
}

#[test]
fn block_comment_body() {
    let p = parse_one_message("message M { /* multi\nline */ int32 a = 1; }");
    assert_eq!(p.messages()[0].comments()[0].value(), " multi\nline ");
}

#[test]
fn empty_statements_are_skipped() {
    let p = Proto3
        .parse_body(";; message M { ; int32 a = 1; ; } ;")
        .expect("parse failed");
    assert_eq!(p.messages().len(), 1);
}

#[test]
fn unexpected_token_is_an_error() {
    let r = Proto3.parse_body("message M { = }");
    assert!(matches!(r, Err(Error::UnexpectedToken { .. })));
}

#[test]
fn missing_semicolon_is_an_error() {
    let r = Proto3.parse_body("message M { int32 a = 1 }");
    assert!(matches!(r, Err(Error::UnexpectedToken { .. })));
}

#[test]
fn builder_reports_missing_required_fields() {
    let r = ProtoOptionBuilder::new().build();
    assert_eq!(
        r.unwrap_err(),
        Error::MissingRequiredField(
            NodeKind::ProtoOption,
            vec![RequiredField::Name, RequiredField::Value]
        )
    );
    let r = MessageBuilder::new().build();
    assert_eq!(
        r.unwrap_err(),
        Error::MissingRequiredField(NodeKind::Message, vec![RequiredField::Name])
    );
}

#[test]
fn builder_last_write_wins() {
    let mut b = ProtoOptionBuilder::new();
    b.set_name(harpi::model::Ident::new(false, String::from("first")));
    b.set_name(harpi::model::Ident::new(false, String::from("second")));
    b.set_value(harpi::model::Constant::Bool(true));
    let o = b.build().expect("build failed");
    assert_eq!(o.name().value(), "second");
}

#[test]
fn map_key_must_be_integral_bool_or_string() {
    let r = Proto3.parse_body("message M { map<float, int32> m = 1; }");
    assert!(matches!(r, Err(Error::UnexpectedToken { .. })));
    let r = Proto3.parse_body("message M { map<bytes, int32> m = 1; }");
    assert!(matches!(r, Err(Error::UnexpectedToken { .. })));
}

#[test]
fn dotted_message_name_is_rejected() {
    let r = Proto3.parse_body("message a.b {}");
    assert!(matches!(r, Err(Error::UnexpectedToken { .. })));
}

#[test]
fn unterminated_block_comment_fails() {
    let r = Proto3.parse_body("message M {} /* never closed");
    assert!(matches!(r, Err(Error::Syntax { .. })));
}

#[test]
fn hex_literal_needs_digits() {
    let r = Proto3.parse_body("option a = 0x;");
    assert!(matches!(r, Err(Error::Syntax { .. })));
}

#[test]
fn reserved_range_needs_a_bound_after_to() {
    let r = Proto3.parse_body("message M { reserved 5 to ; }");
    assert!(matches!(r, Err(Error::UnexpectedToken { .. })));
}

#[test]
fn empty_input_parses_to_empty_body() {
    let p = Proto3.parse_body("").expect("parse failed");
    assert_eq!(p.messages().len(), 0);
    assert_eq!(p.syntax().value(), "");
}
