//! Header sniffing, dialect dispatch, determinism, and the visitor
//! event stream.
use harpi::error::Error;
use harpi::model::Syntax;
use harpi::parse;
use harpi::parse_events;
use harpi::parse_header;
use harpi::parse_visit;
use harpi::parse_with_syntax;
use harpi::resolve_syntax;
use harpi::Node;
use harpi::ProtoVisitor;

#[test]
fn header_sniffs_syntax_and_body() {
    let input = "// leading\nsyntax = \"proto3\";\nmessage M {}";
    let (syn, body) = parse_header(input).expect("header parse failed");
    assert_eq!(syn.value(), "proto3");
    assert_eq!(syn.comments().len(), 1);
    assert_eq!(syn.comments()[0].value(), " leading");
    assert_eq!(body, "\nmessage M {}");
}

#[test]
fn header_without_syntax_fails() {
    let r = parse_header("message M {}");
    assert!(matches!(r, Err(Error::Syntax { .. })));
}

#[test]
fn registry_knows_proto3_only() {
    assert!(resolve_syntax("proto3").is_some());
    assert!(resolve_syntax("proto2").is_none());
    assert!(resolve_syntax("").is_none());
}

#[test]
fn dialect_mismatch_carries_both_names() {
    let expected = Syntax::new(String::from("proto2"), Vec::new());
    let r = parse_with_syntax("syntax = \"proto3\"; message M {}", &expected);
    assert_eq!(
        r.unwrap_err(),
        Error::InvalidSyntax(String::from("proto2"), String::from("proto3"))
    );
}

#[test]
fn matching_expected_dialect_parses() {
    let expected = Syntax::new(String::from("proto3"), Vec::new());
    let p = parse_with_syntax("syntax = \"proto3\"; message M {}", &expected)
        .expect("parse failed");
    assert_eq!(p.messages().len(), 1);
}

#[test]
fn unknown_dialect_is_reported_by_name() {
    let r = parse("syntax = \"proto4\"; message M {}");
    assert_eq!(r.unwrap_err(), Error::UndefinedParser(String::from("proto4")));
}

#[test]
fn parsing_twice_yields_identical_trees() {
    let input = "syntax = \"proto3\"; package a.b; import \"x.proto\"; \
                 message M { oneof o { int32 a = 1; } map<int64, string> m = 2; } \
                 enum E { Z = 0; } service S { rpc R(A) returns (B); }";
    let p1 = parse(input).expect("first parse failed");
    let p2 = parse(input).expect("second parse failed");
    assert_eq!(format!("{:?}", p1), format!("{:?}", p2));
}

#[test]
fn full_parse_requires_proto3_declaration() {
    let p3 = harpi::Proto3;
    assert_eq!(p3.syntax(), "proto3");
    let r = p3.parse("syntax = \"proto2\"; message M {}");
    assert_eq!(
        r.unwrap_err(),
        Error::InvalidSyntax(String::from("proto3"), String::from("proto2"))
    );
    let p = p3.parse("syntax = \"proto3\"; message M {}").expect("parse failed");
    assert_eq!(p.messages().len(), 1);
}

fn event_tag(n: &Node) -> &'static str {
    match n {
        Node::Start => "start",
        Node::Syntax(_) => "syntax",
        Node::Package(_) => "package",
        Node::Import(_) => "import",
        Node::Opt(_) => "option",
        Node::Message(_) => "message",
        Node::Service(_) => "service",
        Node::Enum(_) => "enum",
        Node::End => "end",
    }
}

#[test]
fn event_stream_lists_tree_entries_in_order() {
    let input = "syntax = \"proto3\"; package p; import \"a.proto\"; option o = 1; \
                 message M {} service S {} enum E { Z = 0; }";
    let evs = parse_events(input).expect("parse failed");
    let tags: Vec<&str> = evs.iter().map(event_tag).collect();
    assert_eq!(
        tags,
        vec![
            "start", "syntax", "package", "import", "option", "message", "service", "enum",
            "end"
        ]
    );
    match &evs[5] {
        Node::Message(m) => assert_eq!(m.name().value(), "M"),
        other => panic!("not a message event: {:?}", other),
    }
}

struct CollectingVisitor {
    tags: Vec<&'static str>,
}

impl ProtoVisitor for CollectingVisitor {
    fn on(&mut self, node: Node) {
        self.tags.push(event_tag(&node));
    }
}

#[test]
fn visitor_receives_events_in_source_order() {
    let mut v = CollectingVisitor { tags: Vec::new() };
    parse_visit("syntax = \"proto3\"; message M {}", &mut v).expect("parse failed");
    assert_eq!(v.tags, vec!["start", "syntax", "package", "message", "end"]);
}

#[test]
fn visitor_mode_fails_like_tree_mode() {
    let mut v = CollectingVisitor { tags: Vec::new() };
    let r = parse_visit("syntax = \"proto9\"; message M {}", &mut v);
    assert_eq!(r.unwrap_err(), Error::UndefinedParser(String::from("proto9")));
}

#[test]
fn empty_input_has_no_header() {
    let r = parse_header("");
    assert!(matches!(r, Err(Error::Syntax { .. })));
}

#[test]
fn header_comments_reach_the_tree() {
    let p = parse("// about this file\nsyntax = \"proto3\"; message M {}").expect("parse failed");
    assert_eq!(p.syntax().value(), "proto3");
    assert_eq!(p.syntax().comments().len(), 1);
    assert_eq!(p.syntax().comments()[0].value(), " about this file");
}

#[test]
fn single_quoted_syntax_string() {
    let p = parse("syntax = 'proto3'; message M {}").expect("parse failed");
    assert_eq!(p.syntax().value(), "proto3");
}
