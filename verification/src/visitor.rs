//! The visitor interface: instead of a full tree, a parse can be
//! consumed as an ordered stream of top-level node events, bracketed
//! by `Start` and `End`.
use vstd::prelude::*;
use crate::model::{
    Enum, Import, Message, Package, Proto, ProtoOption, Service, SpecEnum, SpecImport,
    SpecMessage, SpecPackage, SpecProto, SpecProtoOption, SpecService, SpecSyntax, Syntax,
    spec_message_view,
};

verus! {

/// The model of a [`Node`].
pub enum SpecNode {
    Start,
    Syntax(SpecSyntax),
    Package(SpecPackage),
    Import(SpecImport),
    Opt(SpecProtoOption),
    Message(SpecMessage),
    Service(SpecService),
    Enum(SpecEnum),
    End,
}

/// One top-level event of a parse.
#[derive(Debug)]
pub enum Node {
    Start,
    Syntax(Syntax),
    Package(Package),
    Import(Import),
    Opt(ProtoOption),
    Message(Message),
    Service(Service),
    Enum(Enum),
    End,
}

impl View for Node {
    type V = SpecNode;

    open spec fn view(&self) -> SpecNode {
        match self {
            Node::Start => SpecNode::Start,
            Node::Syntax(x) => SpecNode::Syntax(x@),
            Node::Package(x) => SpecNode::Package(x@),
            Node::Import(x) => SpecNode::Import(x@),
            Node::Opt(x) => SpecNode::Opt(x@),
            Node::Message(x) => SpecNode::Message(spec_message_view(*x)),
            Node::Service(x) => SpecNode::Service(x@),
            Node::Enum(x) => SpecNode::Enum(x@),
            Node::End => SpecNode::End,
        }
    }
}

impl DeepView for Node {
    type V = SpecNode;

    open spec fn deep_view(&self) -> SpecNode {
        self.view()
    }
}

/// A sink for node events, called synchronously in source order.
/// Implementations are supplied by the caller; nothing is assumed of
/// them.
pub trait ProtoVisitor {
    fn on(&mut self, node: Node);
}

/// The event stream of a parsed root: `Start`, the syntax and package
/// declarations, then every import, option, message, service and enum
/// in source order, then `End`.
pub open spec fn sp_events(p: SpecProto) -> Seq<SpecNode> {
    seq![SpecNode::Start, SpecNode::Syntax(p.syntax), SpecNode::Package(p.package)]
        + p.imports.map_values(|x: SpecImport| SpecNode::Import(x)) + p.options.map_values(
        |x: SpecProtoOption| SpecNode::Opt(x),
    ) + p.messages.map_values(|x: SpecMessage| SpecNode::Message(x)) + p.services.map_values(
        |x: SpecService| SpecNode::Service(x),
    ) + p.enums.map_values(|x: SpecEnum| SpecNode::Enum(x)) + seq![SpecNode::End]
}

/// The event stream lists the tree's top-level entries element for
/// element: same contents, same order.
pub proof fn lemma_events_match_tree(p: SpecProto)
    ensures
        sp_events(p).len() == 4 + p.imports.len() + p.options.len() + p.messages.len()
            + p.services.len() + p.enums.len(),
        sp_events(p)[0] == SpecNode::Start,
        sp_events(p)[1] == SpecNode::Syntax(p.syntax),
        sp_events(p)[2] == SpecNode::Package(p.package),
        forall|k: int|
            0 <= k < p.imports.len() ==> sp_events(p)[3 + k] == SpecNode::Import(
                #[trigger] p.imports[k],
            ),
        forall|k: int|
            0 <= k < p.options.len() ==> sp_events(p)[3 + p.imports.len() + k]
                == SpecNode::Opt(#[trigger] p.options[k]),
        forall|k: int|
            0 <= k < p.messages.len() ==> sp_events(p)[3 + p.imports.len() + p.options.len()
                + k] == SpecNode::Message(#[trigger] p.messages[k]),
        forall|k: int|
            0 <= k < p.services.len() ==> sp_events(p)[3 + p.imports.len() + p.options.len()
                + p.messages.len() + k] == SpecNode::Service(#[trigger] p.services[k]),
        forall|k: int|
            0 <= k < p.enums.len() ==> sp_events(p)[3 + p.imports.len() + p.options.len()
                + p.messages.len() + p.services.len() + k] == SpecNode::Enum(
                #[trigger] p.enums[k],
            ),
        sp_events(p)[sp_events(p).len() - 1] == SpecNode::End,
{
}

fn events_imports(v: Vec<Import>, out: Vec<Node>) -> (r: Vec<Node>)
    ensures
        r.deep_view() == out.deep_view() + v.deep_view().map_values(
            |x: SpecImport| SpecNode::Import(x),
        ),
    decreases v@.len(),
{
    let mut v = v;
    let mut out = out;
    let ghost v0 = v.deep_view();
    let ghost out0 = out.deep_view();
    if v.len() == 0 {
        proof {
            assert(out0 + v0.map_values(|x: SpecImport| SpecNode::Import(x)) =~= out0);
        }
        return out;
    }
    let x = v.remove(0);
    out.push(Node::Import(x));
    proof {
        assert(v.deep_view() =~= v0.drop_first());
        assert(out.deep_view() =~= out0.push(SpecNode::Import(v0[0])));
        assert(out0.push(SpecNode::Import(v0[0])) + v0.drop_first().map_values(
            |x: SpecImport| SpecNode::Import(x),
        ) =~= out0 + v0.map_values(|x: SpecImport| SpecNode::Import(x)));
    }
    events_imports(v, out)
}

fn events_options(v: Vec<ProtoOption>, out: Vec<Node>) -> (r: Vec<Node>)
    ensures
        r.deep_view() == out.deep_view() + v.deep_view().map_values(
            |x: SpecProtoOption| SpecNode::Opt(x),
        ),
    decreases v@.len(),
{
    let mut v = v;
    let mut out = out;
    let ghost v0 = v.deep_view();
    let ghost out0 = out.deep_view();
    if v.len() == 0 {
        proof {
            assert(out0 + v0.map_values(|x: SpecProtoOption| SpecNode::Opt(x)) =~= out0);
        }
        return out;
    }
    let x = v.remove(0);
    out.push(Node::Opt(x));
    proof {
        assert(v.deep_view() =~= v0.drop_first());
        assert(out.deep_view() =~= out0.push(SpecNode::Opt(v0[0])));
        assert(out0.push(SpecNode::Opt(v0[0])) + v0.drop_first().map_values(
            |x: SpecProtoOption| SpecNode::Opt(x),
        ) =~= out0 + v0.map_values(|x: SpecProtoOption| SpecNode::Opt(x)));
    }
    events_options(v, out)
}

fn events_messages(v: Vec<Message>, out: Vec<Node>) -> (r: Vec<Node>)
    ensures
        r.deep_view() == out.deep_view() + crate::model::spec_messages_view(v@).map_values(
            |x: SpecMessage| SpecNode::Message(x),
        ),
    decreases v@.len(),
{
    let mut v = v;
    let mut out = out;
    let ghost v0 = v@;
    let ghost out0 = out.deep_view();
    proof {
        crate::model::lemma_messages_view_props(v0);
    }
    if v.len() == 0 {
        proof {
            assert(out0 + crate::model::spec_messages_view(v0).map_values(
                |x: SpecMessage| SpecNode::Message(x),
            ) =~= out0);
        }
        return out;
    }
    let x = v.remove(0);
    out.push(Node::Message(x));
    proof {
        assert(v@ =~= v0.drop_first());
        crate::model::lemma_messages_view_props(v@);
        assert(out.deep_view() =~= out0.push(SpecNode::Message(spec_message_view(v0[0]))));
        assert(out0.push(SpecNode::Message(spec_message_view(v0[0])))
            + crate::model::spec_messages_view(v0.drop_first()).map_values(
            |x: SpecMessage| SpecNode::Message(x),
        ) =~= out0 + crate::model::spec_messages_view(v0).map_values(
            |x: SpecMessage| SpecNode::Message(x),
        ));
    }
    events_messages(v, out)
}

fn events_services(v: Vec<Service>, out: Vec<Node>) -> (r: Vec<Node>)
    ensures
        r.deep_view() == out.deep_view() + v.deep_view().map_values(
            |x: SpecService| SpecNode::Service(x),
        ),
    decreases v@.len(),
{
    let mut v = v;
    let mut out = out;
    let ghost v0 = v.deep_view();
    let ghost out0 = out.deep_view();
    if v.len() == 0 {
        proof {
            assert(out0 + v0.map_values(|x: SpecService| SpecNode::Service(x)) =~= out0);
        }
        return out;
    }
    let x = v.remove(0);
    out.push(Node::Service(x));
    proof {
        assert(v.deep_view() =~= v0.drop_first());
        assert(out.deep_view() =~= out0.push(SpecNode::Service(v0[0])));
        assert(out0.push(SpecNode::Service(v0[0])) + v0.drop_first().map_values(
            |x: SpecService| SpecNode::Service(x),
        ) =~= out0 + v0.map_values(|x: SpecService| SpecNode::Service(x)));
    }
    events_services(v, out)
}

fn events_enums(v: Vec<Enum>, out: Vec<Node>) -> (r: Vec<Node>)
    ensures
        r.deep_view() == out.deep_view() + v.deep_view().map_values(
            |x: SpecEnum| SpecNode::Enum(x),
        ),
    decreases v@.len(),
{
    let mut v = v;
    let mut out = out;
    let ghost v0 = v.deep_view();
    let ghost out0 = out.deep_view();
    if v.len() == 0 {
        proof {
            assert(out0 + v0.map_values(|x: SpecEnum| SpecNode::Enum(x)) =~= out0);
        }
        return out;
    }
    let x = v.remove(0);
    out.push(Node::Enum(x));
    proof {
        assert(v.deep_view() =~= v0.drop_first());
        assert(out.deep_view() =~= out0.push(SpecNode::Enum(v0[0])));
        assert(out0.push(SpecNode::Enum(v0[0])) + v0.drop_first().map_values(
            |x: SpecEnum| SpecNode::Enum(x),
        ) =~= out0 + v0.map_values(|x: SpecEnum| SpecNode::Enum(x)));
    }
    events_enums(v, out)
}

/// Turns a parsed root into its event stream.
pub fn events_of(p: Proto) -> (r: Vec<Node>)
    ensures
        r.deep_view() == sp_events(p@),
{
    let ghost p0 = p@;
    let mut out: Vec<Node> = Vec::new();
    out.push(Node::Start);
    out.push(Node::Syntax(p.syntax));
    out.push(Node::Package(p.package));
    proof {
        assert(out.deep_view() =~= seq![
            SpecNode::Start,
            SpecNode::Syntax(p0.syntax),
            SpecNode::Package(p0.package),
        ]);
    }
    let out = events_imports(p.imports, out);
    let out = events_options(p.options, out);
    let out = events_messages(p.messages, out);
    let out = events_services(p.services, out);
    let mut out = events_enums(p.enums, out);
    out.push(Node::End);
    proof {
        assert(out.deep_view() =~= sp_events(p0));
    }
    out
}

} // verus!
