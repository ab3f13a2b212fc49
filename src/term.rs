//! Terms as callers hand them in, and the canonical quad that a store holds.

use vstd::prelude::*;

verus! {

/// What a node denotes, whichever position of a statement it stands in.
pub enum NodeView {
    Iri(Seq<char>),
    Blank(Seq<char>),
    LangLiteral(Seq<char>, Seq<char>),
    TypedLiteral(Seq<char>, Seq<char>),
    DefaultGraph,
}

/// What a stored quad denotes.
pub struct QuadView {
    pub subject: NodeView,
    pub predicate: Seq<char>,
    pub object: NodeView,
    pub graph: NodeView,
}

/// What a triple denotes.
pub struct TripleView {
    pub subject: NodeView,
    pub predicate: Seq<char>,
    pub object: NodeView,
}

/// An IRI held as one contiguous string.
#[derive(Clone, Debug, PartialEq, Eq, Hash)]
pub struct NamedNode {
    pub iri: String,
}

impl View for NamedNode {
    type V = Seq<char>;

    open spec fn view(&self) -> Seq<char> {
        self.iri@
    }
}

impl NamedNode {
    pub fn new(iri: String) -> (r: NamedNode)
        ensures
            r@ == iri@,
    {
        NamedNode { iri }
    }

    pub fn duplicate(&self) -> (r: NamedNode)
        ensures
            r@ == self@,
    {
        NamedNode { iri: self.iri.clone() }
    }

    pub fn same(&self, other: &NamedNode) -> (r: bool)
        ensures
            r == (self@ == other@),
    {
        self.iri == other.iri
    }
}

/// A blank node, identified by a label that is local to one store.
#[derive(Clone, Debug, PartialEq, Eq, Hash)]
pub struct BlankNode {
    pub id: String,
}

impl View for BlankNode {
    type V = Seq<char>;

    open spec fn view(&self) -> Seq<char> {
        self.id@
    }
}

impl BlankNode {
    pub fn duplicate(&self) -> (r: BlankNode)
        ensures
            r@ == self@,
    {
        BlankNode { id: self.id.clone() }
    }
}

/// A node that may stand as a subject.
#[derive(Clone, Debug, PartialEq, Eq, Hash)]
pub enum NamedOrBlankNode {
    NamedNode(NamedNode),
    BlankNode(BlankNode),
}

impl View for NamedOrBlankNode {
    type V = NodeView;

    open spec fn view(&self) -> NodeView {
        match self {
            NamedOrBlankNode::NamedNode(n) => NodeView::Iri(n@),
            NamedOrBlankNode::BlankNode(b) => NodeView::Blank(b@),
        }
    }
}

impl NamedOrBlankNode {
    pub fn duplicate(&self) -> (r: NamedOrBlankNode)
        ensures
            r@ == self@,
    {
        match self {
            NamedOrBlankNode::NamedNode(n) => NamedOrBlankNode::NamedNode(n.duplicate()),
            NamedOrBlankNode::BlankNode(b) => NamedOrBlankNode::BlankNode(b.duplicate()),
        }
    }

    pub fn same(&self, other: &NamedOrBlankNode) -> (r: bool)
        ensures
            r == (self@ == other@),
    {
        match (self, other) {
            (NamedOrBlankNode::NamedNode(a), NamedOrBlankNode::NamedNode(b)) => a.iri == b.iri,
            (NamedOrBlankNode::BlankNode(a), NamedOrBlankNode::BlankNode(b)) => a.id == b.id,
            _ => false,
        }
    }
}

/// A literal: a lexical value with either a language tag or a datatype.
#[derive(Clone, Debug, PartialEq, Eq, Hash)]
pub enum Literal {
    LanguageTagged { value: String, language: String },
    Typed { value: String, datatype: NamedNode },
}

impl View for Literal {
    type V = NodeView;

    open spec fn view(&self) -> NodeView {
        match self {
            Literal::LanguageTagged { value, language } => NodeView::LangLiteral(value@, language@),
            Literal::Typed { value, datatype } => NodeView::TypedLiteral(value@, datatype@),
        }
    }
}

impl Literal {
    pub fn same(&self, other: &Literal) -> (r: bool)
        ensures
            r == (self@ == other@),
    {
        match (self, other) {
            (
                Literal::LanguageTagged { value: v1, language: l1 },
                Literal::LanguageTagged { value: v2, language: l2 },
            ) => *v1 == *v2 && *l1 == *l2,
            (Literal::Typed { value: v1, datatype: d1 }, Literal::Typed { value: v2, datatype: d2 }) => *v1
                == *v2 && d1.same(d2),
            _ => false,
        }
    }

    pub fn duplicate(&self) -> (r: Literal)
        ensures
            r@ == self@,
    {
        match self {
            Literal::LanguageTagged { value, language } => Literal::LanguageTagged {
                value: value.clone(),
                language: language.clone(),
            },
            Literal::Typed { value, datatype } => Literal::Typed {
                value: value.clone(),
                datatype: datatype.duplicate(),
            },
        }
    }
}

/// A node that may stand as an object.
#[derive(Clone, Debug, PartialEq, Eq, Hash)]
pub enum Object {
    NamedNode(NamedNode),
    BlankNode(BlankNode),
    Literal(Literal),
}

impl View for Object {
    type V = NodeView;

    open spec fn view(&self) -> NodeView {
        match self {
            Object::NamedNode(n) => NodeView::Iri(n@),
            Object::BlankNode(b) => NodeView::Blank(b@),
            Object::Literal(l) => l@,
        }
    }
}

impl Object {
    pub fn same(&self, other: &Object) -> (r: bool)
        ensures
            r == (self@ == other@),
    {
        match (self, other) {
            (Object::NamedNode(a), Object::NamedNode(b)) => a.same(b),
            (Object::BlankNode(a), Object::BlankNode(b)) => a.id == b.id,
            (Object::Literal(a), Object::Literal(b)) => a.same(b),
            _ => false,
        }
    }

    pub fn duplicate(&self) -> (r: Object)
        ensures
            r@ == self@,
    {
        match self {
            Object::NamedNode(n) => Object::NamedNode(n.duplicate()),
            Object::BlankNode(b) => Object::BlankNode(b.duplicate()),
            Object::Literal(l) => Object::Literal(l.duplicate()),
        }
    }
}

/// The graph a quad belongs to: a named graph, or the default graph.
#[derive(Clone, Debug, PartialEq, Eq, Hash)]
pub enum GraphName {
    NamedNode(NamedNode),
    BlankNode(BlankNode),
    DefaultGraph,
}

impl View for GraphName {
    type V = NodeView;

    open spec fn view(&self) -> NodeView {
        match self {
            GraphName::NamedNode(n) => NodeView::Iri(n@),
            GraphName::BlankNode(b) => NodeView::Blank(b@),
            GraphName::DefaultGraph => NodeView::DefaultGraph,
        }
    }
}

impl GraphName {
    pub fn same(&self, other: &GraphName) -> (r: bool)
        ensures
            r == (self@ == other@),
    {
        match (self, other) {
            (GraphName::NamedNode(a), GraphName::NamedNode(b)) => a.same(b),
            (GraphName::BlankNode(a), GraphName::BlankNode(b)) => a.id == b.id,
            (GraphName::DefaultGraph, GraphName::DefaultGraph) => true,
            _ => false,
        }
    }

    pub fn duplicate(&self) -> (r: GraphName)
        ensures
            r@ == self@,
    {
        match self {
            GraphName::NamedNode(n) => GraphName::NamedNode(n.duplicate()),
            GraphName::BlankNode(b) => GraphName::BlankNode(b.duplicate()),
            GraphName::DefaultGraph => GraphName::DefaultGraph,
        }
    }
}

/// A statement in a graph. Each position holds only the kinds of node it admits.
#[derive(Clone, Debug, PartialEq, Eq, Hash)]
pub struct Quad {
    pub subject: NamedOrBlankNode,
    pub predicate: NamedNode,
    pub object: Object,
    pub graph_name: GraphName,
}

impl View for Quad {
    type V = QuadView;

    open spec fn view(&self) -> QuadView {
        QuadView {
            subject: self.subject@,
            predicate: self.predicate@,
            object: self.object@,
            graph: self.graph_name@,
        }
    }
}

impl Quad {
    pub fn new(
        subject: NamedOrBlankNode,
        predicate: NamedNode,
        object: Object,
        graph_name: GraphName,
    ) -> (r: Quad)
        ensures
            r.subject == subject,
            r.predicate == predicate,
            r.object == object,
            r.graph_name == graph_name,
    {
        Quad { subject, predicate, object, graph_name }
    }

    pub fn same(&self, other: &Quad) -> (r: bool)
        ensures
            r == (self@ == other@),
    {
        self.subject.same(&other.subject) && self.predicate.same(&other.predicate)
            && self.object.same(&other.object) && self.graph_name.same(&other.graph_name)
    }

    pub fn duplicate(&self) -> (r: Quad)
        ensures
            r@ == self@,
    {
        Quad {
            subject: self.subject.duplicate(),
            predicate: self.predicate.duplicate(),
            object: self.object.duplicate(),
            graph_name: self.graph_name.duplicate(),
        }
    }
}

/// A statement without a graph.
#[derive(Clone, Debug, PartialEq, Eq, Hash)]
pub struct Triple {
    pub subject: NamedOrBlankNode,
    pub predicate: NamedNode,
    pub object: Object,
}

impl View for Triple {
    type V = TripleView;

    open spec fn view(&self) -> TripleView {
        TripleView { subject: self.subject@, predicate: self.predicate@, object: self.object@ }
    }
}

/// The quad that places triple `t` in graph `g`.
pub open spec fn in_graph(t: TripleView, g: NodeView) -> QuadView {
    QuadView { subject: t.subject, predicate: t.predicate, object: t.object, graph: g }
}

impl Triple {
    pub fn new(subject: NamedOrBlankNode, predicate: NamedNode, object: Object) -> (r: Triple)
        ensures
            r.subject == subject,
            r.predicate == predicate,
            r.object == object,
    {
        Triple { subject, predicate, object }
    }

    /// The quad that places this triple in `graph_name`.
    pub fn in_graph(&self, graph_name: &GraphName) -> (r: Quad)
        ensures
            r@ == in_graph(self@, graph_name@),
    {
        Quad {
            subject: self.subject.duplicate(),
            predicate: self.predicate.duplicate(),
            object: self.object.duplicate(),
            graph_name: graph_name.duplicate(),
        }
    }
}

/// The triple of a quad, without its graph.
pub open spec fn triple_of(q: QuadView) -> TripleView {
    TripleView { subject: q.subject, predicate: q.predicate, object: q.object }
}

impl Quad {
    pub fn to_triple(&self) -> (r: Triple)
        ensures
            r@ == triple_of(self@),
    {
        Triple {
            subject: self.subject.duplicate(),
            predicate: self.predicate.duplicate(),
            object: self.object.duplicate(),
        }
    }
}

} // verus!
