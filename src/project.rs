//! Projection of caller-supplied terms onto the positions of a canonical quad.
//!
//! A term whose kind a position does not admit (a literal as subject, a variable
//! anywhere) yields `None`: a mismatch is an expected outcome, never an error.

use crate::term::{BlankNode, GraphName, Literal, NamedNode, NamedOrBlankNode, NodeView, Object, Quad, QuadView};
use vstd::prelude::*;
use vstd::string::StringExecFns;

verus! {

/// An IRI in split form: a namespace and an optional suffix.
#[derive(Clone, Debug, PartialEq, Eq, Hash)]
pub struct Iri {
    pub ns: String,
    pub suffix: Option<String>,
}

/// The text of a split IRI: the namespace followed by the suffix, if any.
pub open spec fn iri_text(i: Iri) -> Seq<char> {
    match i.suffix {
        Some(s) => i.ns@ + s@,
        None => i.ns@,
    }
}

/// A term as a term source offers it, of any kind.
#[derive(Clone, Debug, PartialEq, Eq, Hash)]
pub enum Term {
    Iri(Iri),
    BlankNode(String),
    Literal { value: String, language: Option<String>, datatype: Option<Iri> },
    Variable(String),
}

/// The node a term denotes in subject position, if that position admits it.
pub open spec fn subject_view(t: Term) -> Option<NodeView> {
    match t {
        Term::Iri(i) => Some(NodeView::Iri(iri_text(i))),
        Term::BlankNode(b) => Some(NodeView::Blank(b@)),
        _ => None,
    }
}

/// The IRI a term denotes in predicate position, if that position admits it.
pub open spec fn predicate_view(t: Term) -> Option<Seq<char>> {
    match t {
        Term::Iri(i) => Some(iri_text(i)),
        _ => None,
    }
}

/// The literal a term denotes: a language tag wins over a datatype, and a
/// literal with neither cannot be projected.
pub open spec fn literal_view(
    value: Seq<char>,
    language: Option<String>,
    datatype: Option<Iri>,
) -> Option<NodeView> {
    match language {
        Some(l) => Some(NodeView::LangLiteral(value, l@)),
        None => match datatype {
            Some(d) => Some(NodeView::TypedLiteral(value, iri_text(d))),
            None => None,
        },
    }
}

/// The node a term denotes in object position, if that position admits it.
pub open spec fn object_view(t: Term) -> Option<NodeView> {
    match t {
        Term::Iri(i) => Some(NodeView::Iri(iri_text(i))),
        Term::BlankNode(b) => Some(NodeView::Blank(b@)),
        Term::Literal { value, language, datatype } => literal_view(value@, language, datatype),
        Term::Variable(_) => None,
    }
}

/// The graph an optional term denotes in graph position: no term is the
/// default graph.
pub open spec fn graph_view(g: Option<Term>) -> Option<NodeView> {
    match g {
        None => Some(NodeView::DefaultGraph),
        Some(Term::Iri(i)) => Some(NodeView::Iri(iri_text(i))),
        Some(Term::BlankNode(b)) => Some(NodeView::Blank(b@)),
        Some(_) => None,
    }
}

/// The term an optional reference points to.
pub open spec fn opt_term(g: Option<&Term>) -> Option<Term> {
    match g {
        Some(t) => Some(*t),
        None => None,
    }
}

/// The quad that four terms denote, if every position admits its term.
pub open spec fn quad_view(s: Term, p: Term, o: Term, g: Option<Term>) -> Option<QuadView> {
    if subject_view(s) is Some && predicate_view(p) is Some && object_view(o) is Some
        && graph_view(g) is Some {
        Some(
            QuadView {
                subject: subject_view(s)->Some_0,
                predicate: predicate_view(p)->Some_0,
                object: object_view(o)->Some_0,
                graph: graph_view(g)->Some_0,
            },
        )
    } else {
        None
    }
}

/// Joins a split IRI into one string; the suffix is appended only when present.
pub fn convert_iri_raw(ns: &str, suffix: Option<&str>) -> (r: NamedNode)
    ensures
        r@ == match suffix {
            Some(s) => ns@ + s@,
            None => ns@,
        },
{
    let mut iri = ns.to_owned();
    match suffix {
        Some(s) => iri.append(s),
        None => {},
    }
    NamedNode::new(iri)
}

pub fn convert_iri(iri: &Iri) -> (r: NamedNode)
    ensures
        r@ == iri_text(*iri),
{
    match &iri.suffix {
        Some(s) => convert_iri_raw(iri.ns.as_str(), Some(s.as_str())),
        None => convert_iri_raw(iri.ns.as_str(), None),
    }
}

pub fn convert_subject(term: &Term) -> (r: Option<NamedOrBlankNode>)
    ensures
        r is Some <==> subject_view(*term) is Some,
        r is Some ==> r->Some_0@ == subject_view(*term)->Some_0,
{
    match term {
        Term::Iri(i) => Some(NamedOrBlankNode::NamedNode(convert_iri(i))),
        Term::BlankNode(b) => Some(NamedOrBlankNode::BlankNode(BlankNode { id: b.clone() })),
        _ => None,
    }
}

pub fn convert_predicate(term: &Term) -> (r: Option<NamedNode>)
    ensures
        r is Some <==> predicate_view(*term) is Some,
        r is Some ==> r->Some_0@ == predicate_view(*term)->Some_0,
{
    match term {
        Term::Iri(i) => Some(convert_iri(i)),
        _ => None,
    }
}

pub fn convert_object(term: &Term) -> (r: Option<Object>)
    ensures
        r is Some <==> object_view(*term) is Some,
        r is Some ==> r->Some_0@ == object_view(*term)->Some_0,
{
    match term {
        Term::Iri(i) => Some(Object::NamedNode(convert_iri(i))),
        Term::BlankNode(b) => Some(Object::BlankNode(BlankNode { id: b.clone() })),
        Term::Literal { value, language, datatype } => match language {
            Some(tag) => Some(
                Object::Literal(
                    Literal::LanguageTagged { value: value.clone(), language: tag.clone() },
                ),
            ),
            None => match datatype {
                Some(d) => Some(
                    Object::Literal(Literal::Typed { value: value.clone(), datatype: convert_iri(d) }),
                ),
                None => None,
            },
        },
        Term::Variable(_) => None,
    }
}

pub fn convert_graph_name(graph_name: Option<&Term>) -> (r: Option<GraphName>)
    ensures
        r is Some <==> graph_view(opt_term(graph_name)) is Some,
        r is Some ==> r->Some_0@ == graph_view(opt_term(graph_name))->Some_0,
{
    match graph_name {
        None => Some(GraphName::DefaultGraph),
        Some(term) => match term {
            Term::Iri(i) => Some(GraphName::NamedNode(convert_iri(i))),
            Term::BlankNode(b) => Some(GraphName::BlankNode(BlankNode { id: b.clone() })),
            _ => None,
        },
    }
}

/// Projects four terms onto a quad, or `None` when some position does not admit
/// its term.
pub fn make_quad_from_spog(s: &Term, p: &Term, o: &Term, g: Option<&Term>) -> (r: Option<Quad>)
    ensures
        r is Some <==> quad_view(*s, *p, *o, opt_term(g)) is Some,
        r is Some ==> r->Some_0@ == quad_view(*s, *p, *o, opt_term(g))->Some_0,
{
    match convert_subject(s) {
        None => None,
        Some(ss) => match convert_predicate(p) {
            None => None,
            Some(pp) => match convert_object(o) {
                None => None,
                Some(oo) => match convert_graph_name(g) {
                    None => None,
                    Some(gg) => Some(Quad::new(ss, pp, oo, gg)),
                },
            },
        },
    }
}

} // verus!
