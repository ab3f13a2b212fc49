//! The reserved graphs and the controlled vocabulary of graph categories.

use crate::graph::GraphType;
use crate::term::{GraphName, NamedNode, NamedOrBlankNode, NodeView, Object, Quad, QuadView};
use vstd::prelude::*;

verus! {

/// The namespace of the vocabulary of graph categories.
pub open spec fn meta_ns() -> Seq<char> {
    "http://www.purl.org/dougli1sqrd/models/janus-oxide/Meta/"@
}

pub fn meta_ns_str() -> (r: &'static str)
    ensures
        r@ == meta_ns(),
{
    "http://www.purl.org/dougli1sqrd/models/janus-oxide/Meta/"
}

/// The IRI of the graph that records the registered graphs.
pub open spec fn meta_graph_iri() -> Seq<char> {
    "http://www.purl.org/dougli1sqrd/models/janus-oxide/Meta"@
}

/// The IRI of the graph that holds the vocabulary of graph categories.
pub open spec fn meta_ontology_iri() -> Seq<char> {
    "http://www.purl.org/dougli1sqrd/models/janus-oxide/MetaOnt"@
}

/// The IRI of `rdf:type`, the predicate that declares a graph's category.
pub open spec fn rdf_type_iri() -> Seq<char> {
    "http://www.w3.org/1999/02/22-rdf-syntax-ns#type"@
}

pub fn rdf_type() -> (r: NamedNode)
    ensures
        r@ == rdf_type_iri(),
{
    NamedNode::new("http://www.w3.org/1999/02/22-rdf-syntax-ns#type".to_owned())
}

pub fn meta_ontology_uri() -> (r: GraphName)
    ensures
        r@ == NodeView::Iri(meta_ontology_iri()),
{
    GraphName::NamedNode(
        NamedNode::new("http://www.purl.org/dougli1sqrd/models/janus-oxide/MetaOnt".to_owned()),
    )
}

pub fn meta_graph_uri() -> (r: GraphName)
    ensures
        r@ == NodeView::Iri(meta_graph_iri()),
{
    GraphName::NamedNode(
        NamedNode::new("http://www.purl.org/dougli1sqrd/models/janus-oxide/Meta".to_owned()),
    )
}

/// The metadata entry that registers graph `graph` with category `g`.
pub open spec fn metadata_entry(graph: Seq<char>, g: GraphType) -> QuadView {
    QuadView {
        subject: NodeView::Iri(graph),
        predicate: rdf_type_iri(),
        object: NodeView::Iri(g.uri_spec()),
        graph: NodeView::Iri(meta_graph_iri()),
    }
}

pub fn graph_metadata_entry(graph: NamedNode, graph_type: GraphType) -> (r: Quad)
    ensures
        r@ == metadata_entry(graph@, graph_type),
{
    Quad::new(
        NamedOrBlankNode::NamedNode(graph),
        rdf_type(),
        Object::NamedNode(graph_type.uri()),
        meta_graph_uri(),
    )
}

} // verus!
