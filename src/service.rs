//! The operations behind the listing, registration and reading of graphs.

use crate::graph::{GraphData, GraphList, GraphType, KnownGraphType};
use crate::model::Transact;
use crate::meta::{meta_graph_iri, meta_ontology_iri, metadata_entry};
use crate::storage::{
    accounted_graph_list, graph_triples, holds_triple, load_triples_into_new_graph, node_id,
    node_to_string, placed, reports, triple_views,
};
use crate::term::{triple_of, NamedNode, NamedOrBlankNode, NodeView, QuadView, Triple};
use vstd::prelude::*;

verus! {

/// The entries of `ds` whose category is `g`, in order.
pub open spec fn of_type(ds: Seq<GraphData>, g: GraphType) -> Seq<GraphData> {
    ds.filter(|d: GraphData| d.graph_type == g)
}

/// Keeps the entries of category `graph_type` when it names a known category;
/// keeps every entry otherwise.
pub fn graphs_of_type(list: &GraphList, graph_type: Option<GraphType>) -> (r: GraphList)
    ensures
        r.context == list.context,
        match graph_type {
            Some(g) if g != GraphType::Unknown => r.graphs@ == of_type(list.graphs@, g),
            _ => r.graphs@ == list.graphs@,
        },
{
    let known = match graph_type {
        Some(g) => KnownGraphType::new(g),
        None => KnownGraphType::Unknown,
    };
    let mut graphs: Vec<GraphData> = Vec::new();
    let mut i: usize = 0;
    while i < list.graphs.len()
        invariant
            i <= list.graphs.len(),
            match known {
                KnownGraphType::Known(g) => graphs@ == of_type(list.graphs@.subrange(0, i as int), g),
                KnownGraphType::Unknown => graphs@ == list.graphs@.subrange(0, i as int),
            },
        decreases list.graphs.len() - i,
    {
        let ghost next = list.graphs@.subrange(0, i + 1);
        assert(next.drop_last() =~= list.graphs@.subrange(0, i as int));
        assert(next.last() == list.graphs@[i as int]);
        reveal(Seq::filter);
        let keep = match known {
            KnownGraphType::Known(g) => list.graphs[i].graph_type == g,
            KnownGraphType::Unknown => true,
        };
        if keep {
            graphs.push(list.graphs[i].duplicate());
        }
        i = i + 1;
    }
    assert(list.graphs@.subrange(0, list.graphs.len() as int) =~= list.graphs@);
    GraphList { context: list.context.clone(), graphs }
}

/// The registered graphs, kept to category `graph_type` when it names a known
/// category.
pub fn graphs<S: Transact>(store: &S, graph_type: Option<GraphType>) -> (r: GraphList)
    ensures
        exists|all: GraphList|
            #[trigger] reports(store.quads(), all) && r.context == all.context && match graph_type {
                Some(g) if g != GraphType::Unknown => r.graphs@ == of_type(all.graphs@, g),
                _ => r.graphs@ == all.graphs@,
            },
{
    let all = accounted_graph_list(store);
    graphs_of_type(&all, graph_type)
}

/// Why a graph cannot be registered.
#[derive(Clone, Copy, Debug, PartialEq, Eq, Structural)]
pub enum NewGraphError {
    /// A graph of that IRI is registered already.
    AlreadyExists,
    /// The IRI names one of the reserved graphs.
    Untouchable,
}

/// Whether `list` holds an entry with identifier `id`.
pub open spec fn has_entry(list: GraphList, id: Seq<char>) -> bool {
    exists|i: int| 0 <= i < list.graphs.len() && (#[trigger] list.graphs[i]).id@ == id
}

/// Whether graph `iri` may be registered, given the registered graphs `list`.
pub open spec fn new_graph_check(list: GraphList, iri: Seq<char>) -> Result<(), NewGraphError> {
    if has_entry(list, node_id(NodeView::Iri(iri))) {
        Err(NewGraphError::AlreadyExists)
    } else if iri == meta_graph_iri() || iri == meta_ontology_iri() {
        Err(NewGraphError::Untouchable)
    } else {
        Ok(())
    }
}

/// Refuses a graph that is registered already or that is one of the reserved
/// graphs.
pub fn check_new_graph(existing: &GraphList, graph_uri: &NamedNode) -> (r: Result<(), NewGraphError>)
    ensures
        r == new_graph_check(*existing, graph_uri@),
{
    let id = node_to_string(&NamedOrBlankNode::NamedNode(graph_uri.duplicate()));
    let mut i: usize = 0;
    while i < existing.graphs.len()
        invariant
            i <= existing.graphs.len(),
            id@ == node_id(NodeView::Iri(graph_uri@)),
            forall|k: int| 0 <= k < i ==> (#[trigger] existing.graphs[k]).id@ != id@,
        decreases existing.graphs.len() - i,
    {
        if existing.graphs[i].id == id {
            return Err(NewGraphError::AlreadyExists);
        }
        i = i + 1;
    }
    let meta_graph = "http://www.purl.org/dougli1sqrd/models/janus-oxide/Meta".to_owned();
    let meta_ontology = "http://www.purl.org/dougli1sqrd/models/janus-oxide/MetaOnt".to_owned();
    if graph_uri.iri == meta_graph || graph_uri.iri == meta_ontology {
        Err(NewGraphError::Untouchable)
    } else {
        Ok(())
    }
}

/// Registers graph `graph_uri` with category `graph_type` and writes `triples`
/// into it, unless the graph is registered already or is reserved. On success
/// it returns how many triples were given, and the store holds either all of
/// the registration or, when the transaction failed, none of it.
pub fn add_new_graph<S: Transact>(
    store: &mut S,
    graph_uri: NamedNode,
    graph_type: GraphType,
    triples: &Vec<Triple>,
) -> (r: Result<usize, NewGraphError>)
    ensures
        exists|listing: GraphList|
            #[trigger] reports(old(store).quads(), listing) && match new_graph_check(listing, graph_uri@) {
                Err(e) => r == Err::<usize, NewGraphError>(e) && final(store).quads() == old(
                    store,
                ).quads(),
                Ok(()) => r == Ok::<usize, NewGraphError>(triples.len()) && (final(store).quads()
                    == old(store).quads() || final(store).quads() == old(store).quads().insert(
                    metadata_entry(graph_uri@, graph_type),
                ).union(placed(triple_views(triples@), NodeView::Iri(graph_uri@)))),
            },
{
    let existing = accounted_graph_list(store);
    match check_new_graph(&existing, &graph_uri) {
        Err(e) => Err(e),
        Ok(()) => Ok(load_triples_into_new_graph(store, graph_uri, graph_type, triples)),
    }
}

/// The triples of graph `graph_uri` when it is registered; `None` otherwise.
pub fn get_graph<S: Transact>(store: &S, graph_uri: &NamedNode) -> (r: Option<Vec<Triple>>)
    ensures
        exists|listing: GraphList|
            #[trigger] reports(store.quads(), listing) && (r is Some <==> has_entry(
                listing,
                node_id(NodeView::Iri(graph_uri@)),
            )),
        r is Some ==> forall|i: int|
            0 <= i < r->Some_0.len() ==> holds_triple(
                store.quads(),
                NodeView::Iri(graph_uri@),
                #[trigger] r->Some_0[i]@,
            ),
        r is Some ==> forall|q: QuadView|
            #[trigger] store.quads().contains(q) && q.graph == NodeView::Iri(graph_uri@) ==> exists|
                i: int,
            | 0 <= i < r->Some_0.len() && (#[trigger] r->Some_0[i])@ == triple_of(q),
{
    let all = accounted_graph_list(store);
    let id = node_to_string(&NamedOrBlankNode::NamedNode(graph_uri.duplicate()));
    let mut i: usize = 0;
    while i < all.graphs.len()
        invariant
            i <= all.graphs.len(),
            id@ == node_id(NodeView::Iri(graph_uri@)),
            forall|k: int| 0 <= k < i ==> (#[trigger] all.graphs[k]).id@ != id@,
            reports(store.quads(), all),
        decreases all.graphs.len() - i,
    {
        if all.graphs[i].id == id {
            assert(has_entry(all, id@));
            let triples = graph_triples(store, graph_uri);
            let ghost tv = triples@;
            let r = Some(triples);
            assert forall|q: QuadView|
                #[trigger] store.quads().contains(q) && q.graph == NodeView::Iri(graph_uri@) implies exists|
                    k: int,
                | 0 <= k < r->Some_0.len() && (#[trigger] r->Some_0[k])@ == triple_of(q) by {
                let k = choose|k: int| 0 <= k < tv.len() && (#[trigger] tv[k])@ == triple_of(q);
                assert(r->Some_0[k] == tv[k]);
            }
            return r;
        }
        i = i + 1;
    }
    None
}

} // verus!
