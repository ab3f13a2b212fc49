//! Properties that relate several operations of the library.

use crate::dataset::{insert_post, remove_post, MutableDatasetError};
use crate::graph::{GraphList, GraphType};
use crate::meta::{meta_graph_iri, metadata_entry};
use crate::project::{graph_view, object_view, predicate_view, quad_view, subject_view, Term};
use crate::storage::{
    holds_triple, is_subject_node, lemma_reports_registered, listed, placed, registered, reports,
};
use crate::term::{in_graph, triple_of, NodeView, QuadView, TripleView};
use vstd::prelude::*;

verus! {

/// Inserting one well-formed quad twice: once the first insertion reports that
/// it stored the quad, the second reports no insertion, and the stored quads
/// after both equal those after the first.
pub proof fn lemma_insert_idempotent(
    s: Term,
    p: Term,
    o: Term,
    g: Option<Term>,
    before: Set<QuadView>,
    middle: Set<QuadView>,
    after: Set<QuadView>,
    first: Result<bool, MutableDatasetError>,
    second: Result<bool, MutableDatasetError>,
)
    requires
        quad_view(s, p, o, g) is Some,
        insert_post(quad_view(s, p, o, g), before, middle, first),
        insert_post(quad_view(s, p, o, g), middle, after, second),
        first == Ok::<bool, MutableDatasetError>(true),
    ensures
        middle == before.insert(quad_view(s, p, o, g)->Some_0),
        second != Ok::<bool, MutableDatasetError>(true),
        after == middle,
{
}

/// A term of a kind that its position does not admit projects to no quad, and
/// an insertion or removal of it reports `false` and leaves the store as it was.
pub proof fn lemma_projection_totality(
    s: Term,
    p: Term,
    o: Term,
    g: Option<Term>,
    before: Set<QuadView>,
    after: Set<QuadView>,
    r: Result<bool, MutableDatasetError>,
)
    ensures
        s is Literal || s is Variable ==> subject_view(s) is None,
        !(p is Iri) ==> predicate_view(p) is None,
        o is Variable ==> object_view(o) is None,
        g is Some && (g->Some_0 is Literal || g->Some_0 is Variable) ==> graph_view(g) is None,
        subject_view(s) is None || predicate_view(p) is None || object_view(o) is None
            || graph_view(g) is None ==> {
            &&& quad_view(s, p, o, g) is None
            &&& insert_post(quad_view(s, p, o, g), before, after, r) ==> r == Ok::<
                bool,
                MutableDatasetError,
            >(false) && after == before
            &&& remove_post(quad_view(s, p, o, g), before, after, r) ==> r == Ok::<
                bool,
                MutableDatasetError,
            >(false) && after == before
        },
{
}

/// Removing a quad of any graph but the metadata graph keeps every
/// registration: a listing taken afterwards still reports each graph that was
/// registered before.
pub proof fn lemma_remove_keeps_listing(
    s: Term,
    p: Term,
    o: Term,
    g: Option<Term>,
    before: Set<QuadView>,
    after: Set<QuadView>,
    r: Result<bool, MutableDatasetError>,
    listing: GraphList,
    graph: NodeView,
)
    requires
        remove_post(quad_view(s, p, o, g), before, after, r),
        quad_view(s, p, o, g) is Some ==> quad_view(s, p, o, g)->Some_0.graph != NodeView::Iri(
            meta_graph_iri(),
        ),
        forall|q: QuadView| #[trigger] after.contains(q) ==> is_subject_node(q.subject),
        is_subject_node(graph),
        registered(before, graph),
        reports(after, listing),
    ensures
        registered(after, graph),
        listed(listing, graph),
{
    let meta = NodeView::Iri(meta_graph_iri());
    let q = choose|q: QuadView| #[trigger] before.contains(q) && q.graph == meta && q.subject == graph;
    assert(after.contains(q));
    lemma_reports_registered(after, listing, graph);
}

proof fn lemma_placed_contains(ts: Seq<TripleView>, g: NodeView, q: QuadView)
    ensures
        placed(ts, g).contains(q) <==> exists|i: int| 0 <= i < ts.len() && q == in_graph(ts[i], g),
    decreases ts.len(),
{
    if ts.len() > 0 {
        let rest = ts.drop_last();
        lemma_placed_contains(rest, g, q);
        if exists|i: int| 0 <= i < rest.len() && q == in_graph(rest[i], g) {
            let i = choose|i: int| 0 <= i < rest.len() && q == in_graph(rest[i], g);
            assert(ts[i] == rest[i]);
        }
        if exists|i: int| 0 <= i < ts.len() && q == in_graph(ts[i], g) {
            let i = choose|i: int| 0 <= i < ts.len() && q == in_graph(ts[i], g);
            if i < rest.len() {
                assert(ts[i] == rest[i]);
            }
        }
    }
}

/// Loading triples into a graph that held none and reading that graph back
/// gives exactly the loaded triples: graph `graph` of the store after a
/// committed load of `ts` holds triple `t` if and only if `ts` contains it.
pub proof fn lemma_load_then_read(
    before: Set<QuadView>,
    after: Set<QuadView>,
    graph: Seq<char>,
    graph_type: GraphType,
    ts: Seq<TripleView>,
    t: TripleView,
)
    requires
        forall|q: QuadView| #[trigger] before.contains(q) ==> q.graph != NodeView::Iri(graph),
        graph != meta_graph_iri(),
        after == before.insert(metadata_entry(graph, graph_type)).union(
            placed(ts, NodeView::Iri(graph)),
        ),
    ensures
        holds_triple(after, NodeView::Iri(graph), t) <==> ts.contains(t),
{
    let g = NodeView::Iri(graph);
    if ts.contains(t) {
        let i = choose|i: int| 0 <= i < ts.len() && ts[i] == t;
        lemma_placed_contains(ts, g, in_graph(t, g));
        assert(after.contains(in_graph(t, g)));
        assert(triple_of(in_graph(t, g)) == t);
    }
    if holds_triple(after, g, t) {
        let q = choose|q: QuadView| #[trigger] after.contains(q) && q.graph == g && triple_of(q) == t;
        lemma_placed_contains(ts, g, q);
        let i = choose|i: int| 0 <= i < ts.len() && q == in_graph(ts[i], g);
        assert(ts[i] == t);
    }
}

} // verus!
