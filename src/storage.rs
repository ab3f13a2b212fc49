//! The index of registered graphs, and the operations that register a graph
//! together with its triples.

use crate::graph::{GraphData, GraphList, GraphType};
use crate::meta::{
    graph_metadata_entry, meta_graph_iri, meta_graph_uri, meta_ontology_iri, meta_ontology_uri,
    metadata_entry, rdf_type, rdf_type_iri,
};
use crate::model::{Transact, Transaction, TransactionOpError};
use crate::project::convert_iri_raw;
use crate::term::{
    in_graph, triple_of, GraphName, NamedNode, NamedOrBlankNode, NodeView, Object, Quad, QuadView,
    Triple, TripleView,
};
use vstd::prelude::*;
use vstd::string::StringExecFns;

verus! {

/// The views of a sequence of quads.
pub open spec fn quad_views(v: Seq<Quad>) -> Seq<QuadView> {
    v.map_values(|q: Quad| q@)
}

/// The views of a sequence of predicate/object pairs.
pub open spec fn pair_views(v: Seq<(NamedNode, Object)>) -> Seq<(Seq<char>, NodeView)> {
    v.map_values(|p: (NamedNode, Object)| (p.0@, p.1@))
}

/// The predicate/object pairs of the quads of `qs` whose subject is `s`, in order.
pub open spec fn pairs_of(qs: Seq<QuadView>, s: NodeView) -> Seq<(Seq<char>, NodeView)>
    decreases qs.len(),
{
    if qs.len() == 0 {
        Seq::empty()
    } else {
        let rest = pairs_of(qs.drop_last(), s);
        if qs.last().subject == s {
            rest.push((qs.last().predicate, qs.last().object))
        } else {
            rest
        }
    }
}

/// Whether some quad of `qs` has subject `s`.
#[verifier::opaque]
pub open spec fn has_subject(qs: Seq<QuadView>, s: NodeView) -> bool {
    exists|k: int| 0 <= k < qs.len() && (#[trigger] qs[k]).subject == s
}

/// The quads of one subject: the subject, and its predicate/object pairs.
pub struct SubjectGroup {
    pub subject: NamedOrBlankNode,
    pub pairs: Vec<(NamedNode, Object)>,
}

/// Groups quads by subject: one group per distinct subject, holding that
/// subject's predicate/object pairs in the order the quads came.
pub fn map_by_subject(quads: &Vec<Quad>) -> (r: Vec<SubjectGroup>)
    ensures
        forall|j: int, k: int|
            0 <= j < k < r.len() ==> (#[trigger] r[j]).subject@ != (#[trigger] r[k]).subject@,
        forall|j: int|
            0 <= j < r.len() ==> pair_views((#[trigger] r[j]).pairs@) == pairs_of(
                quad_views(quads@),
                r[j].subject@,
            ),
        forall|j: int| 0 <= j < r.len() ==> has_subject(quad_views(quads@), (#[trigger] r[j]).subject@),
        forall|k: int|
            0 <= k < quads.len() ==> exists|j: int|
                0 <= j < r.len() && (#[trigger] r[j]).subject@ == (#[trigger] quads[k]).subject@,
{
    reveal(has_subject);
    let ghost qs = quad_views(quads@);
    let mut groups: Vec<SubjectGroup> = Vec::new();
    let mut i: usize = 0;
    while i < quads.len()
        invariant
            i <= quads.len(),
            qs == quad_views(quads@),
            forall|j: int, k: int|
                0 <= j < k < groups.len() ==> (#[trigger] groups[j]).subject@
                    != (#[trigger] groups[k]).subject@,
            forall|j: int|
                0 <= j < groups.len() ==> pair_views((#[trigger] groups[j]).pairs@) == pairs_of(
                    qs.subrange(0, i as int),
                    groups[j].subject@,
                ),
            forall|j: int|
                0 <= j < groups.len() ==> has_subject(
                    qs.subrange(0, i as int),
                    (#[trigger] groups[j]).subject@,
                ),
            forall|k: int|
                0 <= k < i ==> exists|j: int|
                    0 <= j < groups.len() && (#[trigger] groups[j]).subject@
                        == (#[trigger] quads[k]).subject@,
        decreases quads.len() - i,
    {
        let ghost prefix = qs.subrange(0, i as int);
        let ghost next = qs.subrange(0, i + 1);
        assert(next.drop_last() == prefix);
        assert(next.last() == quads[i as int]@);
        let quad = &quads[i];
        let found = find_group(&groups, &quad.subject);
        let ghost old_groups = groups@;
        let pair = (quad.predicate.duplicate(), quad.object.duplicate());
        if found < groups.len() {
            let mut group = SubjectGroup { subject: quad.subject.duplicate(), pairs: Vec::new() };
            groups.set_and_swap(found, &mut group);
            group.pairs.push(pair);
            groups.set_and_swap(found, &mut group);
            assert(pair_views(groups[found as int].pairs@) =~= pair_views(
                old_groups[found as int].pairs@,
            ).push((quad.predicate@, quad.object@)));
        } else {
            let mut pairs = Vec::new();
            pairs.push(pair);
            let ghost before_len = groups.len();
            groups.push(SubjectGroup { subject: quad.subject.duplicate(), pairs });
            assert(forall|m: int| 0 <= m < before_len ==> groups[m] == old_groups[m]);
            assert(!has_subject(prefix, quad.subject@)) by {
                reveal(has_subject);
                if has_subject(prefix, quad.subject@) {
                    let k = choose|k: int| 0 <= k < prefix.len() && (#[trigger] prefix[k]).subject == quad.subject@;
                    assert(prefix[k] == quads[k]@);
                    assert(exists|j: int| 0 <= j < old_groups.len() && (#[trigger] old_groups[j]).subject@ == quads[k].subject@);
                }
            }
            proof {
                lemma_pairs_of_absent(prefix, quad.subject@);
            }
            assert(pair_views(groups[before_len as int].pairs@) =~= seq![
                (quad.predicate@, quad.object@),
            ]);
        }
        assert forall|m: int| 0 <= m < old_groups.len() implies (#[trigger] groups[m]).subject@
            == old_groups[m].subject@ by {}
        assert forall|k: int| 0 <= k < i + 1 implies exists|j: int|
            0 <= j < groups.len() && (#[trigger] groups[j]).subject@ == (#[trigger] quads[k]).subject@ by {
            if k == i {
                if found < old_groups.len() {
                    assert(groups[found as int].subject@ == quads[k].subject@);
                } else {
                    assert(groups[old_groups.len() as int].subject@ == quads[k].subject@);
                }
            } else {
                let j = choose|j: int| 0 <= j < old_groups.len() && (#[trigger] old_groups[j]).subject@ == quads[k].subject@;
                assert(groups[j].subject@ == quads[k].subject@);
            }
        }
        assert forall|m: int| 0 <= m < groups.len() implies has_subject(
            next,
            (#[trigger] groups[m]).subject@,
        ) by {
            reveal(has_subject);
            if groups[m].subject@ == quad.subject@ {
                assert(next[i as int].subject == quad.subject@);
            } else {
                assert(has_subject(prefix, old_groups[m].subject@));
                let k = choose|k: int| 0 <= k < prefix.len() && (#[trigger] prefix[k]).subject == old_groups[m].subject@;
                assert(next[k] == prefix[k]);
            }
        }
        i = i + 1;
    }
    assert(qs.subrange(0, quads.len() as int) == qs);
    groups
}

/// The index of the group of subject `s`, or the number of groups if none has it.
fn find_group(groups: &Vec<SubjectGroup>, s: &NamedOrBlankNode) -> (r: usize)
    ensures
        r <= groups.len(),
        r < groups.len() ==> groups[r as int].subject@ == s@,
        r == groups.len() ==> forall|m: int| 0 <= m < groups.len() ==> (#[trigger] groups[m]).subject@ != s@,
{
    let mut j: usize = 0;
    while j < groups.len()
        invariant
            j <= groups.len(),
            forall|m: int| 0 <= m < j ==> (#[trigger] groups[m]).subject@ != s@,
        decreases groups.len() - j,
    {
        if groups[j].subject.same(s) {
            return j;
        }
        j = j + 1;
    }
    j
}

proof fn lemma_pairs_of_absent(qs: Seq<QuadView>, s: NodeView)
    requires
        !has_subject(qs, s),
    ensures
        pairs_of(qs, s) == Seq::<(Seq<char>, NodeView)>::empty(),
    decreases qs.len(),
{
    reveal(has_subject);
    if qs.len() > 0 {
        let rest = qs.drop_last();
        assert forall|k: int| 0 <= k < rest.len() implies (#[trigger] rest[k]).subject != s by {
            assert(rest[k] == qs[k]);
        }
        lemma_pairs_of_absent(rest, s);
        assert(qs[qs.len() - 1].subject != s);
    }
}

/// The category that a subject's pairs declare: found through the first
/// `rdf:type` pair, whose object must be an IRI; `Unknown` otherwise.
pub open spec fn declared_type(ps: Seq<(Seq<char>, NodeView)>) -> GraphType
    decreases ps.len(),
{
    if ps.len() == 0 {
        GraphType::Unknown
    } else if ps[0].0 == rdf_type_iri() {
        match ps[0].1 {
            NodeView::Iri(o) => GraphType::from_uri_spec(o),
            _ => GraphType::Unknown,
        }
    } else {
        declared_type(ps.drop_first())
    }
}

fn find_declared_type(pairs: &Vec<(NamedNode, Object)>) -> (r: GraphType)
    ensures
        r == declared_type(pair_views(pairs@)),
{
    let ghost pv = pair_views(pairs@);
    let rdf = rdf_type();
    let mut i: usize = 0;
    assert(pv.subrange(0, pv.len() as int) =~= pv);
    while i < pairs.len()
        invariant
            i <= pairs.len(),
            pv == pair_views(pairs@),
            rdf@ == rdf_type_iri(),
            declared_type(pv) == declared_type(pv.subrange(i as int, pv.len() as int)),
        decreases pairs.len() - i,
    {
        let ghost rest = pv.subrange(i as int, pv.len() as int);
        assert(rest[0] == (pairs[i as int].0@, pairs[i as int].1@));
        if pairs[i].0.same(&rdf) {
            return match &pairs[i].1 {
                Object::NamedNode(o) => GraphType::from_uri(o),
                _ => GraphType::Unknown,
            };
        }
        assert(rest.drop_first() =~= pv.subrange(i + 1, pv.len() as int));
        i = i + 1;
    }
    GraphType::Unknown
}

/// How a node is written as a graph identifier: `<iri>` or `_:label`.
pub open spec fn node_id(n: NodeView) -> Seq<char> {
    match n {
        NodeView::Iri(i) => "<"@ + i + ">"@,
        NodeView::Blank(b) => "_:"@ + b,
        _ => Seq::empty(),
    }
}

/// Whether a node may stand as a subject.
pub open spec fn is_subject_node(n: NodeView) -> bool {
    n is Iri || n is Blank
}

proof fn lemma_node_id_injective(a: NodeView, b: NodeView)
    requires
        is_subject_node(a),
        is_subject_node(b),
        node_id(a) == node_id(b),
    ensures
        a == b,
{
    reveal_strlit("<");
    reveal_strlit(">");
    reveal_strlit("_:");
    let ia = node_id(a);
    assert(ia[0] == node_id(b)[0]);
    match a {
        NodeView::Iri(x) => assert(ia[0] == '<'),
        NodeView::Blank(x) => assert(ia[0] == '_'),
        _ => {},
    }
    match b {
        NodeView::Iri(x) => assert(node_id(b)[0] == '<'),
        NodeView::Blank(x) => assert(node_id(b)[0] == '_'),
        _ => {},
    }
    match (a, b) {
        (NodeView::Iri(x), NodeView::Iri(y)) => {
            assert(x =~= ia.subrange(1, ia.len() - 1));
            assert(y =~= ia.subrange(1, ia.len() - 1));
        },
        (NodeView::Blank(x), NodeView::Blank(y)) => {
            assert(x =~= ia.subrange(2, ia.len() as int));
            assert(y =~= ia.subrange(2, ia.len() as int));
        },
        _ => {},
    }
}

pub fn node_to_string(n: &NamedOrBlankNode) -> (r: String)
    ensures
        r@ == node_id(n@),
{
    match n {
        NamedOrBlankNode::NamedNode(nn) => {
            let mut s = "<".to_owned();
            s.append(nn.iri.as_str());
            s.append(">");
            s
        },
        NamedOrBlankNode::BlankNode(b) => {
            let mut s = "_:".to_owned();
            s.append(b.id.as_str());
            s
        },
    }
}

/// The context IRI that a graph listing carries.
pub open spec fn context_iri() -> Seq<char> {
    "http://www.purl.org/dougli1sqrd/models/janus-oxide/meta/context.json"@
}

/// Whether `r` lists the subjects of `qs`: one entry per distinct subject,
/// named by its identifier and carrying the category its pairs declare.
pub open spec fn lists_graphs(qs: Seq<QuadView>, r: GraphList) -> bool {
    &&& r.context@ == context_iri()
    &&& forall|i: int|
        0 <= i < r.graphs.len() ==> exists|s: NodeView|
            #[trigger] has_subject(qs, s) && (#[trigger] r.graphs[i]).id@ == node_id(s)
                && r.graphs[i].graph_type == declared_type(pairs_of(qs, s))
    &&& forall|s: NodeView| #[trigger] has_subject(qs, s) ==> listed(r, s)
    &&& forall|i: int, j: int|
        0 <= i < j < r.graphs.len() ==> (#[trigger] r.graphs[i]).id@ != (#[trigger] r.graphs[j]).id@
}

/// Builds the graph listing from the quads of the metadata graph.
pub fn graph_list_from_quads(quads: &Vec<Quad>) -> (r: GraphList)
    ensures
        lists_graphs(quad_views(quads@), r),
{
    let ghost qs = quad_views(quads@);
    let groups = map_by_subject(quads);
    let mut graphs: Vec<GraphData> = Vec::new();
    let mut i: usize = 0;
    while i < groups.len()
        invariant
            i <= groups.len(),
            graphs.len() == i,
            qs == quad_views(quads@),
            forall|j: int, k: int|
                0 <= j < k < groups.len() ==> (#[trigger] groups[j]).subject@
                    != (#[trigger] groups[k]).subject@,
            forall|j: int|
                0 <= j < groups.len() ==> pair_views((#[trigger] groups[j]).pairs@) == pairs_of(
                    qs,
                    groups[j].subject@,
                ),
            forall|j: int| 0 <= j < groups.len() ==> has_subject(qs, (#[trigger] groups[j]).subject@),
            forall|j: int|
                0 <= j < i ==> (#[trigger] graphs[j]).id@ == node_id(groups[j].subject@)
                    && graphs[j].graph_type == declared_type(pairs_of(qs, groups[j].subject@)),
        decreases groups.len() - i,
    {
        let group = &groups[i];
        let id = node_to_string(&group.subject);
        let graph_type = find_declared_type(&group.pairs);
        graphs.push(GraphData { id, graph_type });
        i = i + 1;
    }
    let r = GraphList {
        context: "http://www.purl.org/dougli1sqrd/models/janus-oxide/meta/context.json".to_owned(),
        graphs,
    };
    proof {
        lemma_groups_list(quads@, groups@, r);
    }
    r
}

proof fn lemma_groups_list(quads: Seq<Quad>, groups: Seq<SubjectGroup>, r: GraphList)
    requires
        r.context@ == context_iri(),
        r.graphs.len() == groups.len(),
        forall|j: int, k: int|
            0 <= j < k < groups.len() ==> (#[trigger] groups[j]).subject@ != (#[trigger] groups[k]).subject@,
        forall|j: int| 0 <= j < groups.len() ==> has_subject(quad_views(quads), (#[trigger] groups[j]).subject@),
        forall|k: int|
            0 <= k < quads.len() ==> exists|j: int|
                0 <= j < groups.len() && (#[trigger] groups[j]).subject@ == (#[trigger] quads[k]).subject@,
        forall|j: int|
            0 <= j < groups.len() ==> (#[trigger] r.graphs[j]).id@ == node_id(groups[j].subject@)
                && r.graphs[j].graph_type == declared_type(pairs_of(quad_views(quads), groups[j].subject@)),
    ensures
        lists_graphs(quad_views(quads), r),
{
    let qs = quad_views(quads);
    assert forall|j: int| 0 <= j < r.graphs.len() implies exists|s: NodeView|
        #[trigger] has_subject(qs, s) && (#[trigger] r.graphs[j]).id@ == node_id(s)
            && r.graphs[j].graph_type == declared_type(pairs_of(qs, s)) by {
        assert(has_subject(qs, groups[j].subject@));
    }
    assert forall|s: NodeView| #[trigger] has_subject(qs, s) implies listed(r, s) by {
        reveal(has_subject);
        reveal(listed);
        let k = choose|k: int| 0 <= k < qs.len() && (#[trigger] qs[k]).subject == s;
        assert(qs[k] == quads[k]@);
        let j = choose|j: int| 0 <= j < groups.len() && (#[trigger] groups[j]).subject@ == (#[trigger] quads[k]).subject@;
        assert(r.graphs[j].id@ == node_id(s));
    }
    assert forall|j: int, k: int| 0 <= j < k < r.graphs.len() implies (#[trigger] r.graphs[j]).id@
        != (#[trigger] r.graphs[k]).id@ by {
        if r.graphs[j].id@ == r.graphs[k].id@ {
            lemma_node_id_injective(groups[j].subject@, groups[k].subject@);
        }
    }
}

/// Whether `qs` holds exactly the stored quads of graph `g`.
pub open spec fn scans_graph(qs: Seq<QuadView>, stored: Set<QuadView>, g: NodeView) -> bool {
    &&& forall|i: int| 0 <= i < qs.len() ==> stored.contains(#[trigger] qs[i]) && qs[i].graph == g
    &&& forall|q: QuadView|
        #[trigger] stored.contains(q) && q.graph == g ==> exists|i: int|
            0 <= i < qs.len() && qs[i] == q
}

/// Whether the metadata graph of `stored` holds an entry about `s`.
pub open spec fn registered(stored: Set<QuadView>, s: NodeView) -> bool {
    exists|q: QuadView|
        #[trigger] stored.contains(q) && q.graph == NodeView::Iri(meta_graph_iri()) && q.subject
            == s
}

/// Whether `r` is the listing of the metadata graph of `stored`, read in some
/// order.
pub open spec fn reports(stored: Set<QuadView>, r: GraphList) -> bool {
    exists|qs: Seq<QuadView>|
        scans_graph(qs, stored, NodeView::Iri(meta_graph_iri())) && #[trigger] lists_graphs(qs, r)
}

/// Whether `r` lists graph `s`.
#[verifier::opaque]
pub open spec fn listed(r: GraphList, s: NodeView) -> bool {
    exists|i: int| 0 <= i < r.graphs.len() && (#[trigger] r.graphs[i]).id@ == node_id(s)
}

/// A listing reports exactly the registered graphs.
pub proof fn lemma_reports_registered(stored: Set<QuadView>, r: GraphList, s: NodeView)
    requires
        reports(stored, r),
        forall|q: QuadView| #[trigger] stored.contains(q) ==> is_subject_node(q.subject),
        is_subject_node(s),
    ensures
        listed(r, s) <==> registered(stored, s),
{
    let meta = NodeView::Iri(meta_graph_iri());
    let qs = choose|qs: Seq<QuadView>| scans_graph(qs, stored, meta) && #[trigger] lists_graphs(qs, r);
    if registered(stored, s) {
        lemma_registered_listed(stored, qs, r, s);
    }
    if listed(r, s) {
        lemma_listed_registered(stored, qs, r, s);
    }
}

proof fn lemma_registered_listed(stored: Set<QuadView>, qs: Seq<QuadView>, r: GraphList, s: NodeView)
    requires
        scans_graph(qs, stored, NodeView::Iri(meta_graph_iri())),
        lists_graphs(qs, r),
        registered(stored, s),
    ensures
        listed(r, s),
{
    let q = choose|q: QuadView|
        #[trigger] stored.contains(q) && q.graph == NodeView::Iri(meta_graph_iri()) && q.subject == s;
    let k = choose|k: int| 0 <= k < qs.len() && qs[k] == q;
    assert(has_subject(qs, s)) by {
        reveal(has_subject);
    }
}

proof fn lemma_listed_registered(stored: Set<QuadView>, qs: Seq<QuadView>, r: GraphList, s: NodeView)
    requires
        scans_graph(qs, stored, NodeView::Iri(meta_graph_iri())),
        lists_graphs(qs, r),
        listed(r, s),
        forall|q: QuadView| #[trigger] stored.contains(q) ==> is_subject_node(q.subject),
        is_subject_node(s),
    ensures
        registered(stored, s),
{
    reveal(listed);
    let i = choose|i: int| 0 <= i < r.graphs.len() && (#[trigger] r.graphs[i]).id@ == node_id(s);
    let s2 = choose|s2: NodeView|
        #[trigger] has_subject(qs, s2) && (#[trigger] r.graphs[i]).id@ == node_id(s2)
            && r.graphs[i].graph_type == declared_type(pairs_of(qs, s2));
    reveal(has_subject);
    let k = choose|k: int| 0 <= k < qs.len() && (#[trigger] qs[k]).subject == s2;
    assert(stored.contains(qs[k]));
    lemma_node_id_injective(s, s2);
    assert(stored.contains(qs[k]) && qs[k].graph == NodeView::Iri(meta_graph_iri()) && qs[k].subject == s);
}

/// Lists the graphs registered in the metadata graph, each once, with the
/// category that its entry declares.
pub fn accounted_graph_list<S: Transact>(store: &S) -> (r: GraphList)
    ensures
        reports(store.quads(), r),
{
    let quads = store.quads_for_graph(&meta_graph_uri());
    let r = graph_list_from_quads(&quads);
    let ghost qs = quad_views(quads@);
    assert(scans_graph(qs, store.quads(), NodeView::Iri(meta_graph_iri()))) by {
        assert forall|q: QuadView|
            #[trigger] store.quads().contains(q) && q.graph == NodeView::Iri(meta_graph_iri()) implies exists|i: int|
                0 <= i < qs.len() && qs[i] == q by {
            let i = choose|i: int| 0 <= i < quads.len() && (#[trigger] quads[i])@ == q;
            assert(qs[i] == q);
        }
    }
    r
}

/// The views of a sequence of triples.
pub open spec fn triple_views(v: Seq<Triple>) -> Seq<TripleView> {
    v.map_values(|t: Triple| t@)
}

/// The quads that place each triple of `ts` in graph `g`.
pub open spec fn placed(ts: Seq<TripleView>, g: NodeView) -> Set<QuadView>
    decreases ts.len(),
{
    if ts.len() == 0 {
        Set::empty()
    } else {
        placed(ts.drop_last(), g).insert(in_graph(ts.last(), g))
    }
}

/// Writes every triple of `triples` into graph `graph_name`.
pub fn insert_triples_in_transaction<T: Transaction>(
    t: T,
    triples: &Vec<Triple>,
    graph_name: &GraphName,
) -> (r: (T, Result<(), TransactionOpError>))
    ensures
        r.1 is Ok ==> r.0.quads() == t.quads().union(placed(triple_views(triples@), graph_name@)),
{
    let ghost start = t.quads();
    let ghost ts = triple_views(triples@);
    let mut t = t;
    let mut i: usize = 0;
    assert(ts.subrange(0, 0) =~= Seq::<TripleView>::empty());
    assert(start.union(Set::empty()) =~= start);
    while i < triples.len()
        invariant
            i <= triples.len(),
            ts == triple_views(triples@),
            t.quads() == start.union(placed(ts.subrange(0, i as int), graph_name@)),
        decreases triples.len() - i,
    {
        let quad = triples[i].in_graph(graph_name);
        match t.insert(&quad) {
            Ok(()) => {},
            Err(e) => {
                return (t, Err(e));
            },
        }
        let ghost next = ts.subrange(0, i + 1);
        assert(next.drop_last() =~= ts.subrange(0, i as int));
        assert(next.last() == triples[i as int]@);
        assert(t.quads() =~= start.union(placed(next, graph_name@)));
        i = i + 1;
    }
    assert(ts.subrange(0, triples.len() as int) =~= ts);
    (t, Ok(()))
}

/// Writes the metadata entry `entry`, then every triple of `triples` into graph
/// `graph_name`.
pub fn register_in_transaction<T: Transaction>(
    t: T,
    entry: &Quad,
    triples: &Vec<Triple>,
    graph_name: &GraphName,
) -> (r: (T, Result<(), TransactionOpError>))
    ensures
        r.1 is Ok ==> r.0.quads() == t.quads().insert(entry@).union(
            placed(triple_views(triples@), graph_name@),
        ),
{
    let mut t = t;
    match t.insert(entry) {
        Ok(()) => {},
        Err(e) => {
            return (t, Err(e));
        },
    }
    insert_triples_in_transaction(t, triples, graph_name)
}

/// Registers graph `graph_uri` with category `graph_type` and writes `triples`
/// into it, all in one transaction, and returns how many triples were given.
/// Either all of it is committed, or, when the transaction fails, none of it.
pub fn load_triples_into_new_graph<S: Transact>(
    store: &mut S,
    graph_uri: NamedNode,
    graph_type: GraphType,
    triples: &Vec<Triple>,
) -> (r: usize)
    ensures
        r == triples.len(),
        final(store).quads() == old(store).quads() || final(store).quads() == old(store).quads().insert(
            metadata_entry(graph_uri@, graph_type),
        ).union(placed(triple_views(triples@), NodeView::Iri(graph_uri@))),
{
    let graph_name = GraphName::NamedNode(graph_uri.duplicate());
    let entry = graph_metadata_entry(graph_uri, graph_type);
    let body = (|t: S::Tx| -> (res: (S::Tx, Result<(), TransactionOpError>))
        ensures
            res.1 is Ok ==> res.0.quads() == t.quads().insert(entry@).union(
                placed(triple_views(triples@), graph_name@),
            ),
        { register_in_transaction(t, &entry, triples, &graph_name) });
    let _ = store.transact(body);
    triples.len()
}

/// Whether graph `g` of `stored` holds triple `t`.
pub open spec fn holds_triple(stored: Set<QuadView>, g: NodeView, t: TripleView) -> bool {
    exists|q: QuadView| #[trigger] stored.contains(q) && q.graph == g && triple_of(q) == t
}

/// The triples of graph `graph_uri`.
pub fn graph_triples<S: Transact>(store: &S, graph_uri: &NamedNode) -> (r: Vec<Triple>)
    ensures
        forall|i: int|
            0 <= i < r.len() ==> holds_triple(store.quads(), NodeView::Iri(graph_uri@), #[trigger] r[i]@),
        forall|q: QuadView|
            #[trigger] store.quads().contains(q) && q.graph == NodeView::Iri(graph_uri@) ==> exists|
                i: int,
            | 0 <= i < r.len() && (#[trigger] r[i])@ == triple_of(q),
{
    let quads = store.quads_for_graph(&GraphName::NamedNode(graph_uri.duplicate()));
    let mut triples: Vec<Triple> = Vec::new();
    let mut i: usize = 0;
    while i < quads.len()
        invariant
            i <= quads.len(),
            triples.len() == i,
            forall|k: int| 0 <= k < i ==> (#[trigger] triples[k])@ == triple_of(quads[k]@),
        decreases quads.len() - i,
    {
        triples.push(quads[i].to_triple());
        i = i + 1;
    }
    assert forall|k: int| 0 <= k < triples.len() implies holds_triple(
        store.quads(),
        NodeView::Iri(graph_uri@),
        #[trigger] triples[k]@,
    ) by {
        let q = quads[k]@;
        assert(store.quads().contains(q));
        assert(q.graph == NodeView::Iri(graph_uri@));
        assert(triple_of(q) == triples[k]@);
    }
    assert forall|q: QuadView|
        #[trigger] store.quads().contains(q) && q.graph == NodeView::Iri(graph_uri@) implies exists|
            i: int,
        | 0 <= i < triples.len() && (#[trigger] triples[i])@ == triple_of(q) by {
        let k = choose|k: int| 0 <= k < quads.len() && (#[trigger] quads[k])@ == q;
        assert(triples[k]@ == triple_of(q));
    }
    triples
}

/// The IRI of the example graph written at initialisation.
pub open spec fn example_graph_iri() -> Seq<char> {
    "http://www.purl.org/dougli1sqrd/models/janus-oxide/hello"@
}

/// The example quad written at initialisation: `:helloworld a :hellogreeting`
/// in graph `:hello`.
pub open spec fn example_quad() -> QuadView {
    QuadView {
        subject: NodeView::Iri(example_graph_iri() + "world"@),
        predicate: rdf_type_iri(),
        object: NodeView::Iri(example_graph_iri() + "greeting"@),
        graph: NodeView::Iri(example_graph_iri()),
    }
}

/// Prepares a store in one transaction: writes the category vocabulary
/// `ontology` into the ontology graph, an example triple into the example
/// graph, and the entry that registers the example graph as a model. Either all
/// of it is committed, or, when the transaction fails, none of it.
pub fn init<S: Transact>(store: &mut S, ontology: &Vec<Triple>)
    ensures
        final(store).quads() == old(store).quads() || final(store).quads() == old(store).quads().insert(
            example_quad(),
        ).insert(metadata_entry(example_graph_iri(), GraphType::Model)).union(
            placed(triple_views(ontology@), NodeView::Iri(meta_ontology_iri())),
        ),
{
    let example_graph = "http://www.purl.org/dougli1sqrd/models/janus-oxide/hello";
    let example_quad = Quad::new(
        NamedOrBlankNode::NamedNode(convert_iri_raw(example_graph, Some("world"))),
        rdf_type(),
        Object::NamedNode(convert_iri_raw(example_graph, Some("greeting"))),
        GraphName::NamedNode(NamedNode::new(example_graph.to_owned())),
    );
    let example_metadata = graph_metadata_entry(
        NamedNode::new(example_graph.to_owned()),
        GraphType::Model,
    );
    let ontology_graph = meta_ontology_uri();
    let body = (|t: S::Tx| -> (res: (S::Tx, Result<(), TransactionOpError>))
        ensures
            res.1 is Ok ==> res.0.quads() == t.quads().insert(example_quad@).insert(
                example_metadata@,
            ).union(placed(triple_views(ontology@), ontology_graph@)),
        {
            let mut t = t;
            match t.insert(&example_quad) {
                Ok(()) => register_in_transaction(t, &example_metadata, ontology, &ontology_graph),
                Err(e) => (t, Err(e)),
            }
        });
    let _ = store.transact(body);
}

} // verus!
