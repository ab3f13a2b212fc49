use std::io::Cursor;

use janus_oxide::dataset::{QuadTuple, Store};
use janus_oxide::graph::GraphType;
use janus_oxide::memory::MemoryStore;
use janus_oxide::meta::{graph_metadata_entry, meta_graph_uri, meta_ontology_uri};
use janus_oxide::model::Transact;
use janus_oxide::project::{Iri, Term};
use janus_oxide::service::{add_new_graph, check_new_graph, get_graph, graphs, NewGraphError};
use janus_oxide::storage::{
    accounted_graph_list, graph_triples, init, load_triples_into_new_graph,
};
use janus_oxide::term::{
    BlankNode, GraphName, Literal, NamedNode, NamedOrBlankNode, Object, Quad, Triple,
};
use rio_api::formatter::TriplesFormatter;
use rio_api::model as rio;
use rio_api::parser::TriplesParser;
use rio_turtle::{TurtleError, TurtleFormatter, TurtleParser};

const XSD_STRING: &str = "http://www.w3.org/2001/XMLSchema#string";

fn subject_of(n: rio::NamedOrBlankNode) -> NamedOrBlankNode {
    match n {
        rio::NamedOrBlankNode::NamedNode(n) => NamedOrBlankNode::NamedNode(named(n.iri)),
        rio::NamedOrBlankNode::BlankNode(b) => {
            NamedOrBlankNode::BlankNode(BlankNode { id: b.id.to_string() })
        }
    }
}

fn object_of(t: rio::Term) -> Object {
    match t {
        rio::Term::NamedNode(n) => Object::NamedNode(named(n.iri)),
        rio::Term::BlankNode(b) => Object::BlankNode(BlankNode { id: b.id.to_string() }),
        rio::Term::Literal(rio::Literal::Simple { value }) => Object::Literal(Literal::Typed {
            value: value.to_string(),
            datatype: named(XSD_STRING),
        }),
        rio::Term::Literal(rio::Literal::LanguageTaggedString { value, language }) => {
            Object::Literal(Literal::LanguageTagged {
                value: value.to_string(),
                language: language.to_string(),
            })
        }
        rio::Term::Literal(rio::Literal::Typed { value, datatype }) => {
            Object::Literal(Literal::Typed { value: value.to_string(), datatype: named(datatype.iri) })
        }
    }
}

fn parse_turtle(bytes: &[u8]) -> Vec<Triple> {
    let mut out = Vec::new();
    TurtleParser::new(Cursor::new(bytes), None)
        .parse_all(&mut |t| -> Result<(), TurtleError> {
            out.push(Triple::new(subject_of(t.subject), named(t.predicate.iri), object_of(t.object)));
            Ok(())
        })
        .expect("valid Turtle");
    out
}

fn write_turtle(triples: &[Triple]) -> String {
    let mut formatter = TurtleFormatter::new(Vec::new());
    for t in triples {
        let subject = match &t.subject {
            NamedOrBlankNode::NamedNode(n) => rio::NamedOrBlankNode::NamedNode(rio::NamedNode { iri: &n.iri }),
            NamedOrBlankNode::BlankNode(b) => rio::NamedOrBlankNode::BlankNode(rio::BlankNode { id: &b.id }),
        };
        let object = match &t.object {
            Object::NamedNode(n) => rio::Term::NamedNode(rio::NamedNode { iri: &n.iri }),
            Object::BlankNode(b) => rio::Term::BlankNode(rio::BlankNode { id: &b.id }),
            Object::Literal(Literal::LanguageTagged { value, language }) => {
                rio::Term::Literal(rio::Literal::LanguageTaggedString { value, language })
            }
            Object::Literal(Literal::Typed { value, datatype }) => {
                rio::Term::Literal(rio::Literal::Typed { value, datatype: rio::NamedNode { iri: &datatype.iri } })
            }
        };
        formatter
            .format(&rio::Triple { subject, predicate: rio::NamedNode { iri: &t.predicate.iri }, object })
            .unwrap();
    }
    String::from_utf8(formatter.finish().unwrap()).unwrap()
}

fn named(iri: &str) -> NamedNode {
    NamedNode::new(iri.to_string())
}

fn iri_term(iri: &str) -> Term {
    Term::Iri(Iri { ns: iri.to_string(), suffix: None })
}

fn split_iri_term(ns: &str, suffix: &str) -> Term {
    Term::Iri(Iri { ns: ns.to_string(), suffix: Some(suffix.to_string()) })
}

fn quad(s: &str, p: &str, o: &str, g: &str) -> Quad {
    Quad::new(
        NamedOrBlankNode::NamedNode(named(s)),
        named(p),
        Object::NamedNode(named(o)),
        GraphName::NamedNode(named(g)),
    )
}

fn graph_quads(store: &MemoryStore, g: &str) -> Vec<Quad> {
    store.quads_for_graph(&GraphName::NamedNode(named(g)))
}

fn init_store() -> MemoryStore {
    let mut store = MemoryStore::new();
    init(&mut store, &ontology());
    store
}

/// A stand-in for the category vocabulary that a deployment loads from a file.
fn ontology() -> Vec<Triple> {
    parse_turtle(
        b"<http://www.purl.org/dougli1sqrd/models/janus-oxide/Meta/Model> \
          <http://www.w3.org/1999/02/22-rdf-syntax-ns#type> \
          <http://www.w3.org/2002/07/owl#Class> .",
    )
}

const RDF_TYPE: &str = "http://www.w3.org/1999/02/22-rdf-syntax-ns#type";
const META: &str = "http://www.purl.org/dougli1sqrd/models/janus-oxide/Meta";
const MODEL: &str = "http://www.purl.org/dougli1sqrd/models/janus-oxide/Meta/Model";

#[test]
fn test_accounted_graph_list() {
    let s = init_store();

    let graphs = accounted_graph_list(&s);
    assert_eq!(
        graphs.context,
        String::from("http://www.purl.org/dougli1sqrd/models/janus-oxide/meta/context.json")
    );
    assert_eq!(graphs.graphs.len(), 1);
}

#[test]
fn test_init() {
    let s = init_store();

    assert!(!graph_quads(&s, "http://www.purl.org/dougli1sqrd/models/janus-oxide/Meta").is_empty());
    for g in [
        "http://www.purl.org/dougli1sqrd/models/janus-oxide/Meta",
        "http://www.purl.org/dougli1sqrd/models/janus-oxide/MetaOnt",
        "http://www.purl.org/dougli1sqrd/models/janus-oxide/hello",
    ] {
        assert!(!graph_quads(&s, g).is_empty(), "graph {} is empty", g);
    }
    assert!(s.contains(&quad(
        "http://www.purl.org/dougli1sqrd/models/janus-oxide/helloworld",
        RDF_TYPE,
        "http://www.purl.org/dougli1sqrd/models/janus-oxide/hellogreeting",
        "http://www.purl.org/dougli1sqrd/models/janus-oxide/hello",
    )));
}

#[test]
fn test_load_turtle() {
    let mut s = init_store();

    let triple = "<http://www.example.com/A> <http://www.example.com/is> <http://www.example.com/B> .".as_bytes();
    let graph = "http://www.example.com";

    let v = load_triples_into_new_graph(&mut s, named(graph), GraphType::Model, &parse_turtle(triple));

    assert_eq!(1, v);

    let accounted = accounted_graph_list(&s);
    let found = accounted.graphs.iter().find(|g| g.id == "<http://www.example.com>").unwrap();
    assert_eq!(String::from("<http://www.example.com>"), found.id);
    assert_eq!(GraphType::Model, found.graph_type);

    let quad_in_graph = graph_quads(&s, graph);
    assert_eq!(
        vec![quad(
            "http://www.example.com/A",
            "http://www.example.com/is",
            "http://www.example.com/B",
            "http://www.example.com"
        )],
        quad_in_graph
    );
}

#[test]
fn insert_twice_reports_true_then_false() {
    let mut store = Store::new(MemoryStore::new());
    let (s, p, o, g) = (
        iri_term("http://ex.org/s"),
        iri_term("http://ex.org/p"),
        iri_term("http://ex.org/o"),
        iri_term("http://ex.org/g"),
    );
    assert_eq!(store.insert(&s, &p, &o, Some(&g)), Ok(true));
    let after_first = graph_quads(&store.store, "http://ex.org/g");
    assert_eq!(store.insert(&s, &p, &o, Some(&g)), Ok(false));
    assert_eq!(graph_quads(&store.store, "http://ex.org/g"), after_first);
    assert_eq!(after_first.len(), 1);
}

#[test]
fn unprojectable_terms_change_nothing() {
    let mut store = Store::new(MemoryStore::new());
    let literal = Term::Literal {
        value: "x".to_string(),
        language: Some("en".to_string()),
        datatype: None,
    };
    let (s, p, o) = (iri_term("http://ex.org/s"), iri_term("http://ex.org/p"), iri_term("http://ex.org/o"));
    let var = Term::Variable("v".to_string());
    let blank = Term::BlankNode("b0".to_string());
    assert_eq!(store.insert(&literal, &p, &o, None), Ok(false));
    assert_eq!(store.insert(&s, &blank, &o, None), Ok(false));
    assert_eq!(store.insert(&s, &p, &var, None), Ok(false));
    assert_eq!(store.insert(&s, &p, &o, Some(&literal)), Ok(false));
    assert_eq!(store.remove(&var, &p, &o, None), Ok(false));
    assert!(store.store.quads_for_graph(&GraphName::DefaultGraph).is_empty());
    // The same terms in admitted positions are stored.
    assert_eq!(store.insert(&blank, &p, &literal, None), Ok(true));
    assert_eq!(store.store.quads_for_graph(&GraphName::DefaultGraph).len(), 1);
}

#[test]
fn literal_without_tag_or_datatype_does_not_project() {
    let mut store = Store::new(MemoryStore::new());
    let bare = Term::Literal { value: "x".to_string(), language: None, datatype: None };
    let (s, p) = (iri_term("http://ex.org/s"), iri_term("http://ex.org/p"));
    assert_eq!(store.insert(&s, &p, &bare, None), Ok(false));
    assert!(store.store.quads_for_graph(&GraphName::DefaultGraph).is_empty());
}

#[test]
fn split_iri_is_joined() {
    let mut store = Store::new(MemoryStore::new());
    let s = split_iri_term("http://ex.org/", "s");
    let p = split_iri_term("http://ex.org/", "p");
    let typed = Term::Literal {
        value: "1".to_string(),
        language: None,
        datatype: Some(Iri {
            ns: "http://www.w3.org/2001/XMLSchema#".to_string(),
            suffix: Some("integer".to_string()),
        }),
    };
    assert_eq!(store.insert(&s, &p, &typed, None), Ok(true));
    let expected = Quad::new(
        NamedOrBlankNode::NamedNode(named("http://ex.org/s")),
        named("http://ex.org/p"),
        Object::Literal(Literal::Typed {
            value: "1".to_string(),
            datatype: named("http://www.w3.org/2001/XMLSchema#integer"),
        }),
        GraphName::DefaultGraph,
    );
    assert!(store.store.contains(&expected));
}

#[test]
fn graph_named_default_is_not_the_default_graph() {
    let mut store = Store::new(MemoryStore::new());
    let (s, p, o) = (iri_term("http://ex.org/s"), iri_term("http://ex.org/p"), iri_term("http://ex.org/o"));
    assert_eq!(store.insert(&s, &p, &o, Some(&iri_term("default"))), Ok(true));
    assert!(store.store.quads_for_graph(&GraphName::DefaultGraph).is_empty());
    assert_eq!(store.insert(&s, &p, &o, None), Ok(true));
    assert_eq!(store.store.quads_for_graph(&GraphName::DefaultGraph).len(), 1);
}

#[test]
fn remove_reports_true_present_or_not() {
    let mut store = Store::new(MemoryStore::new());
    let (s, p, o) = (iri_term("http://ex.org/s"), iri_term("http://ex.org/p"), iri_term("http://ex.org/o"));
    assert_eq!(store.remove(&s, &p, &o, None), Ok(true));
    assert_eq!(store.insert(&s, &p, &o, None), Ok(true));
    assert_eq!(store.remove(&s, &p, &o, None), Ok(true));
    assert!(store.store.quads_for_graph(&GraphName::DefaultGraph).is_empty());
}

#[test]
fn insert_all_counts_new_quads_once() {
    let mut store = Store::new(MemoryStore::new());
    let t = |s: &str| iri_term(s);
    assert_eq!(store.insert(&t("http://ex.org/a"), &t("http://ex.org/p"), &t("http://ex.org/b"), None), Ok(true));
    let src = vec![
        QuadTuple(t("http://ex.org/a"), t("http://ex.org/p"), t("http://ex.org/b"), None),
        QuadTuple(t("http://ex.org/c"), t("http://ex.org/p"), t("http://ex.org/d"), None),
        QuadTuple(t("http://ex.org/c"), t("http://ex.org/p"), t("http://ex.org/d"), None),
        QuadTuple(Term::Variable("x".to_string()), t("http://ex.org/p"), t("http://ex.org/d"), None),
        QuadTuple(t("http://ex.org/e"), t("http://ex.org/p"), t("http://ex.org/f"), Some(t("http://ex.org/g"))),
    ];
    assert_eq!(store.insert_all(&src), Ok(2));
    assert_eq!(store.store.quads_for_graph(&GraphName::DefaultGraph).len(), 2);
    assert_eq!(graph_quads(&store.store, "http://ex.org/g").len(), 1);
    assert_eq!(store.insert_all(&Vec::new()), Ok(0));
}

#[test]
fn metadata_listing_resolves_categories() {
    let mut data = Store::new(MemoryStore::new());
    let g = |s: &str| iri_term(s);
    assert_eq!(data.insert(&g("http://ex.org/g1"), &g(RDF_TYPE), &g(MODEL), Some(&g(META))), Ok(true));
    assert_eq!(
        data.insert(&g("http://ex.org/g2"), &g(RDF_TYPE), &g("http://ex.org/UnknownThing"), Some(&g(META))),
        Ok(true)
    );
    let mut listed: Vec<(String, GraphType)> = accounted_graph_list(&data.store)
        .graphs
        .into_iter()
        .map(|d| (d.id, d.graph_type))
        .collect();
    listed.sort_by(|a, b| a.0.cmp(&b.0));
    assert_eq!(
        listed,
        vec![
            ("<http://ex.org/g1>".to_string(), GraphType::Model),
            ("<http://ex.org/g2>".to_string(), GraphType::Unknown),
        ]
    );
}

#[test]
fn literal_category_and_missing_type_are_unknown() {
    let mut data = Store::new(MemoryStore::new());
    let g = |s: &str| iri_term(s);
    let lit = Term::Literal { value: MODEL.to_string(), language: Some("en".to_string()), datatype: None };
    assert_eq!(data.insert(&g("http://ex.org/g1"), &g(RDF_TYPE), &lit, Some(&g(META))), Ok(true));
    assert_eq!(data.insert(&g("http://ex.org/g2"), &g("http://ex.org/label"), &g(MODEL), Some(&g(META))), Ok(true));
    assert_eq!(
        data.insert(&Term::BlankNode("b1".to_string()), &g(RDF_TYPE), &g(MODEL), Some(&g(META))),
        Ok(true)
    );
    let list = accounted_graph_list(&data.store);
    let type_of = |id: &str| list.graphs.iter().find(|d| d.id == id).map(|d| d.graph_type);
    assert_eq!(list.graphs.len(), 3);
    assert_eq!(type_of("<http://ex.org/g1>"), Some(GraphType::Unknown));
    assert_eq!(type_of("<http://ex.org/g2>"), Some(GraphType::Unknown));
    assert_eq!(type_of("_:b1"), Some(GraphType::Model));
}

#[test]
fn unregistered_graphs_are_not_listed() {
    let mut data = Store::new(MemoryStore::new());
    let g = |s: &str| iri_term(s);
    assert_eq!(data.insert(&g("http://ex.org/a"), &g("http://ex.org/p"), &g("http://ex.org/b"), Some(&g("http://ex.org/g"))), Ok(true));
    assert!(accounted_graph_list(&data.store).graphs.is_empty());
}

#[test]
fn bulk_load_lists_and_reads_back() {
    let mut s = MemoryStore::new();
    let triples = parse_turtle(b"<http://ex.org/A> <http://ex.org/is> <http://ex.org/B> .");
    assert_eq!(load_triples_into_new_graph(&mut s, named("http://ex.org/G"), GraphType::Model, &triples), 1);
    let list = accounted_graph_list(&s);
    let found: Vec<_> = list.graphs.iter().filter(|d| d.id == "<http://ex.org/G>").collect();
    assert_eq!(found.len(), 1);
    assert_eq!(found[0].graph_type, GraphType::Model);
    let text = write_turtle(&graph_triples(&s, &named("http://ex.org/G")));
    assert!(text.contains("<http://ex.org/A> <http://ex.org/is> <http://ex.org/B>"), "{}", text);
    assert!(s.contains(&graph_metadata_entry(named("http://ex.org/G"), GraphType::Model)));
}

#[test]
fn duplicate_parsed_triple_still_counts() {
    let mut s = MemoryStore::new();
    let triples = parse_turtle(b"<http://ex.org/A> <http://ex.org/is> <http://ex.org/B> . <http://ex.org/A> <http://ex.org/is> <http://ex.org/B> .");
    assert_eq!(triples.len(), 2);
    assert_eq!(load_triples_into_new_graph(&mut s, named("http://ex.org/G"), GraphType::Closure, &triples), 2);
    assert_eq!(graph_quads(&s, "http://ex.org/G").len(), 1);
}

#[test]
fn turtle_round_trip_keeps_the_triples() {
    let text = b"@prefix ex: <http://ex.org/> .
        ex:A ex:is ex:B ; ex:label \"a\"@en , \"1\"^^<http://www.w3.org/2001/XMLSchema#integer> .
        _:x ex:knows ex:A .
        ex:C ex:name \"plain\" .";
    let triples = parse_turtle(text);
    assert_eq!(triples.len(), 5);
    let mut s = MemoryStore::new();
    load_triples_into_new_graph(&mut s, named("http://ex.org/G"), GraphType::Model, &triples);
    let back = parse_turtle(write_turtle(&graph_triples(&s, &named("http://ex.org/G"))).as_bytes());
    let mut a = triples.clone();
    let mut b = back;
    let key = |t: &Triple| format!("{:?}", t);
    a.sort_by_key(key);
    b.sort_by_key(key);
    assert_eq!(a, b);
}

#[test]
fn removing_data_keeps_the_registration() {
    let mut s = MemoryStore::new();
    let triples = parse_turtle(b"<http://ex.org/A> <http://ex.org/is> <http://ex.org/B> .");
    load_triples_into_new_graph(&mut s, named("http://ex.org/G"), GraphType::Model, &triples);
    let mut data = Store::new(s);
    let g = |s: &str| iri_term(s);
    assert_eq!(
        data.remove(&g("http://ex.org/A"), &g("http://ex.org/is"), &g("http://ex.org/B"), Some(&g("http://ex.org/G"))),
        Ok(true)
    );
    assert!(graph_quads(&data.store, "http://ex.org/G").is_empty());
    let list = accounted_graph_list(&data.store);
    assert_eq!(list.graphs.len(), 1);
    assert_eq!(list.graphs[0].id, "<http://ex.org/G>");
    assert_eq!(list.graphs[0].graph_type, GraphType::Model);
}

#[test]
fn registration_refuses_existing_and_reserved_graphs() {
    let mut s = init_store();
    let hello = named("http://www.purl.org/dougli1sqrd/models/janus-oxide/hello");
    let existing = accounted_graph_list(&s);
    assert_eq!(check_new_graph(&existing, &hello), Err(NewGraphError::AlreadyExists));
    assert_eq!(check_new_graph(&existing, &named(META)), Err(NewGraphError::Untouchable));
    assert_eq!(
        check_new_graph(&existing, &named("http://www.purl.org/dougli1sqrd/models/janus-oxide/MetaOnt")),
        Err(NewGraphError::Untouchable)
    );
    assert_eq!(check_new_graph(&existing, &named("http://ex.org/new")), Ok(()));
    let triples = parse_turtle(b"<http://ex.org/A> <http://ex.org/is> <http://ex.org/B> .");
    assert_eq!(add_new_graph(&mut s, hello, GraphType::Model, &triples), Err(NewGraphError::AlreadyExists));
    assert_eq!(add_new_graph(&mut s, named("http://ex.org/new"), GraphType::Inferred, &triples), Ok(1));
    assert_eq!(add_new_graph(&mut s, named("http://ex.org/new"), GraphType::Inferred, &triples), Err(NewGraphError::AlreadyExists));
}

#[test]
fn graphs_filter_by_known_category() {
    let mut s = init_store();
    let triples = parse_turtle(b"<http://ex.org/A> <http://ex.org/is> <http://ex.org/B> .");
    load_triples_into_new_graph(&mut s, named("http://ex.org/o"), GraphType::Ontology, &triples);
    assert_eq!(graphs(&s, None).graphs.len(), 2);
    assert_eq!(graphs(&s, Some(GraphType::Unknown)).graphs.len(), 2);
    let models = graphs(&s, Some(GraphType::Model));
    assert_eq!(models.graphs.len(), 1);
    assert_eq!(models.graphs[0].id, "<http://www.purl.org/dougli1sqrd/models/janus-oxide/hello>");
    let ontologies = graphs(&s, Some(GraphType::Ontology));
    assert_eq!(ontologies.graphs.len(), 1);
    assert_eq!(ontologies.graphs[0].id, "<http://ex.org/o>");
    assert!(graphs(&s, Some(GraphType::Closure)).graphs.is_empty());
}

#[test]
fn get_graph_reads_registered_graphs_only() {
    let s = init_store();
    let hello = get_graph(&s, &named("http://www.purl.org/dougli1sqrd/models/janus-oxide/hello")).unwrap();
    assert_eq!(hello.len(), 1);
    assert_eq!(hello[0].predicate, named(RDF_TYPE));
    assert!(get_graph(&s, &named("http://ex.org/nothing")).is_none());
    assert!(meta_graph_uri() != meta_ontology_uri());
}
