use janus_oxide::graph::{GraphType, KnownGraphType};
use janus_oxide::term::NamedNode;

fn category_iri(name: &str) -> NamedNode {
    NamedNode::new(format!("http://www.purl.org/dougli1sqrd/models/janus-oxide/Meta/{}", name))
}

#[test]
fn test_graphtype_uri() {
    assert_eq!(GraphType::Model.uri(), category_iri("Model"));
    assert_eq!(GraphType::Closure.uri(), category_iri("Closure"));
    assert_eq!(GraphType::Inferred.uri(), category_iri("Inferred"));
    assert_eq!(GraphType::Ontology.uri(), category_iri("Ontology"));
    assert_eq!(GraphType::Unknown.uri(), category_iri("Unknown"));
}

#[test]
fn test_any_case_graph_type_from_str() {
    assert_eq!(GraphType::try_from("model"), Ok(GraphType::Model));
    assert_eq!(GraphType::try_from("Model"), Ok(GraphType::Model));
    assert_eq!(GraphType::try_from("MODEL"), Ok(GraphType::Model));
    assert_eq!(GraphType::try_from("Closure"), Ok(GraphType::Closure));
}

#[test]
fn test_graph_type_try_from_error() {
    assert_eq!(GraphType::try_from("Blah"), Err("Blah"));
}

#[test]
fn test_graph_type_from_uri() {
    assert_eq!(GraphType::from(&category_iri("Ontology")), GraphType::Ontology);
    assert_eq!(GraphType::from(&category_iri("Unknown")), GraphType::Unknown);
    assert_eq!(
        GraphType::from(&NamedNode::new("http::www.example.com/Blah".to_string())),
        GraphType::Unknown
    );
}

#[test]
fn test_known_graph_from_graphtype() {
    assert_eq!(KnownGraphType::new(GraphType::Model), KnownGraphType::Known(GraphType::Model));
    assert_eq!(KnownGraphType::new(GraphType::Unknown), KnownGraphType::Unknown);
}

const ALL: [GraphType; 5] = [
    GraphType::Ontology,
    GraphType::Closure,
    GraphType::Model,
    GraphType::Inferred,
    GraphType::Unknown,
];

#[test]
fn every_category_comes_back_from_its_iri() {
    for g in ALL {
        assert_eq!(GraphType::from_uri(&g.uri()), g);
    }
}

#[test]
fn every_category_resolves_from_its_name_in_any_case() {
    for g in ALL {
        let name = g.name();
        assert_eq!(GraphType::resolve(name), Ok(g));
        assert_eq!(GraphType::resolve(&name.to_lowercase()), Ok(g));
        assert_eq!(GraphType::resolve(&name.to_uppercase()), Ok(g));
    }
    assert_eq!(GraphType::resolve("iNfErReD"), Ok(GraphType::Inferred));
}

#[test]
fn resolve_refuses_near_names() {
    assert_eq!(GraphType::resolve(""), Err(""));
    assert_eq!(GraphType::resolve("Models"), Err("Models"));
    assert_eq!(GraphType::resolve(" Model"), Err(" Model"));
    assert_eq!(GraphType::resolve("Mode1"), Err("Mode1"));
}

#[test]
fn resolve_folds_unicode_case() {
    // U+212A KELVIN SIGN folds to 'k'.
    assert_eq!(GraphType::resolve("UN\u{212A}NOWN"), Ok(GraphType::Unknown));
    assert_eq!(GraphType::resolve("Mödel"), Err("Mödel"));
}

#[test]
fn category_iri_outside_the_namespace_is_unknown() {
    assert_eq!(
        GraphType::from_uri(&NamedNode::new(
            "http://www.purl.org/dougli1sqrd/models/janus-oxide/Meta/model".to_string()
        )),
        GraphType::Unknown
    );
}
