//! The categories of named graphs, their IRIs, and the names they resolve from.

use crate::meta::{meta_ns, meta_ns_str};
use crate::term::NamedNode;
use vstd::prelude::*;
use vstd::string::StringExecFns;

verus! {

/// The category of a named graph.
#[derive(Clone, Copy, Debug, PartialEq, Eq, Structural)]
pub enum GraphType {
    Ontology,
    Closure,
    Model,
    Inferred,
    Unknown,
}

/// Whether every character of `s` is ASCII.
pub open spec fn all_ascii(s: Seq<char>) -> bool {
    forall|i: int| 0 <= i < s.len() ==> (s[i] as u32) < 128
}

/// Whether two characters are equal once ASCII upper case is taken as lower.
pub open spec fn ascii_caseless_char_eq(x: char, y: char) -> bool {
    ||| x == y
    ||| 'A' <= x <= 'Z' && (y as u32) == (x as u32) + 32
    ||| 'A' <= y <= 'Z' && (x as u32) == (y as u32) + 32
}

/// Whether two strings are equal when ASCII letter case is ignored.
pub open spec fn ascii_caseless_eq(a: Seq<char>, b: Seq<char>) -> bool {
    a.len() == b.len() && forall|i: int| 0 <= i < a.len() ==> ascii_caseless_char_eq(a[i], b[i])
}

/// Whether two strings are equal under Unicode case folding.
pub uninterp spec fn unicode_caseless_eq(a: Seq<char>, b: Seq<char>) -> bool;

/// Case-insensitive equality: by ASCII case when both strings are ASCII, by
/// Unicode case folding otherwise.
pub open spec fn caseless_eq(a: Seq<char>, b: Seq<char>) -> bool {
    if all_ascii(a) && all_ascii(b) {
        ascii_caseless_eq(a, b)
    } else {
        unicode_caseless_eq(a, b)
    }
}

/// Relies on `unicase::eq`, which compares two ASCII strings ignoring ASCII case
/// and any other pair after Unicode case folding.
#[verifier::external_body]
fn eq_ignore_case(a: &str, b: &str) -> (r: bool)
    ensures
        r == caseless_eq(a@, b@),
        !(all_ascii(a@) && all_ascii(b@)) ==> r == unicode_caseless_eq(a@, b@),
{
    unicase::eq(a, b)
}

impl GraphType {
    /// The canonical name of the category.
    pub open spec fn name_spec(self) -> Seq<char> {
        match self {
            GraphType::Ontology => "Ontology"@,
            GraphType::Closure => "Closure"@,
            GraphType::Model => "Model"@,
            GraphType::Inferred => "Inferred"@,
            GraphType::Unknown => "Unknown"@,
        }
    }

    /// The IRI of the category: its name in the category namespace.
    pub open spec fn uri_spec(self) -> Seq<char> {
        meta_ns() + self.name_spec()
    }

    /// The category whose IRI is `iri`, or `Unknown` for any other IRI.
    pub open spec fn from_uri_spec(iri: Seq<char>) -> GraphType {
        if iri == GraphType::Ontology.uri_spec() {
            GraphType::Ontology
        } else if iri == GraphType::Closure.uri_spec() {
            GraphType::Closure
        } else if iri == GraphType::Model.uri_spec() {
            GraphType::Model
        } else if iri == GraphType::Inferred.uri_spec() {
            GraphType::Inferred
        } else {
            GraphType::Unknown
        }
    }

    /// The category that a name resolves to: the first whose canonical name
    /// equals it when case is ignored.
    pub open spec fn resolve_spec(name: Seq<char>) -> Option<GraphType> {
        if caseless_eq(name, GraphType::Ontology.name_spec()) {
            Some(GraphType::Ontology)
        } else if caseless_eq(name, GraphType::Closure.name_spec()) {
            Some(GraphType::Closure)
        } else if caseless_eq(name, GraphType::Model.name_spec()) {
            Some(GraphType::Model)
        } else if caseless_eq(name, GraphType::Inferred.name_spec()) {
            Some(GraphType::Inferred)
        } else if caseless_eq(name, GraphType::Unknown.name_spec()) {
            Some(GraphType::Unknown)
        } else {
            None
        }
    }

    pub fn name(&self) -> (r: &'static str)
        ensures
            r@ == self.name_spec(),
    {
        match self {
            GraphType::Ontology => "Ontology",
            GraphType::Closure => "Closure",
            GraphType::Model => "Model",
            GraphType::Inferred => "Inferred",
            GraphType::Unknown => "Unknown",
        }
    }

    pub fn uri(&self) -> (r: NamedNode)
        ensures
            r@ == self.uri_spec(),
    {
        let mut iri = meta_ns_str().to_owned();
        iri.append(self.name());
        NamedNode::new(iri)
    }

    /// The category whose IRI is `uri`; `Unknown` for an IRI outside the fixed
    /// set.
    pub fn from_uri(uri: &NamedNode) -> (r: GraphType)
        ensures
            r == GraphType::from_uri_spec(uri@),
    {
        if GraphType::Ontology.uri().iri == uri.iri {
            GraphType::Ontology
        } else if GraphType::Closure.uri().iri == uri.iri {
            GraphType::Closure
        } else if GraphType::Model.uri().iri == uri.iri {
            GraphType::Model
        } else if GraphType::Inferred.uri().iri == uri.iri {
            GraphType::Inferred
        } else {
            GraphType::Unknown
        }
    }

    /// Resolves a category from its name in any letter case; the name itself
    /// is the error when no category has it.
    pub fn resolve(name: &str) -> (r: Result<GraphType, &str>)
        ensures
            GraphType::resolve_spec(name@) is Some ==> r == Ok::<GraphType, &str>(
                GraphType::resolve_spec(name@)->Some_0,
            ),
            GraphType::resolve_spec(name@) is None ==> r == Err::<GraphType, &str>(name),
    {
        if eq_ignore_case(name, GraphType::Ontology.name()) {
            Ok(GraphType::Ontology)
        } else if eq_ignore_case(name, GraphType::Closure.name()) {
            Ok(GraphType::Closure)
        } else if eq_ignore_case(name, GraphType::Model.name()) {
            Ok(GraphType::Model)
        } else if eq_ignore_case(name, GraphType::Inferred.name()) {
            Ok(GraphType::Inferred)
        } else if eq_ignore_case(name, GraphType::Unknown.name()) {
            Ok(GraphType::Unknown)
        } else {
            Err(name)
        }
    }
}

proof fn lemma_names_known()
    ensures
        GraphType::Ontology.name_spec() =~= seq!['O', 'n', 't', 'o', 'l', 'o', 'g', 'y'],
        GraphType::Closure.name_spec() =~= seq!['C', 'l', 'o', 's', 'u', 'r', 'e'],
        GraphType::Model.name_spec() =~= seq!['M', 'o', 'd', 'e', 'l'],
        GraphType::Inferred.name_spec() =~= seq!['I', 'n', 'f', 'e', 'r', 'r', 'e', 'd'],
        GraphType::Unknown.name_spec() =~= seq!['U', 'n', 'k', 'n', 'o', 'w', 'n'],
{
    reveal_strlit("Ontology");
    reveal_strlit("Closure");
    reveal_strlit("Model");
    reveal_strlit("Inferred");
    reveal_strlit("Unknown");
}

/// The registry is consistent: each category is recovered from its IRI, and
/// each is resolved from its canonical name written in any ASCII letter case.
pub proof fn lemma_registry_bijection(g: GraphType, name: Seq<char>)
    ensures
        GraphType::from_uri_spec(g.uri_spec()) == g,
        all_ascii(name) && ascii_caseless_eq(name, g.name_spec()) ==> GraphType::resolve_spec(name)
            == Some(g),
{
    lemma_names_known();
    let n = meta_ns().len() as int;
    assert(g.uri_spec()[n] == g.name_spec()[0]);
    assert(GraphType::Ontology.uri_spec()[n] == 'O');
    assert(GraphType::Closure.uri_spec()[n] == 'C');
    assert(GraphType::Model.uri_spec()[n] == 'M');
    assert(GraphType::Inferred.uri_spec()[n] == 'I');
    if all_ascii(name) && ascii_caseless_eq(name, g.name_spec()) {
        assert(name.len() > 0);
        let c = name[0];
        assert(ascii_caseless_char_eq(c, g.name_spec()[0]));
    }
}

impl<'a> From<&'a NamedNode> for GraphType {
    /// The category whose IRI is `uri`, as [`GraphType::from_uri`] finds it.
    fn from(uri: &'a NamedNode) -> (r: GraphType) {
        GraphType::from_uri(uri)
    }
}

impl<'a> vstd::std_specs::convert::FromSpecImpl<&'a NamedNode> for GraphType {
    open spec fn obeys_from_spec() -> bool {
        true
    }

    open spec fn from_spec(uri: &'a NamedNode) -> GraphType {
        GraphType::from_uri_spec(uri@)
    }
}

impl<'a> TryFrom<&'a str> for GraphType {
    type Error = &'a str;

    /// Resolves a category from its name in any letter case, as
    /// [`GraphType::resolve`] does.
    fn try_from(val: &'a str) -> (r: Result<GraphType, &'a str>) {
        GraphType::resolve(val)
    }
}

impl<'a> vstd::std_specs::convert::TryFromSpecImpl<&'a str> for GraphType {
    open spec fn obeys_try_from_spec() -> bool {
        true
    }

    open spec fn try_from_spec(v: &'a str) -> Result<GraphType, &'a str> {
        match GraphType::resolve_spec(v@) {
            Some(g) => Ok(g),
            None => Err(v),
        }
    }
}

/// A category, with `Unknown` set apart from the known ones.
#[derive(Clone, Copy, Debug, PartialEq, Eq, Structural)]
pub enum KnownGraphType<G> {
    Known(G),
    Unknown,
}

impl KnownGraphType<GraphType> {
    pub fn new(graph_type: GraphType) -> (r: KnownGraphType<GraphType>)
        ensures
            graph_type == GraphType::Unknown ==> r == KnownGraphType::<GraphType>::Unknown,
            graph_type != GraphType::Unknown ==> r == KnownGraphType::Known(graph_type),
    {
        if graph_type == GraphType::Unknown {
            KnownGraphType::Unknown
        } else {
            KnownGraphType::Known(graph_type)
        }
    }
}

/// One registered graph: its identifier and its category.
#[derive(Clone, Debug, PartialEq, Eq)]
pub struct GraphData {
    pub id: String,
    pub graph_type: GraphType,
}

impl GraphData {
    pub fn duplicate(&self) -> (r: GraphData)
        ensures
            r == *self,
    {
        GraphData { id: self.id.clone(), graph_type: self.graph_type }
    }
}

/// The registered graphs, with the context that describes their fields.
#[derive(Clone, Debug, PartialEq, Eq)]
pub struct GraphList {
    pub context: String,
    pub graphs: Vec<GraphData>,
}

/// A graph IRI as a request names it.
#[derive(Clone, Debug, PartialEq, Eq)]
pub struct UriWrapper(pub NamedNode);

} // verus!
