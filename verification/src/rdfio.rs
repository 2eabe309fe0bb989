//! Reading and writing RDF text: Turtle and N-Triples with oxttl, JSON-LD with
//! oxjsonld. A reader hands over its terms as they come, a literal split into
//! its parts; the library turns them into its own terms.
use vstd::prelude::*;
use crate::dto::{RDFFormat, TermValue, TermValueV, literal_of, value_literal};
use crate::engine::FormError;
use crate::graph::{Graph, TripleV, triple_views};
use crate::text::pair_views;
use crate::term::{IriOrBlankNode, Literal, Object, ObjectV, SubjectV, opt_view};

verus! {

#[verifier::external_type_specification]
#[verifier::external_body]
pub struct ExOxTerm(oxrdf::Term);

#[verifier::external_type_specification]
#[verifier::external_body]
pub struct ExOxSubject(oxrdf::NamedOrBlankNode);

/// A term as an RDF reader hands it over: a literal still split into its
/// text, datatype IRI and language tag.
pub enum RawTerm {
    Iri(String),
    BlankNode(String),
    Literal { value: String, datatype: Option<String>, language: Option<String> },
    Triple { subject: IriOrBlankNode, predicate: String, object: Box<RawTerm> },
}

/// Mathematical view of a [`RawTerm`].
pub enum RawTermV {
    Iri(Seq<char>),
    BlankNode(Seq<char>),
    Literal { value: Seq<char>, datatype: Option<Seq<char>>, language: Option<Seq<char>> },
    Triple { subject: SubjectV, predicate: Seq<char>, object: Box<RawTermV> },
}

impl RawTerm {
    /// The term this value describes.
    pub open spec fn view_of(&self) -> RawTermV
        decreases self,
    {
        match self {
            RawTerm::Iri(i) => RawTermV::Iri(i@),
            RawTerm::BlankNode(b) => RawTermV::BlankNode(b@),
            RawTerm::Literal { value, datatype, language } => RawTermV::Literal {
                value: value@,
                datatype: opt_view(*datatype),
                language: opt_view(*language),
            },
            RawTerm::Triple { subject, predicate, object } => RawTermV::Triple {
                subject: subject@,
                predicate: predicate@,
                object: Box::new((**object).view_of()),
            },
        }
    }
}

impl View for RawTerm {
    type V = RawTermV;

    open spec fn view(&self) -> RawTermV {
        self.view_of()
    }
}

/// A triple as an RDF reader hands it over.
pub struct RawTriple {
    pub subject: IriOrBlankNode,
    pub predicate: String,
    pub object: RawTerm,
}

/// Mathematical view of a [`RawTriple`].
pub struct RawTripleV {
    pub subject: SubjectV,
    pub predicate: Seq<char>,
    pub object: RawTermV,
}

impl View for RawTriple {
    type V = RawTripleV;

    open spec fn view(&self) -> RawTripleV {
        RawTripleV { subject: self.subject@, predicate: self.predicate@, object: self.object@ }
    }
}

/// The views of a sequence of read triples.
pub open spec fn raw_views(s: Seq<RawTriple>) -> Seq<RawTripleV> {
    s.map_values(|t: RawTriple| t@)
}

/// The term a read term stands for: a literal as [`value_literal`] reads its parts.
pub open spec fn raw_object(t: RawTermV) -> ObjectV
    decreases t,
{
    match t {
        RawTermV::Iri(i) => ObjectV::Iri(i),
        RawTermV::BlankNode(b) => ObjectV::BlankNode(b),
        RawTermV::Literal { value, datatype, language } => ObjectV::Literal(
            value_literal(TermValueV { term_type: "Literal"@, value, datatype, language }),
        ),
        RawTermV::Triple { subject, predicate, object } => ObjectV::Triple {
            subject,
            predicate,
            object: Box::new(raw_object(*object)),
        },
    }
}

/// The triple a read triple stands for.
pub open spec fn raw_triple(t: RawTripleV) -> TripleV {
    TripleV { subject: t.subject, predicate: t.predicate, object: raw_object(t.object) }
}

/// The triples that read triples stand for, in order.
pub open spec fn raw_graph(ts: Seq<RawTripleV>) -> Seq<TripleV> {
    ts.map_values(|t: RawTripleV| raw_triple(t))
}

/// A blank node label renamed by `f`; an IRI is kept.
pub open spec fn relabel_subject(s: SubjectV, f: spec_fn(Seq<char>) -> Seq<char>) -> SubjectV {
    match s {
        SubjectV::Iri(i) => SubjectV::Iri(i),
        SubjectV::BlankNode(b) => SubjectV::BlankNode(f(b)),
    }
}

/// A read term with each blank node label renamed by `f`.
pub open spec fn relabel_term(t: RawTermV, f: spec_fn(Seq<char>) -> Seq<char>) -> RawTermV
    decreases t,
{
    match t {
        RawTermV::BlankNode(b) => RawTermV::BlankNode(f(b)),
        RawTermV::Triple { subject, predicate, object } => RawTermV::Triple {
            subject: relabel_subject(subject, f),
            predicate,
            object: Box::new(relabel_term(*object, f)),
        },
        _ => t,
    }
}

/// A read triple with each blank node label renamed by `f`.
pub open spec fn relabel_triple(t: RawTripleV, f: spec_fn(Seq<char>) -> Seq<char>) -> RawTripleV {
    RawTripleV {
        subject: relabel_subject(t.subject, f),
        predicate: t.predicate,
        object: relabel_term(t.object, f),
    }
}

/// `f` renames only the labels in `anon`.
pub open spec fn renames_only(f: spec_fn(Seq<char>) -> Seq<char>, anon: Set<Seq<char>>) -> bool {
    forall|l: Seq<char>| !anon.contains(l) ==> #[trigger] f(l) == l
}

/// `actual` is `named` with the labels in `anon` renamed.
pub open spec fn same_up_to_labels(
    actual: Seq<RawTripleV>,
    named: Seq<RawTripleV>,
    anon: Set<Seq<char>>,
) -> bool {
    exists|f: spec_fn(Seq<char>) -> Seq<char>|
        renames_only(f, anon) && actual == named.map_values(|t: RawTripleV| relabel_triple(t, f))
}

/// The term a read term stands for.
pub fn object_from_raw(t: RawTerm) -> (r: Object)
    ensures
        r@ == raw_object(t@),
    decreases t,
{
    match t {
        RawTerm::Iri(i) => Object::Iri(i),
        RawTerm::BlankNode(b) => Object::BlankNode(b),
        RawTerm::Literal { value, datatype, language } => {
            let v = TermValue { term_type: crate::text::owned("Literal"), value, datatype, language };
            Object::Literal(literal_of(&v))
        },
        RawTerm::Triple { subject, predicate, object } => {
            let o = object_from_raw(*object);
            Object::Triple { subject: Box::new(subject), predicate, object: Box::new(o) }
        },
    }
}

/// The triples that read triples stand for, in order.
pub fn triples_from_raw(ts: Vec<RawTriple>) -> (r: Vec<crate::graph::Triple>)
    ensures
        triple_views(r@) == raw_graph(raw_views(ts@)),
{
    let ghost tv = raw_views(ts@);
    let mut ts = ts;
    let mut rev: Vec<crate::graph::Triple> = Vec::new();
    while ts.len() > 0
        invariant
            ts.len() + rev.len() == tv.len(),
            raw_views(ts@) == tv.take(ts.len() as int),
            forall|k: int| 0 <= k < rev.len() ==> #[trigger] rev@[k]@ == raw_triple(tv[tv.len() - 1 - k]),
        decreases ts.len(),
    {
        let ghost before = ts@;
        let t = ts.pop().unwrap();
        assert(t@ == tv[ts.len() as int]) by {
            assert(raw_views(before)[ts.len() as int] == before[ts.len() as int]@);
        }
        assert(raw_views(ts@) =~= tv.take(ts.len() as int));
        let o = object_from_raw(t.object);
        rev.push(crate::graph::Triple { subject: t.subject, predicate: t.predicate, object: o });
    }
    let mut r: Vec<crate::graph::Triple> = Vec::new();
    while rev.len() > 0
        invariant
            r.len() + rev.len() == tv.len(),
            forall|k: int| 0 <= k < rev.len() ==> #[trigger] rev@[k]@ == raw_triple(tv[tv.len() - 1 - k]),
            forall|k: int| 0 <= k < r.len() ==> #[trigger] r@[k]@ == raw_triple(tv[k]),
        decreases rev.len(),
    {
        let t = rev.pop().unwrap();
        r.push(t);
    }
    assert(triple_views(r@) =~= raw_graph(tv));
    r
}

/// An oxrdf subject as the library's: `NamedNode::into_string` /
/// `BlankNode::into_string` of oxrdf, moved into the matching variant.
#[verifier::external_body]
fn subject_of(s: oxrdf::NamedOrBlankNode) -> (r: IriOrBlankNode) {
    match s {
        oxrdf::NamedOrBlankNode::NamedNode(n) => IriOrBlankNode::Iri(n.into_string()),
        oxrdf::NamedOrBlankNode::BlankNode(b) => IriOrBlankNode::BlankNode(b.into_string()),
    }
}

/// An oxrdf term as a read term: IRIs, blank nodes and quoted triples moved
/// over; a literal split by oxrdf's `Literal::destruct` into text, datatype
/// and language tag (its base direction dropped). Nothing is stated of the
/// result: the readers' contracts speak of what they read as a whole.
#[verifier::external_body]
fn object_of(t: oxrdf::Term) -> (r: RawTerm) {
    match t {
        oxrdf::Term::NamedNode(n) => RawTerm::Iri(n.into_string()),
        oxrdf::Term::BlankNode(b) => RawTerm::BlankNode(b.into_string()),
        oxrdf::Term::Literal(l) => {
            let (value, datatype, language, _) = l.destruct();
            RawTerm::Literal { value, datatype: datatype.map(oxrdf::NamedNode::into_string), language }
        },
        oxrdf::Term::Triple(t) => RawTerm::Triple {
            subject: subject_of(t.subject),
            predicate: t.predicate.into_string(),
            object: Box::new(object_of(t.object)),
        },
    }
}

/// The library's subject as an oxrdf one, through oxrdf's
/// `NamedNode::new_unchecked` / `BlankNode::new_unchecked`.
#[verifier::external_body]
fn ox_subject(s: &IriOrBlankNode) -> (r: oxrdf::NamedOrBlankNode) {
    match s {
        IriOrBlankNode::Iri(i) => oxrdf::NamedNode::new_unchecked(i.as_str()).into(),
        IriOrBlankNode::BlankNode(b) => oxrdf::BlankNode::new_unchecked(b.as_str()).into(),
    }
}

/// The library's literal as an oxrdf term, through oxrdf's literal
/// constructors (`new_language_tagged_literal_unchecked`,
/// `new_simple_literal`, `new_typed_literal`, `From<i64>`, `From<bool>`).
#[verifier::external_body]
fn ox_literal(l: &Literal) -> (r: oxrdf::Term) {
    match l {
        Literal::StringLiteral { lexical_form, lang: Some(lang) } => {
            oxrdf::Literal::new_language_tagged_literal_unchecked(lexical_form.as_str(), lang.as_str()).into()
        },
        Literal::StringLiteral { lexical_form, lang: None } => oxrdf::Literal::new_simple_literal(lexical_form.as_str()).into(),
        Literal::DatatypeLiteral { lexical_form, datatype } => {
            oxrdf::Literal::new_typed_literal(lexical_form.as_str(), oxrdf::NamedNode::new_unchecked(datatype.as_str())).into()
        },
        Literal::IntegerLiteral(n) => oxrdf::Literal::from(*n).into(),
        Literal::BooleanLiteral(b) => oxrdf::Literal::from(*b).into(),
    }
}

/// The library's term as an oxrdf one, through oxrdf's unchecked
/// constructors and `Triple::new` for a quoted triple.
#[verifier::external_body]
fn ox_term(o: &Object) -> (r: oxrdf::Term) {
    match o {
        Object::Iri(i) => oxrdf::NamedNode::new_unchecked(i.as_str()).into(),
        Object::BlankNode(b) => oxrdf::BlankNode::new_unchecked(b.as_str()).into(),
        Object::Literal(l) => ox_literal(l),
        Object::Triple { subject, predicate, object } => oxrdf::Term::Triple(Box::new(
            oxrdf::Triple::new(ox_subject(subject), oxrdf::NamedNode::new_unchecked(predicate.as_str()), ox_term(object)),
        )),
    }
}

/// What `oxttl::TurtleParser` (lenient) reads from text: its triples in
/// order, with the labels that the parser invents for unnamed blank nodes
/// standing as the labels in the set; and the prefixes that the text
/// declares (alias, namespace), the last declaration of an alias winning;
/// or the first syntax error's message.
pub uninterp spec fn turtle_read(text: Seq<char>) -> Result<
    (Seq<RawTripleV>, Set<Seq<char>>, Set<(Seq<char>, Seq<char>)>),
    Seq<char>,
>;

/// `oxttl::TurtleParser` (lenient) over `text`: its triples and the prefixes
/// it declares, or the first syntax error's message. The parser labels each
/// unnamed blank node at random (`BlankNode::default`) and keeps the labels
/// that the text writes, so the contract states the triples up to a renaming
/// of the invented labels; that the renaming is one to one is left unsaid, as
/// random labels may in principle meet. The prefixes come from a `HashMap`,
/// so only their set is stated.
#[verifier::external_body]
fn read_turtle(text: &str) -> (r: Result<(Vec<RawTriple>, Vec<(String, String)>), String>)
    ensures
        match r {
            Ok((ts, ps)) => turtle_read(text@) matches Ok((named, anon, prefixes)) && same_up_to_labels(
                raw_views(ts@),
                named,
                anon,
            ) && pair_views(ps@).to_set() == prefixes,
            Err(e) => turtle_read(text@) == Err::<(Seq<RawTripleV>, Set<Seq<char>>, Set<(Seq<char>, Seq<char>)>), Seq<char>>(e@),
        },
{
    let mut parser = oxttl::TurtleParser::new().lenient().for_slice(text);
    let mut triples = Vec::new();
    while let Some(t) = parser.next() {
        let t = t.map_err(|e| e.to_string())?;
        triples.push(RawTriple { subject: subject_of(t.subject), predicate: t.predicate.into_string(), object: object_of(t.object) });
    }
    let prefixes = parser.prefixes().map(|(a, n)| (a.to_string(), n.to_string())).collect();
    Ok((triples, prefixes))
}

/// What `oxttl::NTriplesParser` (lenient) reads from text: its triples in
/// order, or the first syntax error's message.
pub uninterp spec fn ntriples_read(text: Seq<char>) -> Result<Seq<RawTripleV>, Seq<char>>;

/// `oxttl::NTriplesParser` (lenient) over `text`: its triples, or the first
/// syntax error's message. N-Triples names every blank node, and the parser
/// keeps the names, so the result is a function of the text: the contract
/// names it (`ntriples_read`); what the parser accepts is oxttl's.
#[verifier::external_body]
fn read_ntriples(text: &str) -> (r: Result<Vec<RawTriple>, String>)
    ensures
        match r {
            Ok(ts) => ntriples_read(text@) == Ok::<Seq<RawTripleV>, Seq<char>>(raw_views(ts@)),
            Err(e) => ntriples_read(text@) == Err::<Seq<RawTripleV>, Seq<char>>(e@),
        },
{
    let mut triples = Vec::new();
    for t in oxttl::NTriplesParser::new().lenient().for_slice(text) {
        let t = t.map_err(|e| e.to_string())?;
        triples.push(RawTriple { subject: subject_of(t.subject), predicate: t.predicate.into_string(), object: object_of(t.object) });
    }
    Ok(triples)
}

/// What `oxjsonld::JsonLdParser` (lenient) reads from text: the triples of
/// its quads in order, graph names dropped, with the labels that the parser
/// invents for unnamed nodes standing as the labels in the set; or the first
/// error's message.
pub uninterp spec fn jsonld_read(text: Seq<char>) -> Result<(Seq<RawTripleV>, Set<Seq<char>>), Seq<char>>;

/// `oxjsonld::JsonLdParser` (lenient) over `text`: its quads without their
/// graph names, or the first error's message. The parser labels unnamed
/// nodes at random (`BlankNode::default`) and keeps the `_:` labels that the
/// text writes, so the contract states the triples up to a renaming of the
/// invented labels; that the renaming is one to one is left unsaid.
#[verifier::external_body]
fn read_jsonld(text: &str) -> (r: Result<Vec<RawTriple>, String>)
    ensures
        match r {
            Ok(ts) => jsonld_read(text@) matches Ok((named, anon)) && same_up_to_labels(raw_views(ts@), named, anon),
            Err(e) => jsonld_read(text@) == Err::<(Seq<RawTripleV>, Set<Seq<char>>), Seq<char>>(e@),
        },
{
    let mut triples = Vec::new();
    for q in oxjsonld::JsonLdParser::new().lenient().for_slice(text) {
        let q = q.map_err(|e| e.to_string())?;
        triples.push(RawTriple { subject: subject_of(q.subject), predicate: q.predicate.into_string(), object: object_of(q.object) });
    }
    Ok(triples)
}

/// What `oxttl::TurtleSerializer` writes for prefix declarations and
/// triples: the text, or the writer's message.
pub uninterp spec fn turtle_written(prefixes: Seq<(Seq<char>, Seq<char>)>, triples: Seq<TripleV>) -> Result<
    Seq<char>,
    Seq<char>,
>;

/// `oxttl::TurtleSerializer` with the prefixes, writing `triples` in order:
/// the text, or the writer's message. The contract names the result
/// (`turtle_written`); the text's layout is oxttl's.
#[verifier::external_body]
fn write_turtle(prefixes: &Vec<(String, String)>, triples: &Vec<crate::graph::Triple>) -> (r: Result<String, String>)
    ensures
        match r {
            Ok(t) => turtle_written(pair_views(prefixes@), triple_views(triples@)) == Ok::<Seq<char>, Seq<char>>(t@),
            Err(e) => turtle_written(pair_views(prefixes@), triple_views(triples@)) == Err::<Seq<char>, Seq<char>>(e@),
        },
{
    let mut s = oxttl::TurtleSerializer::new();
    for (alias, namespace) in prefixes {
        s = s.with_prefix(alias.as_str(), namespace.as_str()).map_err(|e| e.to_string())?;
    }
    let mut w = s.for_writer(Vec::new());
    for t in triples {
        let t = oxrdf::Triple::new(ox_subject(&t.subject), oxrdf::NamedNode::new_unchecked(t.predicate.as_str()), ox_term(&t.object));
        w.serialize_triple(&t).map_err(|e| e.to_string())?;
    }
    String::from_utf8(w.finish().map_err(|e| e.to_string())?).map_err(|e| e.to_string())
}

/// What `oxttl::NTriplesSerializer` writes for triples: the text, or the
/// writer's message.
pub uninterp spec fn ntriples_written(triples: Seq<TripleV>) -> Result<Seq<char>, Seq<char>>;

/// `oxttl::NTriplesSerializer` writing `triples` in order: the text, or the
/// writer's message. The contract names the result (`ntriples_written`).
#[verifier::external_body]
fn write_ntriples(triples: &Vec<crate::graph::Triple>) -> (r: Result<String, String>)
    ensures
        match r {
            Ok(t) => ntriples_written(triple_views(triples@)) == Ok::<Seq<char>, Seq<char>>(t@),
            Err(e) => ntriples_written(triple_views(triples@)) == Err::<Seq<char>, Seq<char>>(e@),
        },
{
    let mut w = oxttl::NTriplesSerializer::new().for_writer(Vec::new());
    for t in triples {
        let t = oxrdf::Triple::new(ox_subject(&t.subject), oxrdf::NamedNode::new_unchecked(t.predicate.as_str()), ox_term(&t.object));
        w.serialize_triple(&t).map_err(|e| e.to_string())?;
    }
    String::from_utf8(w.finish()).map_err(|e| e.to_string())
}

/// What `oxjsonld::JsonLdSerializer` writes for prefix declarations and
/// triples in the default graph: the text, or the writer's message.
pub uninterp spec fn jsonld_written(prefixes: Seq<(Seq<char>, Seq<char>)>, triples: Seq<TripleV>) -> Result<
    Seq<char>,
    Seq<char>,
>;

/// `oxjsonld::JsonLdSerializer` with the prefixes, writing `triples` in the
/// default graph: the text, or the writer's message. The contract names the
/// result (`jsonld_written`); the text's layout is oxjsonld's.
#[verifier::external_body]
fn write_jsonld(prefixes: &Vec<(String, String)>, triples: &Vec<crate::graph::Triple>) -> (r: Result<String, String>)
    ensures
        match r {
            Ok(t) => jsonld_written(pair_views(prefixes@), triple_views(triples@)) == Ok::<Seq<char>, Seq<char>>(t@),
            Err(e) => jsonld_written(pair_views(prefixes@), triple_views(triples@)) == Err::<Seq<char>, Seq<char>>(e@),
        },
{
    let mut s = oxjsonld::JsonLdSerializer::new();
    for (alias, namespace) in prefixes {
        s = s.with_prefix(alias.as_str(), namespace.as_str()).map_err(|e| e.to_string())?;
    }
    let mut w = s.for_writer(Vec::new());
    for t in triples {
        let t = oxrdf::Triple::new(ox_subject(&t.subject), oxrdf::NamedNode::new_unchecked(t.predicate.as_str()), ox_term(&t.object));
        w.serialize_quad(t.as_ref().in_graph(oxrdf::GraphNameRef::DefaultGraph)).map_err(|e| e.to_string())?;
    }
    String::from_utf8(w.finish().map_err(|e| e.to_string())?).map_err(|e| e.to_string())
}

/// The graph of `triples` (each once, at its first occurrence) declaring
/// `prefixes`.
pub fn graph_of(triples: Vec<crate::graph::Triple>, prefixes: &Vec<(String, String)>) -> (r: Graph)
    ensures
        r@.to_set() == crate::graph::triple_views(triples@).to_set(),
        r@.no_duplicates(),
        r.prefix_view() == crate::text::pair_views(prefixes@),
{
    let mut g = Graph::new();
    let ghost tv = crate::graph::triple_views(triples@);
    let mut triples = triples;
    let mut i: usize = 0;
    while i < triples.len()
        invariant
            i <= triples.len(),
            tv == crate::graph::triple_views(triples@),
            g@.to_set() == tv.take(i as int).to_set(),
        decreases triples.len() - i,
    {
        let t = triples[i].clone();
        let ghost before = g@;
        assert(t@ == tv[i as int]);
        g.add(t);
        proof {
            assert(tv.take(i as int + 1) =~= tv.take(i as int).push(tv[i as int]));
            assert forall|x: crate::graph::TripleV|
                g@.to_set().contains(x) <==> tv.take(i as int + 1).to_set().contains(x) by {
                vstd::seq_lib::lemma_seq_contains_after_push(before, tv[i as int], x);
                vstd::seq_lib::lemma_seq_contains_after_push(tv.take(i as int), tv[i as int], x);
                assert(before.to_set().contains(x) <==> tv.take(i as int).to_set().contains(x));
                assert(g@.contains(x) <==> before.contains(x) || x == tv[i as int]);
            }
            assert(g@.to_set() =~= tv.take(i as int + 1).to_set());
        }
        i = i + 1;
    }
    assert(tv.take(triples.len() as int) =~= tv);
    g.set_prefixes(prefixes);
    let _ = g.len();
    g
}

/// `g` holds the triples that `named` stands for, with the labels in `anon`
/// renamed one way or another.
pub open spec fn read_as(g: Seq<TripleV>, named: Seq<RawTripleV>, anon: Set<Seq<char>>) -> bool {
    exists|f: spec_fn(Seq<char>) -> Seq<char>|
        renames_only(f, anon) && g.to_set() == raw_graph(
            named.map_values(|t: RawTripleV| relabel_triple(t, f)),
        ).to_set()
}

/// What reading text in a format gives: the graph of the triples that the
/// format's parser reads (each once), with the prefixes that a Turtle text
/// declares; the labels that Turtle and JSON-LD parsers invent for unnamed
/// blank nodes are their own. Or the parser's message as a `Parse` error.
pub open spec fn text_read(text: Seq<char>, format: RDFFormat, r: Result<Graph, FormError>) -> bool {
    match format {
        RDFFormat::NTriples => match ntriples_read(text) {
            Ok(ts) => r matches Ok(g) && g@.to_set() == raw_graph(ts).to_set() && g@.no_duplicates()
                && g.prefix_view() == Seq::<(Seq<char>, Seq<char>)>::empty(),
            Err(m) => r matches Err(FormError::Parse(e)) && e@ == m,
        },
        RDFFormat::Turtle => match turtle_read(text) {
            Ok((ts, anon, prefixes)) => r matches Ok(g) && read_as(g@, ts, anon) && g@.no_duplicates()
                && g.prefix_view().to_set() == prefixes,
            Err(m) => r matches Err(FormError::Parse(e)) && e@ == m,
        },
        RDFFormat::JsonLd => match jsonld_read(text) {
            Ok((ts, anon)) => r matches Ok(g) && read_as(g@, ts, anon) && g@.no_duplicates()
                && g.prefix_view() == Seq::<(Seq<char>, Seq<char>)>::empty(),
            Err(m) => r matches Err(FormError::Parse(e)) && e@ == m,
        },
    }
}

/// The format's parser reads the text without an error.
pub open spec fn text_readable(text: Seq<char>, format: RDFFormat) -> bool {
    match format {
        RDFFormat::NTriples => ntriples_read(text) is Ok,
        RDFFormat::Turtle => turtle_read(text) is Ok,
        RDFFormat::JsonLd => jsonld_read(text) is Ok,
    }
}

/// Read triples that are a renaming of `named` stand for the renamed triples.
proof fn lemma_read_as(actual: Seq<RawTripleV>, named: Seq<RawTripleV>, anon: Set<Seq<char>>, g: Seq<TripleV>)
    requires
        same_up_to_labels(actual, named, anon),
        g.to_set() == raw_graph(actual).to_set(),
    ensures
        read_as(g, named, anon),
{
    let f = choose|f: spec_fn(Seq<char>) -> Seq<char>|
        renames_only(f, anon) && actual == named.map_values(|t: RawTripleV| relabel_triple(t, f));
    assert(renames_only(f, anon) && g.to_set() == raw_graph(
        named.map_values(|t: RawTripleV| relabel_triple(t, f)),
    ).to_set());
}

/// Reads RDF text in `format` into a graph; the parser's message as a
/// `Parse` error.
pub fn parse_text(text: &str, format: &RDFFormat) -> (r: Result<Graph, FormError>)
    ensures
        text_read(text@, *format, r),
        r is Ok <==> text_readable(text@, *format),
{
    let none: Vec<(String, String)> = Vec::new();
    assert(pair_views(none@) =~= Seq::<(Seq<char>, Seq<char>)>::empty());
    match format {
        RDFFormat::Turtle => match read_turtle(text) {
            Ok((raw, prefixes)) => {
                let ghost rv = raw_views(raw@);
                let g = graph_of(triples_from_raw(raw), &prefixes);
                proof {
                    let (named, anon, ps) = turtle_read(text@)->Ok_0;
                    lemma_read_as(rv, named, anon, g@);
                }
                Ok(g)
            },
            Err(m) => Err(FormError::Parse(m)),
        },
        RDFFormat::NTriples => match read_ntriples(text) {
            Ok(raw) => Ok(graph_of(triples_from_raw(raw), &none)),
            Err(m) => Err(FormError::Parse(m)),
        },
        RDFFormat::JsonLd => match read_jsonld(text) {
            Ok(raw) => {
                let ghost rv = raw_views(raw@);
                let g = graph_of(triples_from_raw(raw), &none);
                proof {
                    let (named, anon) = jsonld_read(text@)->Ok_0;
                    lemma_read_as(rv, named, anon, g@);
                }
                Ok(g)
            },
            Err(m) => Err(FormError::Parse(m)),
        },
    }
}

/// What writing triples with prefix declarations in a format gives: the
/// text that the format's writer produces, or its message.
pub open spec fn text_written(format: RDFFormat, prefixes: Seq<(Seq<char>, Seq<char>)>, triples: Seq<TripleV>) -> Result<
    Seq<char>,
    Seq<char>,
> {
    match format {
        RDFFormat::Turtle => turtle_written(prefixes, triples),
        RDFFormat::NTriples => ntriples_written(triples),
        RDFFormat::JsonLd => jsonld_written(prefixes, triples),
    }
}

/// The result of writing: the text, or the writer's message as a
/// `Serialize` error.
pub open spec fn written_as(w: Result<Seq<char>, Seq<char>>, r: Result<String, FormError>) -> bool {
    match w {
        Ok(t) => r matches Ok(s) && s@ == t,
        Err(m) => r matches Err(FormError::Serialize(e)) && e@ == m,
    }
}

/// Writes a graph as RDF text in `format`: its triples in graph order, with
/// its prefix declarations; the writer's message as a `Serialize` error.
pub fn serialize_text(g: &Graph, format: &RDFFormat) -> (r: Result<String, FormError>)
    ensures
        written_as(text_written(*format, g.prefix_view(), g@), r),
{
    let triples = g.triples();
    let prefixes = g.prefixes();
    let written = match format {
        RDFFormat::Turtle => write_turtle(&prefixes, &triples),
        RDFFormat::NTriples => write_ntriples(&triples),
        RDFFormat::JsonLd => write_jsonld(&prefixes, &triples),
    };
    match written {
        Ok(s) => Ok(s),
        Err(m) => Err(FormError::Serialize(m)),
    }
}

} // verus!
