//! Compiled constraint components and how they are written back to a graph.
use vstd::prelude::*;
use crate::error::IRError;
use crate::graph::{Graph, TripleV, fresh_label, lemma_with_triples_concat, with_triples};
use crate::message_map::MessageMap;
use crate::term::{IriOrBlankNode, Literal, LiteralV, Object, ObjectV, SubjectV, literal_lexical, object_as_subject};
use crate::types::{IriRef, IriRefV, NodeKind, Value, node_kind_iri, value_term};
use crate::ast::{ASTComponent, ASTSchema};
use crate::text::{clone_pairs, clone_strings, owned, pair_views, views};
use crate::term::opt_view;
use crate::vocab;
use std::collections::HashMap;

verus! {

/// `sh:pattern` with its optional flags.
pub struct Pattern {
    pub pattern: String,
    pub flags: Option<String>,
}

/// `sh:closed` with the properties it ignores.
pub struct Closed {
    pub is_closed: bool,
    pub ignored_properties: Vec<String>,
}

/// `sh:qualifiedValueShape`: the qualified shape, its bounds and siblings.
pub struct QualifiedValueShape {
    pub shape: usize,
    pub qualified_min_count: Option<isize>,
    pub qualified_max_count: Option<isize>,
    pub qualified_value_shapes_disjoint: Option<bool>,
    pub siblings: Vec<usize>,
}

/// A SPARQL-based constraint (`sh:sparql`).
pub struct BasicSparql {
    pub select: String,
    pub deactivated: Option<bool>,
    pub prefixes: Option<Vec<(String, String)>>,
    pub message: Option<MessageMap>,
}

/// A compiled SHACL constraint component. Shapes that a component refers to
/// are held by their index in the compiled schema.
pub enum IRComponent {
    Class(Object),
    Datatype(String),
    NodeKind(NodeKind),
    MinCount(isize),
    MaxCount(isize),
    MinExclusive(Literal),
    MaxExclusive(Literal),
    MinInclusive(Literal),
    MaxInclusive(Literal),
    MinLength(isize),
    MaxLength(isize),
    Pattern(Pattern),
    UniqueLang(bool),
    LanguageIn(Vec<String>),
    Equals(String),
    Disjoint(String),
    LessThan(String),
    LessThanOrEquals(String),
    Or(Vec<usize>),
    And(Vec<usize>),
    Not(usize),
    Xone(Vec<usize>),
    Node(usize),
    HasValue(Object),
    In(Vec<Object>),
    QualifiedValueShape(QualifiedValueShape),
    Closed(Closed),
    Deactivated(bool),
    BasicSparql(BasicSparql),
}

// ---------------------------------------------------------------------------
// What a component writes
// ---------------------------------------------------------------------------

/// Why writing a component stopped.
pub enum RegisterFailure {
    InvalidShapeId(ObjectV),
    ShapeNotFound(usize),
    UnexpectedValue(ObjectV),
}

/// The triples written so far and, if writing stopped, why.
pub type Plan = (Seq<TripleV>, Option<RegisterFailure>);

/// Nothing written, nothing failed.
pub open spec fn done() -> Plan {
    (Seq::empty(), None)
}

/// `p`, then `q` unless `p` stopped.
pub open spec fn then(p: Plan, q: Plan) -> Plan {
    if p.1 is Some {
        p
    } else {
        (p.0 + q.0, q.1)
    }
}

/// A triple from its parts.
pub open spec fn trip(s: SubjectV, p: Seq<char>, o: ObjectV) -> TripleV {
    TripleV { subject: s, predicate: p, object: o }
}

/// A plain string literal.
pub open spec fn plain(s: Seq<char>) -> ObjectV {
    ObjectV::Literal(LiteralV::Str { lexical: s, lang: None })
}

/// Writes `(id, pred, o)`: stops when `id` cannot be a subject.
pub open spec fn put(id: ObjectV, pred: Seq<char>, o: ObjectV) -> Plan {
    match object_as_subject(id) {
        Some(s) => (seq![trip(s, pred, o)], None),
        None => (Seq::empty(), Some(RegisterFailure::InvalidShapeId(id))),
    }
}

/// Writes `(id, pred, o)` for each `o` in turn.
pub open spec fn put_each(id: ObjectV, pred: Seq<char>, os: Seq<ObjectV>) -> Plan
    decreases os.len(),
{
    if os.len() == 0 {
        done()
    } else {
        then(put_each(id, pred, os.drop_last()), put(id, pred, os.last()))
    }
}

/// The id of the shape with index `idx` in the shape table.
pub open spec fn shape_of(table: Map<usize, Object>, idx: usize) -> Option<ObjectV> {
    if table.contains_key(idx) {
        Some(table[idx]@)
    } else {
        None
    }
}

/// Writes `(id, pred, shape)` for the shape with index `idx`; stops when the
/// table does not hold it.
pub open spec fn put_shape(id: ObjectV, pred: Seq<char>, idx: usize, table: Map<usize, Object>) -> Plan {
    match shape_of(table, idx) {
        Some(o) => put(id, pred, o),
        None => (Seq::empty(), Some(RegisterFailure::ShapeNotFound(idx))),
    }
}

/// [`put_shape`] for each index in turn.
pub open spec fn put_shapes(id: ObjectV, pred: Seq<char>, idxs: Seq<usize>, table: Map<usize, Object>) -> Plan
    decreases idxs.len(),
{
    if idxs.len() == 0 {
        done()
    } else {
        then(put_shapes(id, pred, idxs.drop_last(), table), put_shape(id, pred, idxs.last(), table))
    }
}

/// Writes a value of `sh:hasValue` / `sh:in`: an IRI as itself, a literal as a
/// plain literal of its lexical form; anything else stops.
pub open spec fn put_value(id: ObjectV, pred: Seq<char>, v: ObjectV) -> Plan {
    match v {
        ObjectV::Iri(i) => put(id, pred, ObjectV::Iri(i)),
        ObjectV::Literal(l) => put(id, pred, plain(literal_lexical(l))),
        _ => (Seq::empty(), Some(RegisterFailure::UnexpectedValue(v))),
    }
}

/// [`put_value`] for each value in turn.
pub open spec fn put_values(id: ObjectV, pred: Seq<char>, vs: Seq<ObjectV>) -> Plan
    decreases vs.len(),
{
    if vs.len() == 0 {
        done()
    } else {
        then(put_values(id, pred, vs.drop_last()), put_value(id, pred, vs.last()))
    }
}

/// Writes an optional value.
pub open spec fn put_opt(id: ObjectV, pred: Seq<char>, o: Option<ObjectV>) -> Plan {
    match o {
        Some(v) => put(id, pred, v),
        None => done(),
    }
}

/// The view of an optional term.
pub open spec fn obj_opt(o: Option<Object>) -> Option<ObjectV> {
    match o {
        Some(v) => Some(v@),
        None => None,
    }
}

/// An integer literal.
pub open spec fn int_lit(n: isize) -> ObjectV {
    ObjectV::Literal(LiteralV::Int(n as int))
}

/// A boolean literal.
pub open spec fn bool_lit(b: bool) -> ObjectV {
    ObjectV::Literal(LiteralV::Bool(b))
}

/// The views of a vector of objects.
pub open spec fn objs(v: Seq<Object>) -> Seq<ObjectV> {
    v.map_values(|o: Object| o@)
}

/// What writing component `c` for the shape `id` does, `b` being the label of
/// the blank node that a SPARQL constraint gets.
pub open spec fn register_plan(c: IRComponent, id: ObjectV, table: Map<usize, Object>, b: Seq<char>) -> Plan {
    match c {
        IRComponent::Class(o) => put(id, vocab::sh_class_iri(), o@),
        IRComponent::Datatype(i) => put(id, vocab::sh_datatype_iri(), ObjectV::Iri(i@)),
        IRComponent::NodeKind(nk) => put(id, vocab::sh_node_kind_iri(), ObjectV::Iri(node_kind_iri(nk))),
        IRComponent::MinCount(n) => put(id, vocab::sh_min_count_iri(), int_lit(n)),
        IRComponent::MaxCount(n) => put(id, vocab::sh_max_count_iri(), int_lit(n)),
        IRComponent::MinExclusive(l) => put(id, vocab::sh_min_exclusive_iri(), plain(literal_lexical(l@))),
        IRComponent::MaxExclusive(l) => put(id, vocab::sh_max_exclusive_iri(), plain(literal_lexical(l@))),
        IRComponent::MinInclusive(l) => put(id, vocab::sh_min_inclusive_iri(), plain(literal_lexical(l@))),
        IRComponent::MaxInclusive(l) => put(id, vocab::sh_max_inclusive_iri(), plain(literal_lexical(l@))),
        IRComponent::MinLength(n) => put(id, vocab::sh_min_length_iri(), int_lit(n)),
        IRComponent::MaxLength(n) => put(id, vocab::sh_max_length_iri(), int_lit(n)),
        IRComponent::Pattern(p) => then(
            put_opt(
                id,
                vocab::sh_flags_iri(),
                match p.flags {
                    Some(f) => Some(plain(f@)),
                    None => None,
                },
            ),
            put(id, vocab::sh_pattern_iri(), plain(p.pattern@)),
        ),
        IRComponent::UniqueLang(u) => put(id, vocab::sh_unique_lang_iri(), bool_lit(u)),
        IRComponent::LanguageIn(langs) => put_each(
            id,
            vocab::sh_language_in_iri(),
            langs@.map_values(|l: String| plain(l@)),
        ),
        IRComponent::Equals(i) => put(id, vocab::sh_equals_iri(), ObjectV::Iri(i@)),
        IRComponent::Disjoint(i) => put(id, vocab::sh_disjoint_iri(), ObjectV::Iri(i@)),
        IRComponent::LessThan(i) => put(id, vocab::sh_less_than_iri(), ObjectV::Iri(i@)),
        IRComponent::LessThanOrEquals(i) => put(id, vocab::sh_less_than_or_equals_iri(), ObjectV::Iri(i@)),
        IRComponent::Or(v) => put_shapes(id, vocab::sh_or_iri(), v@, table),
        IRComponent::And(v) => put_shapes(id, vocab::sh_and_iri(), v@, table),
        IRComponent::Not(i) => put_shape(id, vocab::sh_not_iri(), i, table),
        IRComponent::Xone(v) => put_shapes(id, vocab::sh_xone_iri(), v@, table),
        IRComponent::Node(i) => put_shape(id, vocab::sh_node_iri(), i, table),
        IRComponent::HasValue(v) => put_value(id, vocab::sh_has_value_iri(), v@),
        IRComponent::In(vs) => put_values(id, vocab::sh_in_iri(), objs(vs@)),
        IRComponent::QualifiedValueShape(q) => then(
            then(
                then(
                    put_opt(
                        id,
                        vocab::sh_qualified_min_count_iri(),
                        match q.qualified_min_count {
                            Some(n) => Some(int_lit(n)),
                            None => None,
                        },
                    ),
                    put_opt(
                        id,
                        vocab::sh_qualified_max_count_iri(),
                        match q.qualified_max_count {
                            Some(n) => Some(int_lit(n)),
                            None => None,
                        },
                    ),
                ),
                put_opt(
                    id,
                    vocab::sh_qualified_value_shapes_disjoint_iri(),
                    match q.qualified_value_shapes_disjoint {
                        Some(d) => Some(bool_lit(d)),
                        None => None,
                    },
                ),
            ),
            put_shape(id, vocab::sh_qualified_value_shape_iri(), q.shape, table),
        ),
        IRComponent::Closed(c) => then(
            put(id, vocab::sh_closed_iri(), bool_lit(c.is_closed)),
            put_each(
                id,
                vocab::sh_ignored_properties_iri(),
                c.ignored_properties@.map_values(|p: String| ObjectV::Iri(p@)),
            ),
        ),
        IRComponent::Deactivated(d) => put(id, vocab::sh_deactivated_iri(), bool_lit(d)),
        IRComponent::BasicSparql(sp) => {
            let bn = ObjectV::BlankNode(b);
            then(
                then(
                    then(
                        then(
                            put(bn, vocab::sh_select_iri(), plain(sp.select@)),
                            put_each(
                                bn,
                                vocab::sh_message_iri(),
                                match sp.message {
                                    Some(m) => m.entries_view().map_values(
                                        |e: (Option<Seq<char>>, Seq<char>)| plain(e.1),
                                    ),
                                    None => Seq::empty(),
                                },
                            ),
                        ),
                        put_opt(
                            bn,
                            vocab::sh_deactivated_iri(),
                            match sp.deactivated {
                                Some(d) => Some(bool_lit(d)),
                                None => None,
                            },
                        ),
                    ),
                    put_each(
                        bn,
                        vocab::sh_prefixes_iri(),
                        match sp.prefixes {
                            Some(p) => p@.map_values(|e: (String, String)| ObjectV::Iri(e.1@)),
                            None => Seq::empty(),
                        },
                    ),
                ),
                put(id, vocab::sh_sparql_iri(), bn),
            )
        },
    }
}

/// The error that a failure is reported as.
pub open spec fn reports(r: Result<(), IRError>, f: Option<RegisterFailure>) -> bool {
    match f {
        None => r is Ok,
        Some(RegisterFailure::InvalidShapeId(o)) => r matches Err(IRError::InvalidShapeId(x)) && x@ == o,
        Some(RegisterFailure::ShapeNotFound(i)) => r matches Err(IRError::ShapeNotFound(j)) && i == j,
        Some(RegisterFailure::UnexpectedValue(o)) => r matches Err(IRError::UnexpectedValueTerm(x)) && x@
            == o,
    }
}

/// Running `then(p, q)` runs `p`, then `q` from where `p` left the graph.
pub proof fn lemma_then(g: Seq<TripleV>, p: Plan, q: Plan)
    requires
        p.1 is None,
    ensures
        with_triples(with_triples(g, p.0), q.0) == with_triples(g, then(p, q).0),
        then(p, q).1 == q.1,
{
    lemma_with_triples_concat(g, p.0, q.0);
}

// ---------------------------------------------------------------------------
// Writers
// ---------------------------------------------------------------------------

/// Writes `(id, pred, value)`.
fn put_term(value: Object, pred: String, id: &Object, graph: &mut Graph) -> (r: Result<(), IRError>)
    ensures
        final(graph)@ == with_triples(old(graph)@, put(id@, pred@, value@).0),
        reports(r, put(id@, pred@, value@).1),
        final(graph).prefix_view() == old(graph).prefix_view(),
{
    match id.as_subject() {
        Some(s) => {
            let ghost t = trip(s@, pred@, value@);
            let ghost g0 = graph@;
            graph.add_triple(s, pred, value);
            proof {
                assert(seq![t].drop_last() =~= Seq::<TripleV>::empty());
                assert(with_triples(g0, Seq::<TripleV>::empty()) == g0);
                assert(with_triples(g0, seq![t]) == crate::graph::with_triple(g0, t));
            }
            Ok(())
        },
        None => {
            assert(with_triples(old(graph)@, Seq::<TripleV>::empty()) == old(graph)@);
            Err(IRError::InvalidShapeId(id.clone()))
        },
    }
}

/// The id of the shape with index `idx` in the table.
fn find_shape(table: &HashMap<usize, Object>, idx: usize) -> (r: Option<Object>)
    ensures
        match shape_of(table@, idx) {
            Some(o) => r matches Some(x) && x@ == o,
            None => r is None,
        },
{
    broadcast use vstd::std_specs::hash::group_hash_axioms;
    match table.get(&idx) {
        Some(o) => Some(o.clone()),
        None => None,
    }
}

/// Writes `(id, pred, shape)` for the shape with index `idx`.
fn put_shape_ref(
    idx: usize,
    pred: String,
    id: &Object,
    table: &HashMap<usize, Object>,
    graph: &mut Graph,
) -> (r: Result<(), IRError>)
    ensures
        final(graph)@ == with_triples(old(graph)@, put_shape(id@, pred@, idx, table@).0),
        reports(r, put_shape(id@, pred@, idx, table@).1),
        final(graph).prefix_view() == old(graph).prefix_view(),
{
    match find_shape(table, idx) {
        Some(o) => put_term(o, pred, id, graph),
        None => Err(IRError::ShapeNotFound(idx)),
    }
}

/// Writes `(id, pred, shape)` for each index in turn, stopping at the first failure.
fn put_shape_refs(
    idxs: &Vec<usize>,
    pred: &String,
    id: &Object,
    table: &HashMap<usize, Object>,
    graph: &mut Graph,
) -> (r: Result<(), IRError>)
    ensures
        final(graph)@ == with_triples(old(graph)@, put_shapes(id@, pred@, idxs@, table@).0),
        reports(r, put_shapes(id@, pred@, idxs@, table@).1),
        final(graph).prefix_view() == old(graph).prefix_view(),
{
    let ghost g0 = graph@;
    let mut i: usize = 0;
    assert(idxs@.take(i as int) =~= Seq::<usize>::empty());
    assert(put_shapes(id@, pred@, idxs@.take(i as int), table@) == done());
    while i < idxs.len()
        invariant
            i <= idxs.len(),
            g0 == old(graph)@,
            graph@ == with_triples(g0, put_shapes(id@, pred@, idxs@.take(i as int), table@).0),
            put_shapes(id@, pred@, idxs@.take(i as int), table@).1 is None,
            graph.prefix_view() == old(graph).prefix_view(),
        decreases idxs.len() - i,
    {
        let ghost prev = put_shapes(id@, pred@, idxs@.take(i as int), table@);
        let ghost g1 = graph@;
        let res = put_shape_ref(idxs[i], pred.clone(), id, table, graph);
        proof {
            assert(idxs@.take(i as int + 1).drop_last() =~= idxs@.take(i as int));
            assert(idxs@.take(i as int + 1).last() == idxs@[i as int]);
            lemma_then(g0, prev, put_shape(id@, pred@, idxs@[i as int], table@));
            assert(put_shapes(id@, pred@, idxs@.take(i as int + 1), table@) == then(
                prev,
                put_shape(id@, pred@, idxs@[i as int], table@),
            ));
            assert(graph@ == with_triples(g0, put_shapes(id@, pred@, idxs@.take(i as int + 1), table@).0));
        }
        match res {
            Ok(()) => {},
            Err(e) => {
                proof {
                    assert(idxs@.take(i as int + 1) =~= idxs@.take(i as int + 1));
                    lemma_put_shapes_stop(id@, pred@, idxs@, table@, i as int + 1);
                }
                return Err(e);
            },
        }
        i = i + 1;
    }
    assert(idxs@.take(idxs.len() as int) =~= idxs@);
    Ok(())
}

/// Once writing shape references stops, later indices change nothing.
proof fn lemma_put_shapes_stop(id: ObjectV, pred: Seq<char>, idxs: Seq<usize>, table: Map<usize, Object>, k: int)
    requires
        0 <= k <= idxs.len(),
        put_shapes(id, pred, idxs.take(k), table).1 is Some,
    ensures
        put_shapes(id, pred, idxs, table) == put_shapes(id, pred, idxs.take(k), table),
    decreases idxs.len() - k,
{
    if k < idxs.len() {
        assert(idxs.take(k + 1).drop_last() =~= idxs.take(k));
        assert(put_shapes(id, pred, idxs.take(k + 1), table) == put_shapes(id, pred, idxs.take(k), table));
        lemma_put_shapes_stop(id, pred, idxs, table, k + 1);
    } else {
        assert(idxs.take(k) =~= idxs);
    }
}

/// Once writing terms stops, later terms change nothing.
proof fn lemma_put_each_stop(id: ObjectV, pred: Seq<char>, os: Seq<ObjectV>, k: int)
    requires
        0 <= k <= os.len(),
        put_each(id, pred, os.take(k)).1 is Some,
    ensures
        put_each(id, pred, os) == put_each(id, pred, os.take(k)),
    decreases os.len() - k,
{
    if k < os.len() {
        assert(os.take(k + 1).drop_last() =~= os.take(k));
        assert(put_each(id, pred, os.take(k + 1)) == put_each(id, pred, os.take(k)));
        lemma_put_each_stop(id, pred, os, k + 1);
    } else {
        assert(os.take(k) =~= os);
    }
}

/// Once writing values stops, later values change nothing.
proof fn lemma_put_values_stop(id: ObjectV, pred: Seq<char>, os: Seq<ObjectV>, k: int)
    requires
        0 <= k <= os.len(),
        put_values(id, pred, os.take(k)).1 is Some,
    ensures
        put_values(id, pred, os) == put_values(id, pred, os.take(k)),
    decreases os.len() - k,
{
    if k < os.len() {
        assert(os.take(k + 1).drop_last() =~= os.take(k));
        assert(put_values(id, pred, os.take(k + 1)) == put_values(id, pred, os.take(k)));
        lemma_put_values_stop(id, pred, os, k + 1);
    } else {
        assert(os.take(k) =~= os);
    }
}

/// Writes `(id, pred, v)` for each term `v` in turn, stopping at the first failure.
fn put_terms(values: &Vec<Object>, pred: &String, id: &Object, graph: &mut Graph) -> (r: Result<(), IRError>)
    ensures
        final(graph)@ == with_triples(old(graph)@, put_each(id@, pred@, objs(values@)).0),
        reports(r, put_each(id@, pred@, objs(values@)).1),
        final(graph).prefix_view() == old(graph).prefix_view(),
{
    let ghost g0 = graph@;
    let ghost os = objs(values@);
    let mut i: usize = 0;
    assert(os.take(i as int) =~= Seq::<ObjectV>::empty());
    assert(put_each(id@, pred@, os.take(i as int)) == done());
    while i < values.len()
        invariant
            i <= values.len(),
            g0 == old(graph)@,
            os == objs(values@),
            graph@ == with_triples(g0, put_each(id@, pred@, os.take(i as int)).0),
            put_each(id@, pred@, os.take(i as int)).1 is None,
            graph.prefix_view() == old(graph).prefix_view(),
        decreases values.len() - i,
    {
        let ghost prev = put_each(id@, pred@, os.take(i as int));
        let res = put_term(values[i].clone(), pred.clone(), id, graph);
        proof {
            assert(os.take(i as int + 1).drop_last() =~= os.take(i as int));
            assert(os.take(i as int + 1).last() == values@[i as int]@);
            lemma_then(g0, prev, put(id@, pred@, values@[i as int]@));
            assert(put_each(id@, pred@, os.take(i as int + 1)) == then(prev, put(id@, pred@, values@[i as int]@)));
        }
        match res {
            Ok(()) => {},
            Err(e) => {
                proof {
                    lemma_put_each_stop(id@, pred@, os, i as int + 1);
                }
                return Err(e);
            },
        }
        i = i + 1;
    }
    assert(os.take(values.len() as int) =~= os);
    Ok(())
}

/// Writes one value of `sh:hasValue` / `sh:in`.
fn put_value_term(v: &Object, pred: String, id: &Object, graph: &mut Graph) -> (r: Result<(), IRError>)
    ensures
        final(graph)@ == with_triples(old(graph)@, put_value(id@, pred@, v@).0),
        reports(r, put_value(id@, pred@, v@).1),
        final(graph).prefix_view() == old(graph).prefix_view(),
{
    match v {
        Object::Iri(i) => put_term(Object::Iri(i.clone()), pred, id, graph),
        Object::Literal(l) => put_term(Object::Literal(Literal::str(l.lexical_form().as_str())), pred, id, graph),
        _ => {
            assert(with_triples(old(graph)@, Seq::<TripleV>::empty()) == old(graph)@);
            Err(IRError::UnexpectedValueTerm(v.clone()))
        },
    }
}

/// Writes each value in turn, stopping at the first failure.
fn put_value_terms(values: &Vec<Object>, pred: &String, id: &Object, graph: &mut Graph) -> (r: Result<(), IRError>)
    ensures
        final(graph)@ == with_triples(old(graph)@, put_values(id@, pred@, objs(values@)).0),
        reports(r, put_values(id@, pred@, objs(values@)).1),
        final(graph).prefix_view() == old(graph).prefix_view(),
{
    let ghost g0 = graph@;
    let ghost os = objs(values@);
    let mut i: usize = 0;
    assert(os.take(i as int) =~= Seq::<ObjectV>::empty());
    assert(put_values(id@, pred@, os.take(i as int)) == done());
    while i < values.len()
        invariant
            i <= values.len(),
            g0 == old(graph)@,
            os == objs(values@),
            graph@ == with_triples(g0, put_values(id@, pred@, os.take(i as int)).0),
            put_values(id@, pred@, os.take(i as int)).1 is None,
            graph.prefix_view() == old(graph).prefix_view(),
        decreases values.len() - i,
    {
        let ghost prev = put_values(id@, pred@, os.take(i as int));
        let res = put_value_term(&values[i], pred.clone(), id, graph);
        proof {
            assert(os.take(i as int + 1).drop_last() =~= os.take(i as int));
            assert(os.take(i as int + 1).last() == values@[i as int]@);
            lemma_then(g0, prev, put_value(id@, pred@, values@[i as int]@));
            assert(put_values(id@, pred@, os.take(i as int + 1)) == then(prev, put_value(id@, pred@, values@[i as int]@)));
        }
        match res {
            Ok(()) => {},
            Err(e) => {
                proof {
                    lemma_put_values_stop(id@, pred@, os, i as int + 1);
                }
                return Err(e);
            },
        }
        i = i + 1;
    }
    assert(os.take(values.len() as int) =~= os);
    Ok(())
}

/// Writes an optional term.
fn put_opt_term(value: Option<Object>, pred: String, id: &Object, graph: &mut Graph) -> (r: Result<(), IRError>)
    ensures
        final(graph)@ == with_triples(old(graph)@, put_opt(id@, pred@, obj_opt(value)).0),
        reports(r, put_opt(id@, pred@, obj_opt(value)).1),
        final(graph).prefix_view() == old(graph).prefix_view(),
{
    match value {
        Some(v) => put_term(v, pred, id, graph),
        None => {
            assert(with_triples(old(graph)@, Seq::<TripleV>::empty()) == old(graph)@);
            Ok(())
        },
    }
}

/// Plain string literals for each string.
fn plain_terms(v: &Vec<String>) -> (r: Vec<Object>)
    ensures
        objs(r@) == v@.map_values(|l: String| plain(l@)),
{
    let mut r: Vec<Object> = Vec::new();
    let mut i: usize = 0;
    while i < v.len()
        invariant
            i <= v.len(),
            objs(r@) == v@.take(i as int).map_values(|l: String| plain(l@)),
        decreases v.len() - i,
    {
        let o = Object::Literal(Literal::str(v[i].as_str()));
        let ghost before = r@;
        r.push(o);
        assert(objs(r@) =~= objs(before).push(o@));
        assert(v@.take(i as int + 1) =~= v@.take(i as int).push(v@[i as int]));
        assert(v@.take(i as int + 1).map_values(|l: String| plain(l@)) =~= v@.take(i as int).map_values(
            |l: String| plain(l@),
        ).push(plain(v@[i as int]@)));
        i = i + 1;
    }
    assert(v@.take(v.len() as int) =~= v@);
    r
}

/// IRI terms for each string.
fn iri_terms(v: &Vec<String>) -> (r: Vec<Object>)
    ensures
        objs(r@) == v@.map_values(|p: String| ObjectV::Iri(p@)),
{
    let mut r: Vec<Object> = Vec::new();
    let mut i: usize = 0;
    while i < v.len()
        invariant
            i <= v.len(),
            objs(r@) == v@.take(i as int).map_values(|p: String| ObjectV::Iri(p@)),
        decreases v.len() - i,
    {
        let o = Object::Iri(v[i].clone());
        let ghost before = r@;
        r.push(o);
        assert(objs(r@) =~= objs(before).push(o@));
        assert(v@.take(i as int + 1) =~= v@.take(i as int).push(v@[i as int]));
        assert(v@.take(i as int + 1).map_values(|p: String| ObjectV::Iri(p@)) =~= v@.take(i as int).map_values(
            |p: String| ObjectV::Iri(p@),
        ).push(ObjectV::Iri(v@[i as int]@)));
        i = i + 1;
    }
    assert(v@.take(v.len() as int) =~= v@);
    r
}

/// The messages of a map, as plain literals, in entry order.
fn message_terms(m: &MessageMap) -> (r: Vec<Object>)
    ensures
        objs(r@) == m.entries_view().map_values(|e: (Option<Seq<char>>, Seq<char>)| plain(e.1)),
{
    let entries = m.messages();
    let ghost ev = crate::message_map::entry_views(entries@);
    let mut r: Vec<Object> = Vec::new();
    let mut i: usize = 0;
    while i < entries.len()
        invariant
            i <= entries.len(),
            ev == crate::message_map::entry_views(entries@),
            objs(r@) == ev.take(i as int).map_values(|e: (Option<Seq<char>>, Seq<char>)| plain(e.1)),
        decreases entries.len() - i,
    {
        let o = Object::Literal(Literal::str(entries[i].1.as_str()));
        let ghost before = r@;
        r.push(o);
        assert(ev[i as int] == crate::message_map::entry_view(entries@[i as int]));
        assert(objs(r@) =~= objs(before).push(o@));
        assert(ev.take(i as int + 1) =~= ev.take(i as int).push(ev[i as int]));
        assert(ev.take(i as int + 1).map_values(|e: (Option<Seq<char>>, Seq<char>)| plain(e.1)) =~= ev.take(
            i as int,
        ).map_values(|e: (Option<Seq<char>>, Seq<char>)| plain(e.1)).push(plain(ev[i as int].1)));
        i = i + 1;
    }
    assert(ev.take(entries.len() as int) =~= ev);
    r
}

/// The namespaces of a prefix list, as IRI terms.
fn namespace_terms(p: &Vec<(String, String)>) -> (r: Vec<Object>)
    ensures
        objs(r@) == p@.map_values(|e: (String, String)| ObjectV::Iri(e.1@)),
{
    let mut r: Vec<Object> = Vec::new();
    let mut i: usize = 0;
    while i < p.len()
        invariant
            i <= p.len(),
            objs(r@) == p@.take(i as int).map_values(|e: (String, String)| ObjectV::Iri(e.1@)),
        decreases p.len() - i,
    {
        let o = Object::Iri(p[i].1.clone());
        let ghost before = r@;
        r.push(o);
        assert(objs(r@) =~= objs(before).push(o@));
        assert(p@.take(i as int + 1) =~= p@.take(i as int).push(p@[i as int]));
        assert(p@.take(i as int + 1).map_values(|e: (String, String)| ObjectV::Iri(e.1@)) =~= p@.take(
            i as int,
        ).map_values(|e: (String, String)| ObjectV::Iri(e.1@)).push(ObjectV::Iri(p@[i as int].1@)));
        i = i + 1;
    }
    assert(p@.take(p.len() as int) =~= p@);
    r
}

/// An integer literal term.
fn int_term(n: isize) -> (r: Object)
    ensures
        r@ == int_lit(n),
{
    Object::Literal(Literal::IntegerLiteral(n as i64))
}

/// A boolean literal term.
fn bool_term(b: bool) -> (r: Object)
    ensures
        r@ == bool_lit(b),
{
    Object::Literal(Literal::BooleanLiteral(b))
}

/// A plain literal of a literal's lexical form.
fn lexical_term(l: &Literal) -> (r: Object)
    ensures
        r@ == plain(literal_lexical(l@)),
{
    Object::Literal(Literal::str(l.lexical_form().as_str()))
}

impl IRComponent {
    /// Writes this component as triples about the shape `id` into `graph`,
    /// stopping at the first failure; shapes it refers to are named by their
    /// ids in `shape_map`, keyed by shape index. A SPARQL constraint gets a
    /// fresh blank node.
    pub fn register(&self, id: &Object, graph: &mut Graph, shape_map: &HashMap<usize, Object>) -> (r: Result<(), IRError>)
        ensures
            final(graph)@ == with_triples(
                old(graph)@,
                register_plan(*self, id@, shape_map@, fresh_label(old(graph)@)).0,
            ),
            reports(r, register_plan(*self, id@, shape_map@, fresh_label(old(graph)@)).1),
            final(graph).prefix_view() == old(graph).prefix_view(),
    {
        let ghost g0 = graph@;
        match self {
            IRComponent::Class(c) => put_term(c.clone(), vocab::sh_class(), id, graph),
            IRComponent::Datatype(i) => put_term(Object::Iri(i.clone()), vocab::sh_datatype(), id, graph),
            IRComponent::NodeKind(nk) => put_term(Object::Iri(nk.iri()), vocab::sh_node_kind(), id, graph),
            IRComponent::MinCount(n) => put_term(int_term(*n), vocab::sh_min_count(), id, graph),
            IRComponent::MaxCount(n) => put_term(int_term(*n), vocab::sh_max_count(), id, graph),
            IRComponent::MinExclusive(l) => put_term(lexical_term(l), vocab::sh_min_exclusive(), id, graph),
            IRComponent::MaxExclusive(l) => put_term(lexical_term(l), vocab::sh_max_exclusive(), id, graph),
            IRComponent::MinInclusive(l) => put_term(lexical_term(l), vocab::sh_min_inclusive(), id, graph),
            IRComponent::MaxInclusive(l) => put_term(lexical_term(l), vocab::sh_max_inclusive(), id, graph),
            IRComponent::MinLength(n) => put_term(int_term(*n), vocab::sh_min_length(), id, graph),
            IRComponent::MaxLength(n) => put_term(int_term(*n), vocab::sh_max_length(), id, graph),
            IRComponent::Pattern(p) => {
                let flags = match &p.flags {
                    Some(f) => Some(Object::Literal(Literal::str(f.as_str()))),
                    None => None,
                };
                let ghost p1 = put_opt(id@, vocab::sh_flags_iri(), obj_opt(flags));
                let r1 = put_opt_term(flags, vocab::sh_flags(), id, graph);
                if r1.is_err() {
                    return r1;
                }
                let r2 = put_term(Object::Literal(Literal::str(p.pattern.as_str())), vocab::sh_pattern(), id, graph);
                proof {
                    lemma_then(g0, p1, put(id@, vocab::sh_pattern_iri(), plain(p.pattern@)));
                }
                r2
            },
            IRComponent::UniqueLang(u) => put_term(bool_term(*u), vocab::sh_unique_lang(), id, graph),
            IRComponent::LanguageIn(langs) => put_terms(&plain_terms(langs), &vocab::sh_language_in(), id, graph),
            IRComponent::Equals(i) => put_term(Object::Iri(i.clone()), vocab::sh_equals(), id, graph),
            IRComponent::Disjoint(i) => put_term(Object::Iri(i.clone()), vocab::sh_disjoint(), id, graph),
            IRComponent::LessThan(i) => put_term(Object::Iri(i.clone()), vocab::sh_less_than(), id, graph),
            IRComponent::LessThanOrEquals(i) => put_term(
                Object::Iri(i.clone()),
                vocab::sh_less_than_or_equals(),
                id,
                graph,
            ),
            IRComponent::Or(v) => put_shape_refs(v, &vocab::sh_or(), id, shape_map, graph),
            IRComponent::And(v) => put_shape_refs(v, &vocab::sh_and(), id, shape_map, graph),
            IRComponent::Not(i) => put_shape_ref(*i, vocab::sh_not(), id, shape_map, graph),
            IRComponent::Xone(v) => put_shape_refs(v, &vocab::sh_xone(), id, shape_map, graph),
            IRComponent::Node(i) => put_shape_ref(*i, vocab::sh_node(), id, shape_map, graph),
            IRComponent::HasValue(v) => put_value_term(v, vocab::sh_has_value(), id, graph),
            IRComponent::In(vs) => put_value_terms(vs, &vocab::sh_in(), id, graph),
            IRComponent::QualifiedValueShape(q) => {
                let min = match q.qualified_min_count {
                    Some(n) => Some(int_term(n)),
                    None => None,
                };
                let max = match q.qualified_max_count {
                    Some(n) => Some(int_term(n)),
                    None => None,
                };
                let dis = match q.qualified_value_shapes_disjoint {
                    Some(d) => Some(bool_term(d)),
                    None => None,
                };
                let ghost p1 = put_opt(id@, vocab::sh_qualified_min_count_iri(), obj_opt(min));
                let ghost p2 = put_opt(id@, vocab::sh_qualified_max_count_iri(), obj_opt(max));
                let ghost p3 = put_opt(id@, vocab::sh_qualified_value_shapes_disjoint_iri(), obj_opt(dis));
                let ghost p4 = put_shape(id@, vocab::sh_qualified_value_shape_iri(), q.shape, shape_map@);
                let r1 = put_opt_term(min, vocab::sh_qualified_min_count(), id, graph);
                if r1.is_err() {
                    return r1;
                }
                let r2 = put_opt_term(max, vocab::sh_qualified_max_count(), id, graph);
                proof {
                    lemma_then(g0, p1, p2);
                }
                if r2.is_err() {
                    return r2;
                }
                let r3 = put_opt_term(dis, vocab::sh_qualified_value_shapes_disjoint(), id, graph);
                proof {
                    lemma_then(g0, then(p1, p2), p3);
                }
                if r3.is_err() {
                    return r3;
                }
                let r4 = put_shape_ref(q.shape, vocab::sh_qualified_value_shape(), id, shape_map, graph);
                proof {
                    lemma_then(g0, then(then(p1, p2), p3), p4);
                }
                r4
            },
            IRComponent::Closed(c) => {
                let ghost p1 = put(id@, vocab::sh_closed_iri(), bool_lit(c.is_closed));
                let ghost p2 = put_each(
                    id@,
                    vocab::sh_ignored_properties_iri(),
                    c.ignored_properties@.map_values(|p: String| ObjectV::Iri(p@)),
                );
                let r1 = put_term(bool_term(c.is_closed), vocab::sh_closed(), id, graph);
                if r1.is_err() {
                    return r1;
                }
                let r2 = put_terms(&iri_terms(&c.ignored_properties), &vocab::sh_ignored_properties(), id, graph);
                proof {
                    lemma_then(g0, p1, p2);
                }
                r2
            },
            IRComponent::Deactivated(d) => put_term(bool_term(*d), vocab::sh_deactivated(), id, graph),
            IRComponent::BasicSparql(sp) => {
                let label = graph.fresh_blank_label();
                let bn = Object::BlankNode(label);
                let ghost b = bn@;
                let msgs = match &sp.message {
                    Some(m) => message_terms(m),
                    None => Vec::new(),
                };
                let dea = match sp.deactivated {
                    Some(d) => Some(bool_term(d)),
                    None => None,
                };
                let prefixes = match &sp.prefixes {
                    Some(p) => namespace_terms(p),
                    None => Vec::new(),
                };
                proof {
                    assert(objs(msgs@) == match sp.message {
                        Some(m) => m.entries_view().map_values(|e: (Option<Seq<char>>, Seq<char>)| plain(e.1)),
                        None => Seq::<ObjectV>::empty(),
                    });
                    assert(objs(prefixes@) == match sp.prefixes {
                        Some(p) => p@.map_values(|e: (String, String)| ObjectV::Iri(e.1@)),
                        None => Seq::<ObjectV>::empty(),
                    });
                }
                let ghost p1 = put(b, vocab::sh_select_iri(), plain(sp.select@));
                let ghost p2 = put_each(b, vocab::sh_message_iri(), objs(msgs@));
                let ghost p3 = put_opt(b, vocab::sh_deactivated_iri(), obj_opt(dea));
                let ghost p4 = put_each(b, vocab::sh_prefixes_iri(), objs(prefixes@));
                let ghost p5 = put(id@, vocab::sh_sparql_iri(), b);
                let r1 = put_term(Object::Literal(Literal::str(sp.select.as_str())), vocab::sh_select(), &bn, graph);
                if r1.is_err() {
                    return r1;
                }
                let r2 = put_terms(&msgs, &vocab::sh_message(), &bn, graph);
                proof {
                    lemma_then(g0, p1, p2);
                }
                if r2.is_err() {
                    return r2;
                }
                let r3 = put_opt_term(dea, vocab::sh_deactivated(), &bn, graph);
                proof {
                    lemma_then(g0, then(p1, p2), p3);
                }
                if r3.is_err() {
                    return r3;
                }
                let r4 = put_terms(&prefixes, &vocab::sh_prefixes(), &bn, graph);
                proof {
                    lemma_then(g0, then(then(p1, p2), p3), p4);
                }
                if r4.is_err() {
                    return r4;
                }
                let r5 = put_term(bn, vocab::sh_sparql(), id, graph);
                proof {
                    lemma_then(g0, then(then(then(p1, p2), p3), p4), p5);
                }
                r5
            },
        }
    }
}

// ---------------------------------------------------------------------------
// Constraint component IRIs
// ---------------------------------------------------------------------------

/// The SHACL constraint component IRI of a compiled component.
pub open spec fn constraint_component_iri(c: IRComponent) -> Seq<char> {
    match c {
        IRComponent::Class(_) => vocab::sh_class_constraint_component_iri(),
        IRComponent::Datatype(_) => vocab::sh_datatype_constraint_component_iri(),
        IRComponent::NodeKind(_) => vocab::sh_node_kind_constraint_component_iri(),
        IRComponent::MinCount(_) => vocab::sh_min_count_constraint_component_iri(),
        IRComponent::MaxCount(_) => vocab::sh_max_count_constraint_component_iri(),
        IRComponent::MinExclusive(_) => vocab::sh_min_exclusive_constraint_component_iri(),
        IRComponent::MaxExclusive(_) => vocab::sh_max_exclusive_constraint_component_iri(),
        IRComponent::MinInclusive(_) => vocab::sh_min_inclusive_constraint_component_iri(),
        IRComponent::MaxInclusive(_) => vocab::sh_max_inclusive_constraint_component_iri(),
        IRComponent::MinLength(_) => vocab::sh_min_length_constraint_component_iri(),
        IRComponent::MaxLength(_) => vocab::sh_max_length_constraint_component_iri(),
        IRComponent::Pattern(_) => vocab::sh_pattern_constraint_component_iri(),
        IRComponent::UniqueLang(_) => vocab::sh_unique_lang_constraint_component_iri(),
        IRComponent::LanguageIn(_) => vocab::sh_language_in_constraint_component_iri(),
        IRComponent::Equals(_) => vocab::sh_equals_constraint_component_iri(),
        IRComponent::Disjoint(_) => vocab::sh_disjoint_constraint_component_iri(),
        IRComponent::LessThan(_) => vocab::sh_less_than_constraint_component_iri(),
        IRComponent::LessThanOrEquals(_) => vocab::sh_less_than_or_equals_constraint_component_iri(),
        IRComponent::Or(_) => vocab::sh_or_constraint_component_iri(),
        IRComponent::And(_) => vocab::sh_and_constraint_component_iri(),
        IRComponent::Not(_) => vocab::sh_not_constraint_component_iri(),
        IRComponent::Xone(_) => vocab::sh_xone_constraint_component_iri(),
        IRComponent::Node(_) => vocab::sh_node_constraint_component_iri(),
        IRComponent::HasValue(_) => vocab::sh_has_value_constraint_component_iri(),
        IRComponent::In(_) => vocab::sh_in_constraint_component_iri(),
        IRComponent::QualifiedValueShape(_) => vocab::sh_qualified_value_shape_constraint_component_iri(),
        IRComponent::Closed(_) => vocab::sh_closed_constraint_component_iri(),
        IRComponent::Deactivated(_) => vocab::sh_deactivated_constraint_component_iri(),
        IRComponent::BasicSparql(_) => vocab::sh_sparql_constraint_component_iri(),
    }
}

impl IRComponent {
    /// The SHACL constraint component IRI (`sh:MinCountConstraintComponent`, ...).
    pub fn constraint_component(&self) -> (r: String)
        ensures
            r@ == constraint_component_iri(*self),
    {
        match self {
            IRComponent::Class(_) => vocab::sh_class_constraint_component(),
            IRComponent::Datatype(_) => vocab::sh_datatype_constraint_component(),
            IRComponent::NodeKind(_) => vocab::sh_node_kind_constraint_component(),
            IRComponent::MinCount(_) => vocab::sh_min_count_constraint_component(),
            IRComponent::MaxCount(_) => vocab::sh_max_count_constraint_component(),
            IRComponent::MinExclusive(_) => vocab::sh_min_exclusive_constraint_component(),
            IRComponent::MaxExclusive(_) => vocab::sh_max_exclusive_constraint_component(),
            IRComponent::MinInclusive(_) => vocab::sh_min_inclusive_constraint_component(),
            IRComponent::MaxInclusive(_) => vocab::sh_max_inclusive_constraint_component(),
            IRComponent::MinLength(_) => vocab::sh_min_length_constraint_component(),
            IRComponent::MaxLength(_) => vocab::sh_max_length_constraint_component(),
            IRComponent::Pattern(_) => vocab::sh_pattern_constraint_component(),
            IRComponent::UniqueLang(_) => vocab::sh_unique_lang_constraint_component(),
            IRComponent::LanguageIn(_) => vocab::sh_language_in_constraint_component(),
            IRComponent::Equals(_) => vocab::sh_equals_constraint_component(),
            IRComponent::Disjoint(_) => vocab::sh_disjoint_constraint_component(),
            IRComponent::LessThan(_) => vocab::sh_less_than_constraint_component(),
            IRComponent::LessThanOrEquals(_) => vocab::sh_less_than_or_equals_constraint_component(),
            IRComponent::Or(_) => vocab::sh_or_constraint_component(),
            IRComponent::And(_) => vocab::sh_and_constraint_component(),
            IRComponent::Not(_) => vocab::sh_not_constraint_component(),
            IRComponent::Xone(_) => vocab::sh_xone_constraint_component(),
            IRComponent::Node(_) => vocab::sh_node_constraint_component(),
            IRComponent::HasValue(_) => vocab::sh_has_value_constraint_component(),
            IRComponent::In(_) => vocab::sh_in_constraint_component(),
            IRComponent::QualifiedValueShape(_) => vocab::sh_qualified_value_shape_constraint_component(),
            IRComponent::Closed(_) => vocab::sh_closed_constraint_component(),
            IRComponent::Deactivated(_) => vocab::sh_deactivated_constraint_component(),
            IRComponent::BasicSparql(_) => vocab::sh_sparql_constraint_component(),
        }
    }
}

// ---------------------------------------------------------------------------
// Cardinalities
// ---------------------------------------------------------------------------

/// Accepts a cardinality value, refusing a negative one.
pub fn check_non_negative(component: &str, value: isize) -> (r: Result<isize, IRError>)
    ensures
        value >= 0 ==> r == Ok::<isize, IRError>(value),
        value < 0 ==> (r matches Err(IRError::NegativeCardinality { component: c, value: v }) && c@
            == component@ && v == value),
{
    if value < 0 {
        Err(IRError::NegativeCardinality { component: owned(component), value })
    } else {
        Ok(value)
    }
}

/// `sh:minCount`: the minimum number of value nodes.
pub struct MinCount {
    min_count: usize,
}

impl MinCount {
    /// The bound.
    pub closed spec fn bound(&self) -> nat {
        self.min_count as nat
    }

    /// The bound; a negative value is refused.
    pub fn new(min_count: isize) -> (r: Result<MinCount, IRError>)
        ensures
            min_count >= 0 ==> (r matches Ok(m) && m.bound() == min_count),
            min_count < 0 ==> (r matches Err(IRError::NegativeCardinality { component: c, value: v }) && c@
                == "sh:minCount"@ && v == min_count),
    {
        if min_count < 0 {
            Err(IRError::NegativeCardinality { component: owned("sh:minCount"), value: min_count })
        } else {
            Ok(MinCount { min_count: min_count as usize })
        }
    }

    /// The bound.
    pub fn min_count(&self) -> (r: usize)
        ensures
            r == self.bound(),
    {
        self.min_count
    }
}

/// `sh:maxCount`: the maximum number of value nodes.
pub struct MaxCount {
    max_count: usize,
}

impl MaxCount {
    /// The bound.
    pub closed spec fn bound(&self) -> nat {
        self.max_count as nat
    }

    /// The bound; a negative value is refused.
    pub fn new(max_count: isize) -> (r: Result<MaxCount, IRError>)
        ensures
            max_count >= 0 ==> (r matches Ok(m) && m.bound() == max_count),
            max_count < 0 ==> (r matches Err(IRError::NegativeCardinality { component: c, value: v }) && c@
                == "sh:maxCount"@ && v == max_count),
    {
        if max_count < 0 {
            Err(IRError::NegativeCardinality { component: owned("sh:maxCount"), value: max_count })
        } else {
            Ok(MaxCount { max_count: max_count as usize })
        }
    }

    /// The bound.
    pub fn max_count(&self) -> (r: usize)
        ensures
            r == self.bound(),
    {
        self.max_count
    }
}

// ---------------------------------------------------------------------------
// The shape table and component compilation
// ---------------------------------------------------------------------------

/// The position of `o` in `labels` (meaningful when it occurs).
pub open spec fn index_in(labels: Seq<ObjectV>, o: ObjectV) -> int {
    choose|i: int| 0 <= i < labels.len() && labels[i] == o
}

/// Registering a shape id: its existing index, or a new one at the end.
pub open spec fn intern(labels: Seq<ObjectV>, o: ObjectV) -> (Seq<ObjectV>, int) {
    if labels.contains(o) {
        (labels, index_in(labels, o))
    } else {
        (labels.push(o), labels.len() as int)
    }
}

/// Registering shape ids one after another.
pub open spec fn intern_all(labels: Seq<ObjectV>, os: Seq<ObjectV>) -> (Seq<ObjectV>, Seq<int>)
    decreases os.len(),
{
    if os.len() == 0 {
        (labels, Seq::empty())
    } else {
        let prev = intern_all(labels, os.drop_last());
        let next = intern(prev.0, os.last());
        (next.0, prev.1.push(next.1))
    }
}

/// Indices as integers.
pub open spec fn ints(v: Seq<usize>) -> Seq<int> {
    v.map_values(|u: usize| u as int)
}

/// The shape table of a compiled schema: every registered shape id once,
/// indexed in the order of first registration.
pub struct IRSchema {
    labels: Vec<Object>,
}

impl View for IRSchema {
    type V = Seq<ObjectV>;

    closed spec fn view(&self) -> Seq<ObjectV> {
        objs(self.labels@)
    }
}

impl IRSchema {
    #[verifier::type_invariant]
    closed spec fn inv(self) -> bool {
        objs(self.labels@).no_duplicates()
    }

    /// An empty table.
    pub fn new() -> (r: IRSchema)
        ensures
            r@ == Seq::<ObjectV>::empty(),
    {
        let r = IRSchema { labels: Vec::new() };
        assert(objs(r.labels@) =~= Seq::<ObjectV>::empty());
        r
    }

    /// The index of a registered shape id.
    pub fn get_idx(&self, id: &Object) -> (r: Option<usize>)
        ensures
            match r {
                Some(i) => i < self@.len() && self@[i as int] == id@,
                None => !self@.contains(id@),
            },
            self@.no_duplicates(),
    {
        proof {
            use_type_invariant(self);
        }
        let mut i: usize = 0;
        while i < self.labels.len()
            invariant
                i <= self.labels.len(),
                objs(self.labels@).no_duplicates(),
                forall|j: int| 0 <= j < i ==> objs(self.labels@)[j] != id@,
            decreases self.labels.len() - i,
        {
            assert(objs(self.labels@)[i as int] == self.labels@[i as int]@);
            if self.labels[i].equals(id) {
                return Some(i);
            }
            i = i + 1;
        }
        None
    }

    /// Registers a shape id and returns its index.
    pub fn register_shape(&mut self, id: &Object) -> (r: usize)
        ensures
            (final(self)@, r as int) == intern(old(self)@, id@),
    {
        proof {
            use_type_invariant(&*self);
        }
        match self.get_idx(id) {
            Some(i) => {
                proof {
                    assert(old(self)@.contains(id@));
                    let k = index_in(old(self)@, id@);
                    assert(old(self)@[k] == id@);
                    assert(k == i) by {
                        assert(old(self)@.no_duplicates());
                    }
                }
                i
            },
            None => {
                let n = self.labels.len();
                let ghost before = self.labels@;
                let mut labels: Vec<Object> = Vec::new();
                std::mem::swap(&mut labels, &mut self.labels);
                labels.push(id.clone());
                proof {
                    assert(objs(labels@) =~= objs(before).push(id@));
                    let s = objs(labels@);
                    assert forall|a: int, b: int| 0 <= a < s.len() && 0 <= b < s.len() && a != b implies s[a]
                        != s[b] by {
                        if a < s.len() - 1 && b < s.len() - 1 {
                            assert(s[a] == objs(before)[a] && s[b] == objs(before)[b]);
                        } else if a < s.len() - 1 {
                            assert(s[a] == objs(before)[a]);
                        } else {
                            assert(s[b] == objs(before)[b]);
                        }
                    }
                }
                self.labels = labels;
                n
            },
        }
    }

    /// Registers shape ids one after another and returns their indices.
    pub fn register_shapes(&mut self, ids: &Vec<Object>) -> (r: Vec<usize>)
        ensures
            (final(self)@, ints(r@)) == intern_all(old(self)@, objs(ids@)),
    {
        let mut r: Vec<usize> = Vec::new();
        let mut i: usize = 0;
        let ghost start = self@;
        assert(objs(ids@).take(0) =~= Seq::<ObjectV>::empty());
        assert(ints(r@) =~= Seq::<int>::empty());
        while i < ids.len()
            invariant
                i <= ids.len(),
                start == old(self)@,
                (self@, ints(r@)) == intern_all(start, objs(ids@).take(i as int)),
            decreases ids.len() - i,
        {
            let k = self.register_shape(&ids[i]);
            let ghost before = r@;
            r.push(k);
            proof {
                assert(objs(ids@).take(i as int + 1).drop_last() =~= objs(ids@).take(i as int));
                assert(objs(ids@).take(i as int + 1).last() == ids@[i as int]@);
                assert(ints(r@) =~= ints(before).push(k as int));
            }
            i = i + 1;
        }
        assert(objs(ids@).take(ids.len() as int) =~= objs(ids@));
        r
    }

    /// The table as (index, shape id) entries, for writing components back.
    pub fn shape_table(&self) -> (r: Vec<(usize, Object)>)
        ensures
            r@.len() == self@.len(),
            forall|i: int| 0 <= i < r@.len() ==> (#[trigger] r@[i]).0 == i && r@[i].1@ == self@[i],
    {
        let mut r: Vec<(usize, Object)> = Vec::new();
        let mut i: usize = 0;
        while i < self.labels.len()
            invariant
                i <= self.labels.len(),
                r@.len() == i,
                forall|j: int| 0 <= j < i ==> (#[trigger] r@[j]).0 == j && r@[j].1@ == objs(self.labels@)[j],
            decreases self.labels.len() - i,
        {
            r.push((i, self.labels[i].clone()));
            i = i + 1;
        }
        r
    }
}

/// What compiling `c` yields, `labels` being the shape table before and
/// `labels2` after.
pub open spec fn compiled(c: ASTComponent, labels: Seq<ObjectV>, r: Result<IRComponent, IRError>, labels2: Seq<ObjectV>) -> bool {
    match c {
        ASTComponent::Class(o) => labels2 == labels && (r matches Ok(IRComponent::Class(x)) && x@ == o@),
        ASTComponent::Datatype(i) => labels2 == labels && iri_compiled(i@, r, |s: String| IRComponent::Datatype(s)),
        ASTComponent::NodeKind(nk) => labels2 == labels && r == Ok::<IRComponent, IRError>(IRComponent::NodeKind(nk)),
        ASTComponent::MinCount(n) => labels2 == labels && count_compiled(n, "sh:minCount"@, r, true),
        ASTComponent::MaxCount(n) => labels2 == labels && count_compiled(n, "sh:maxCount"@, r, false),
        ASTComponent::MinExclusive(l) => labels2 == labels && (r matches Ok(IRComponent::MinExclusive(x)) && x@ == l@),
        ASTComponent::MaxExclusive(l) => labels2 == labels && (r matches Ok(IRComponent::MaxExclusive(x)) && x@ == l@),
        ASTComponent::MinInclusive(l) => labels2 == labels && (r matches Ok(IRComponent::MinInclusive(x)) && x@ == l@),
        ASTComponent::MaxInclusive(l) => labels2 == labels && (r matches Ok(IRComponent::MaxInclusive(x)) && x@ == l@),
        ASTComponent::MinLength(n) => labels2 == labels && r == Ok::<IRComponent, IRError>(IRComponent::MinLength(n)),
        ASTComponent::MaxLength(n) => labels2 == labels && r == Ok::<IRComponent, IRError>(IRComponent::MaxLength(n)),
        ASTComponent::Pattern { pattern, flags } => labels2 == labels && (r matches Ok(IRComponent::Pattern(p))
            && p.pattern@ == pattern@ && opt_view(p.flags) == opt_view(flags)),
        ASTComponent::UniqueLang(b) => labels2 == labels && r == Ok::<IRComponent, IRError>(IRComponent::UniqueLang(b)),
        ASTComponent::LanguageIn(langs) => labels2 == labels && (r matches Ok(IRComponent::LanguageIn(v)) && views(v@)
            == views(langs@)),
        ASTComponent::Equals(i) => labels2 == labels && iri_compiled(i@, r, |s: String| IRComponent::Equals(s)),
        ASTComponent::Disjoint(i) => labels2 == labels && iri_compiled(i@, r, |s: String| IRComponent::Disjoint(s)),
        ASTComponent::LessThan(i) => labels2 == labels && iri_compiled(i@, r, |s: String| IRComponent::LessThan(s)),
        ASTComponent::LessThanOrEquals(i) => labels2 == labels && iri_compiled(
            i@,
            r,
            |s: String| IRComponent::LessThanOrEquals(s),
        ),
        ASTComponent::Or(v) => r matches Ok(IRComponent::Or(ix)) && (labels2, ints(ix@)) == intern_all(labels, objs(v@)),
        ASTComponent::And(v) => r matches Ok(IRComponent::And(ix)) && (labels2, ints(ix@)) == intern_all(labels, objs(v@)),
        ASTComponent::Xone(v) => r matches Ok(IRComponent::Xone(ix)) && (labels2, ints(ix@)) == intern_all(labels, objs(v@)),
        ASTComponent::Not(o) => r matches Ok(IRComponent::Not(i)) && (labels2, i as int) == intern(labels, o@),
        ASTComponent::Node(o) => r matches Ok(IRComponent::Node(i)) && (labels2, i as int) == intern(labels, o@),
        ASTComponent::Closed { is_closed, ignored_properties } => labels2 == labels && (r matches Ok(
            IRComponent::Closed(c),
        ) && c.is_closed == is_closed && views(c.ignored_properties@) == views(ignored_properties@)),
        ASTComponent::HasValue(v) => labels2 == labels && match value_term(v) {
            Some(t) => r matches Ok(IRComponent::HasValue(x)) && x@ == t,
            None => r matches Err(IRError::UnresolvedPrefixedName { .. }),
        },
        ASTComponent::In(vs) => labels2 == labels && match first_unresolved(vs@) {
            None => r matches Ok(IRComponent::In(xs)) && objs(xs@) == vs@.map_values(|v: Value| value_term(v)->0),
            Some(_) => r matches Err(IRError::UnresolvedPrefixedName { .. }),
        },
        ASTComponent::QualifiedValueShape { shape, q_min_count, q_max_count, disjoint, siblings } => {
            let first = intern(labels, shape@);
            let rest = intern_all(first.0, objs(siblings@));
            &&& labels2 == rest.0
            &&& r matches Ok(IRComponent::QualifiedValueShape(q))
            &&& q.shape as int == first.1
            &&& ints(q.siblings@) == rest.1
            &&& q.qualified_min_count == q_min_count
            &&& q.qualified_max_count == q_max_count
            &&& q.qualified_value_shapes_disjoint == disjoint
        },
        ASTComponent::Deactivated(d) => labels2 == labels && r == Ok::<IRComponent, IRError>(IRComponent::Deactivated(d)),
        ASTComponent::BasicSparql { select, message, deactivated, prefixes } => labels2 == labels && (r matches Ok(
            IRComponent::BasicSparql(sp),
        ) && sp.select@ == select@ && sp.deactivated == deactivated && match (sp.prefixes, prefixes) {
            (Some(a), Some(b)) => pair_views(a@) == pair_views(b@),
            (None, None) => true,
            _ => false,
        } && match (sp.message, message) {
            (Some(a), Some(b)) => a.entries_view() == b.entries_view(),
            (None, None) => true,
            _ => false,
        }),
    }
}

/// An IRI parameter compiles to its IRI; a prefixed name is refused.
pub open spec fn iri_compiled(i: IriRefV, r: Result<IRComponent, IRError>, mk: spec_fn(String) -> IRComponent) -> bool {
    match i {
        IriRefV::Iri(s) => exists|x: String| x@ == s && r == Ok::<IRComponent, IRError>(mk(x)),
        IriRefV::Prefixed { prefix, local } => (r matches Err(IRError::UnresolvedPrefixedName { prefix: p, local: l })
            && p@ == prefix && l@ == local),
    }
}

/// A cardinality compiles to itself; a negative one is refused.
pub open spec fn count_compiled(n: isize, name: Seq<char>, r: Result<IRComponent, IRError>, is_min: bool) -> bool {
    if n < 0 {
        r matches Err(IRError::NegativeCardinality { component: c, value: v }) && c@ == name && v == n
    } else if is_min {
        r == Ok::<IRComponent, IRError>(IRComponent::MinCount(n))
    } else {
        r == Ok::<IRComponent, IRError>(IRComponent::MaxCount(n))
    }
}

/// The position of the first value whose IRI is a prefixed name.
pub open spec fn first_unresolved(vs: Seq<Value>) -> Option<int> {
    if exists|i: int| 0 <= i < vs.len() && value_term(vs[i]) is None {
        Some(choose|i: int| 0 <= i < vs.len() && value_term(vs[i]) is None)
    } else {
        None
    }
}

/// The terms of a list of values; fails on the first prefixed name.
fn value_terms(vs: &Vec<Value>) -> (r: Result<Vec<Object>, IRError>)
    ensures
        match first_unresolved(vs@) {
            None => r matches Ok(xs) && objs(xs@) == vs@.map_values(|v: Value| value_term(v)->0),
            Some(_) => r matches Err(IRError::UnresolvedPrefixedName { .. }),
        },
{
    let mut xs: Vec<Object> = Vec::new();
    let mut i: usize = 0;
    while i < vs.len()
        invariant
            i <= vs.len(),
            forall|j: int| 0 <= j < i ==> value_term(#[trigger] vs@[j]) is Some,
            objs(xs@) == vs@.take(i as int).map_values(|v: Value| value_term(v)->0),
        decreases vs.len() - i,
    {
        match vs[i].to_term() {
            Ok(t) => {
                let ghost before = xs@;
                xs.push(t);
                assert(objs(xs@) =~= objs(before).push(t@));
                assert(vs@.take(i as int + 1) =~= vs@.take(i as int).push(vs@[i as int]));
                assert(vs@.take(i as int + 1).map_values(|v: Value| value_term(v)->0) =~= vs@.take(
                    i as int,
                ).map_values(|v: Value| value_term(v)->0).push(t@));
            },
            Err(e) => {
                assert(value_term(vs@[i as int]) is None);
                return Err(e);
            },
        }
        i = i + 1;
    }
    assert(vs@.take(vs.len() as int) =~= vs@);
    Ok(xs)
}

impl IRComponent {
    /// Compiles a component of the shapes model. Shapes that it refers to are
    /// registered in `ir` and held by their index; cardinalities must not be
    /// negative, and IRIs must be full IRIs.
    pub fn compile(component: &ASTComponent, ast: &ASTSchema, ir: &mut IRSchema) -> (r: Result<IRComponent, IRError>)
        ensures
            compiled(*component, old(ir)@, r, final(ir)@),
    {
        let _ = ast;
        match component {
            ASTComponent::Class(o) => Ok(IRComponent::Class(o.clone())),
            ASTComponent::Datatype(i) => match i.get_iri() {
                Ok(s) => Ok(IRComponent::Datatype(s)),
                Err(e) => Err(e),
            },
            ASTComponent::NodeKind(nk) => Ok(IRComponent::NodeKind(*nk)),
            ASTComponent::MinCount(n) => match check_non_negative("sh:minCount", *n) {
                Ok(v) => Ok(IRComponent::MinCount(v)),
                Err(e) => Err(e),
            },
            ASTComponent::MaxCount(n) => match check_non_negative("sh:maxCount", *n) {
                Ok(v) => Ok(IRComponent::MaxCount(v)),
                Err(e) => Err(e),
            },
            ASTComponent::MinExclusive(l) => Ok(IRComponent::MinExclusive(l.clone())),
            ASTComponent::MaxExclusive(l) => Ok(IRComponent::MaxExclusive(l.clone())),
            ASTComponent::MinInclusive(l) => Ok(IRComponent::MinInclusive(l.clone())),
            ASTComponent::MaxInclusive(l) => Ok(IRComponent::MaxInclusive(l.clone())),
            ASTComponent::MinLength(n) => Ok(IRComponent::MinLength(*n)),
            ASTComponent::MaxLength(n) => Ok(IRComponent::MaxLength(*n)),
            ASTComponent::Pattern { pattern, flags } => Ok(
                IRComponent::Pattern(Pattern { pattern: pattern.clone(), flags: crate::term::clone_opt_string(flags) }),
            ),
            ASTComponent::UniqueLang(b) => Ok(IRComponent::UniqueLang(*b)),
            ASTComponent::LanguageIn(langs) => Ok(IRComponent::LanguageIn(clone_strings(langs))),
            ASTComponent::Equals(i) => match i.get_iri() {
                Ok(s) => Ok(IRComponent::Equals(s)),
                Err(e) => Err(e),
            },
            ASTComponent::Disjoint(i) => match i.get_iri() {
                Ok(s) => Ok(IRComponent::Disjoint(s)),
                Err(e) => Err(e),
            },
            ASTComponent::LessThan(i) => match i.get_iri() {
                Ok(s) => Ok(IRComponent::LessThan(s)),
                Err(e) => Err(e),
            },
            ASTComponent::LessThanOrEquals(i) => match i.get_iri() {
                Ok(s) => Ok(IRComponent::LessThanOrEquals(s)),
                Err(e) => Err(e),
            },
            ASTComponent::Or(v) => Ok(IRComponent::Or(ir.register_shapes(v))),
            ASTComponent::And(v) => Ok(IRComponent::And(ir.register_shapes(v))),
            ASTComponent::Not(o) => Ok(IRComponent::Not(ir.register_shape(o))),
            ASTComponent::Xone(v) => Ok(IRComponent::Xone(ir.register_shapes(v))),
            ASTComponent::Closed { is_closed, ignored_properties } => Ok(
                IRComponent::Closed(Closed { is_closed: *is_closed, ignored_properties: clone_strings(ignored_properties) }),
            ),
            ASTComponent::Node(o) => Ok(IRComponent::Node(ir.register_shape(o))),
            ASTComponent::HasValue(v) => match v.to_term() {
                Ok(t) => Ok(IRComponent::HasValue(t)),
                Err(e) => Err(e),
            },
            ASTComponent::In(vs) => match value_terms(vs) {
                Ok(xs) => Ok(IRComponent::In(xs)),
                Err(e) => Err(e),
            },
            ASTComponent::QualifiedValueShape { shape, q_min_count, q_max_count, disjoint, siblings } => {
                let idx = ir.register_shape(shape);
                let sibs = ir.register_shapes(siblings);
                Ok(
                    IRComponent::QualifiedValueShape(
                        QualifiedValueShape {
                            shape: idx,
                            qualified_min_count: *q_min_count,
                            qualified_max_count: *q_max_count,
                            qualified_value_shapes_disjoint: *disjoint,
                            siblings: sibs,
                        },
                    ),
                )
            },
            ASTComponent::Deactivated(d) => Ok(IRComponent::Deactivated(*d)),
            ASTComponent::BasicSparql { select, message, deactivated, prefixes } => {
                let message = match message {
                    Some(m) => Some(m.duplicate()),
                    None => None,
                };
                let prefixes = match prefixes {
                    Some(p) => Some(clone_pairs(p)),
                    None => None,
                };
                Ok(
                    IRComponent::BasicSparql(
                        BasicSparql { select: select.clone(), deactivated: *deactivated, prefixes, message },
                    ),
                )
            },
        }
    }
}

} // verus!

verus! {

/// Writing `c` adds exactly the one triple `(s, pred, o)` and does not fail.
pub open spec fn writes_one(plan: Plan, s: SubjectV, pred: Seq<char>, o: ObjectV) -> bool {
    plan == (seq![TripleV { subject: s, predicate: pred, object: o }], None::<RegisterFailure>)
}

/// Each single-valued component is written back as exactly one triple about
/// the shape, under the SHACL predicate of its own kind and with its value:
/// `sh:class`, `sh:datatype`, `sh:minCount`, `sh:maxCount`, the four range
/// bounds, `sh:minLength`, `sh:maxLength`, `sh:uniqueLang`, the four property
/// pair components, `sh:deactivated`, and `sh:not` / `sh:node` with the id of
/// the shape referred to. A shape id that cannot be a subject writes nothing.
pub proof fn law_register_writes_own_predicate(
    c: IRComponent,
    id: ObjectV,
    table: Map<usize, Object>,
    b: Seq<char>,
    s: SubjectV,
)
    requires
        object_as_subject(id) == Some(s),
    ensures
        match c {
            IRComponent::Class(o) => writes_one(register_plan(c, id, table, b), s, "http://www.w3.org/ns/shacl#class"@, o@),
            IRComponent::Datatype(i) => writes_one(
                register_plan(c, id, table, b),
                s,
                "http://www.w3.org/ns/shacl#datatype"@,
                ObjectV::Iri(i@),
            ),
            IRComponent::MinCount(n) => writes_one(
                register_plan(c, id, table, b),
                s,
                "http://www.w3.org/ns/shacl#minCount"@,
                ObjectV::Literal(LiteralV::Int(n as int)),
            ),
            IRComponent::MaxCount(n) => writes_one(
                register_plan(c, id, table, b),
                s,
                "http://www.w3.org/ns/shacl#maxCount"@,
                ObjectV::Literal(LiteralV::Int(n as int)),
            ),
            IRComponent::MinExclusive(l) => writes_one(
                register_plan(c, id, table, b),
                s,
                "http://www.w3.org/ns/shacl#minExclusive"@,
                ObjectV::Literal(LiteralV::Str { lexical: literal_lexical(l@), lang: None }),
            ),
            IRComponent::MaxExclusive(l) => writes_one(
                register_plan(c, id, table, b),
                s,
                "http://www.w3.org/ns/shacl#maxExclusive"@,
                ObjectV::Literal(LiteralV::Str { lexical: literal_lexical(l@), lang: None }),
            ),
            IRComponent::MinInclusive(l) => writes_one(
                register_plan(c, id, table, b),
                s,
                "http://www.w3.org/ns/shacl#minInclusive"@,
                ObjectV::Literal(LiteralV::Str { lexical: literal_lexical(l@), lang: None }),
            ),
            IRComponent::MaxInclusive(l) => writes_one(
                register_plan(c, id, table, b),
                s,
                "http://www.w3.org/ns/shacl#maxInclusive"@,
                ObjectV::Literal(LiteralV::Str { lexical: literal_lexical(l@), lang: None }),
            ),
            IRComponent::MinLength(n) => writes_one(
                register_plan(c, id, table, b),
                s,
                "http://www.w3.org/ns/shacl#minLength"@,
                ObjectV::Literal(LiteralV::Int(n as int)),
            ),
            IRComponent::MaxLength(n) => writes_one(
                register_plan(c, id, table, b),
                s,
                "http://www.w3.org/ns/shacl#maxLength"@,
                ObjectV::Literal(LiteralV::Int(n as int)),
            ),
            IRComponent::UniqueLang(u) => writes_one(
                register_plan(c, id, table, b),
                s,
                "http://www.w3.org/ns/shacl#uniqueLang"@,
                ObjectV::Literal(LiteralV::Bool(u)),
            ),
            IRComponent::Equals(i) => writes_one(
                register_plan(c, id, table, b),
                s,
                "http://www.w3.org/ns/shacl#equals"@,
                ObjectV::Iri(i@),
            ),
            IRComponent::Disjoint(i) => writes_one(
                register_plan(c, id, table, b),
                s,
                "http://www.w3.org/ns/shacl#disjoint"@,
                ObjectV::Iri(i@),
            ),
            IRComponent::LessThan(i) => writes_one(
                register_plan(c, id, table, b),
                s,
                "http://www.w3.org/ns/shacl#lessThan"@,
                ObjectV::Iri(i@),
            ),
            IRComponent::LessThanOrEquals(i) => writes_one(
                register_plan(c, id, table, b),
                s,
                "http://www.w3.org/ns/shacl#lessThanOrEquals"@,
                ObjectV::Iri(i@),
            ),
            IRComponent::Deactivated(d) => writes_one(
                register_plan(c, id, table, b),
                s,
                "http://www.w3.org/ns/shacl#deactivated"@,
                ObjectV::Literal(LiteralV::Bool(d)),
            ),
            IRComponent::Not(i) => table.contains_key(i) ==> writes_one(
                register_plan(c, id, table, b),
                s,
                "http://www.w3.org/ns/shacl#not"@,
                table[i]@,
            ),
            IRComponent::Node(i) => table.contains_key(i) ==> writes_one(
                register_plan(c, id, table, b),
                s,
                "http://www.w3.org/ns/shacl#node"@,
                table[i]@,
            ),
            _ => true,
        },
{
}

/// A shape id that cannot stand as a subject (a literal or a quoted triple)
/// writes nothing for a single-valued component and is reported.
pub proof fn law_register_refuses_non_subject_id(c: IRComponent, id: ObjectV, table: Map<usize, Object>, b: Seq<char>)
    requires
        object_as_subject(id) is None,
        c is MinCount || c is MaxCount || c is MinLength || c is MaxLength || c is Class || c is Datatype,
    ensures
        register_plan(c, id, table, b).0.len() == 0,
        register_plan(c, id, table, b).1 == Some(RegisterFailure::InvalidShapeId(id)),
{
}

} // verus!
