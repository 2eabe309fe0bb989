//! Reading structures out of a graph around a focus node: property values,
//! RDF lists and SHACL property paths.
use vstd::prelude::*;
use crate::focus::{FocusV, ParseCtx, ParseError, RdfFocus, opt_object_view};
use crate::graph::{Graph, TripleV, object_views, objects_of, subjects_of};
use crate::path::{PathV, SHACLPath};
use crate::term::{IriOrBlankNode, Object, ObjectV, SubjectV, object_as_subject, show_object, subject_as_object};
use crate::vocab;

verus! {

// ---------------------------------------------------------------------------
// Property values and lists
// ---------------------------------------------------------------------------

/// The objects of `(node, p, ?)`, in graph order; none when `node` cannot be a subject.
pub open spec fn values_of(g: Seq<TripleV>, node: ObjectV, p: Seq<char>) -> Seq<ObjectV> {
    match object_as_subject(node) {
        Some(s) => objects_of(g, s, p),
        None => Seq::empty(),
    }
}

/// The items of the RDF list that starts at `node`: `rdf:nil` ends it, every
/// other cell has exactly one `rdf:first` and one `rdf:rest`. A cell met twice
/// (a cycle) makes it no list; `seen` holds the cells already walked.
pub open spec fn rdf_list(g: Seq<TripleV>, node: ObjectV, seen: Seq<ObjectV>) -> Option<Seq<ObjectV>>
    decreases g.len() + 1 - seen.len(),
{
    if node == ObjectV::Iri(vocab::rdf_nil_iri()) {
        Some(Seq::empty())
    } else if seen.contains(node) || seen.len() > g.len() {
        None
    } else {
        let firsts = values_of(g, node, vocab::rdf_first_iri());
        let rests = values_of(g, node, vocab::rdf_rest_iri());
        if firsts.len() != 1 || rests.len() != 1 {
            None
        } else {
            match rdf_list(g, rests[0], seen.push(node)) {
                Some(t) => Some(seq![firsts[0]] + t),
                None => None,
            }
        }
    }
}

/// The objects of `(node, p, ?)`.
pub fn values_for(g: &Graph, node: &Object, p: &String) -> (r: Vec<Object>)
    ensures
        object_views(r@) == values_of(g@, node@, p@),
{
    match node.as_subject() {
        Some(s) => g.objects_for(&s, p),
        None => {
            let r: Vec<Object> = Vec::new();
            assert(object_views(r@) =~= Seq::<ObjectV>::empty());
            r
        },
    }
}

/// The items of the RDF list that starts at `node`.
pub fn list_at(g: &Graph, node: &Object) -> (r: Result<Vec<Object>, ParseError>)
    ensures
        match rdf_list(g@, node@, Seq::empty()) {
            Some(items) => r matches Ok(v) && object_views(v@) == items,
            None => r matches Err(e) && e is MalformedList,
        },
{
    let nil = Object::Iri(vocab::rdf_nil());
    let first_p = vocab::rdf_first();
    let rest_p = vocab::rdf_rest();
    let mut items: Vec<Object> = Vec::new();
    let mut seen: Vec<Object> = Vec::new();
    let mut cur = node.clone();
    let ghost whole = rdf_list(g@, node@, Seq::empty());
    assert(object_views(seen@) =~= Seq::<ObjectV>::empty());
    assert(object_views(items@) =~= Seq::<ObjectV>::empty());
    loop
        invariant
            nil@ == ObjectV::Iri(vocab::rdf_nil_iri()),
            first_p@ == vocab::rdf_first_iri(),
            rest_p@ == vocab::rdf_rest_iri(),
            whole == rdf_list(g@, node@, Seq::empty()),
            whole == match rdf_list(g@, cur@, object_views(seen@)) {
                Some(t) => Some(object_views(items@) + t),
                None => None::<Seq<ObjectV>>,
            },
            seen@.len() <= g@.len() + 1,
        decreases g@.len() + 1 - seen@.len(),
    {
        if cur.equals(&nil) {
            assert(object_views(items@) + Seq::<ObjectV>::empty() =~= object_views(items@));
            return Ok(items);
        }
        if crate::graph::contains_object(&seen, &cur) || seen.len() > g.len() {
            return Err(ParseError::MalformedList { node: cur.to_display() });
        }
        let firsts = values_for(g, &cur, &first_p);
        let rests = values_for(g, &cur, &rest_p);
        if firsts.len() != 1 || rests.len() != 1 {
            return Err(ParseError::MalformedList { node: cur.to_display() });
        }
        let ghost before_items = object_views(items@);
        let ghost before_seen = object_views(seen@);
        items.push(firsts[0].clone());
        seen.push(cur);
        cur = rests[0].clone();
        proof {
            assert(object_views(firsts@)[0] == firsts@[0]@);
            assert(object_views(rests@)[0] == rests@[0]@);
            assert(object_views(items@) =~= before_items.push(firsts@[0]@));
            assert(object_views(seen@) =~= before_seen.push(seen@.last()@));
            assert(before_items.push(firsts@[0]@) + rdf_list(g@, cur@, object_views(seen@)).unwrap_or(Seq::empty())
                =~= before_items + (seq![firsts@[0]@] + rdf_list(g@, cur@, object_views(seen@)).unwrap_or(Seq::empty())));
        }
    }
}

// ---------------------------------------------------------------------------
// SHACL paths
// ---------------------------------------------------------------------------

/// The single value of `(node, p, ?)`, if there is exactly one.
pub open spec fn single_value(g: Seq<TripleV>, node: ObjectV, p: Seq<char>) -> Option<ObjectV> {
    if values_of(g, node, p).len() == 1 {
        Some(values_of(g, node, p)[0])
    } else {
        None
    }
}

/// The SHACL path that node `node` describes: an IRI is a predicate path; a
/// blank node is a sequence path (an RDF list of paths), or carries exactly
/// one `sh:alternativePath` (a list), `sh:inversePath`, `sh:zeroOrMorePath`,
/// `sh:oneOrMorePath` or `sh:zeroOrOnePath` value, tried in that order.
/// `seen` holds the blank nodes being read, so that a cycle is refused.
pub open spec fn path_at(g: Seq<TripleV>, node: ObjectV, seen: Seq<ObjectV>) -> Option<PathV>
    decreases g.len() + 1 - seen.len(), 0nat, 0nat,
{
    match node {
        ObjectV::Iri(i) => Some(PathV::Predicate(i)),
        ObjectV::BlankNode(_) => if seen.contains(node) || seen.len() > g.len() {
            None
        } else {
            let inner = seen.push(node);
            if values_of(g, node, vocab::rdf_first_iri()).len() > 0 {
                match rdf_list(g, node, Seq::empty()) {
                    Some(items) => match paths_at(g, items, inner) {
                        Some(ps) => Some(PathV::Sequence(ps)),
                        None => None,
                    },
                    None => None,
                }
            } else if single_value(g, node, vocab::sh_alternative_path_iri()) is Some {
                match rdf_list(g, single_value(g, node, vocab::sh_alternative_path_iri())->0, Seq::empty()) {
                    Some(items) => match paths_at(g, items, inner) {
                        Some(ps) => Some(PathV::Alternative(ps)),
                        None => None,
                    },
                    None => None,
                }
            } else if single_value(g, node, vocab::sh_inverse_path_iri()) is Some {
                match path_at(g, single_value(g, node, vocab::sh_inverse_path_iri())->0, inner) {
                    Some(p) => Some(PathV::Inverse(Box::new(p))),
                    None => None,
                }
            } else if single_value(g, node, vocab::sh_zero_or_more_path_iri()) is Some {
                match path_at(g, single_value(g, node, vocab::sh_zero_or_more_path_iri())->0, inner) {
                    Some(p) => Some(PathV::ZeroOrMore(Box::new(p))),
                    None => None,
                }
            } else if single_value(g, node, vocab::sh_one_or_more_path_iri()) is Some {
                match path_at(g, single_value(g, node, vocab::sh_one_or_more_path_iri())->0, inner) {
                    Some(p) => Some(PathV::OneOrMore(Box::new(p))),
                    None => None,
                }
            } else if single_value(g, node, vocab::sh_zero_or_one_path_iri()) is Some {
                match path_at(g, single_value(g, node, vocab::sh_zero_or_one_path_iri())->0, inner) {
                    Some(p) => Some(PathV::ZeroOrOne(Box::new(p))),
                    None => None,
                }
            } else {
                None
            }
        },
        _ => None,
    }
}

/// The paths that the nodes `nodes` describe, in order.
pub open spec fn paths_at(g: Seq<TripleV>, nodes: Seq<ObjectV>, seen: Seq<ObjectV>) -> Option<Seq<PathV>>
    decreases g.len() + 1 - seen.len(), 1nat, nodes.len(),
{
    if nodes.len() == 0 {
        Some(Seq::empty())
    } else {
        match (paths_at(g, nodes.drop_last(), seen), path_at(g, nodes.last(), seen)) {
            (Some(a), Some(b)) => Some(a.push(b)),
            _ => None,
        }
    }
}

/// The single value of `(node, p, ?)`, if there is exactly one.
fn single_for(g: &Graph, node: &Object, p: String) -> (r: Option<Object>)
    ensures
        match single_value(g@, node@, p@) {
            Some(v) => r matches Some(x) && x@ == v,
            None => r is None,
        },
{
    let vs = values_for(g, node, &p);
    if vs.len() == 1 {
        assert(object_views(vs@)[0] == vs@[0]@);
        Some(vs[0].clone())
    } else {
        None
    }
}

/// Wraps a path read from an inner node, or passes its failure on.
fn wrap_inner(
    g: &Graph,
    v: &Object,
    inner: &Vec<Object>,
    kind: u8,
) -> (r: Result<SHACLPath, ParseError>)
    requires
        object_views(inner@).len() <= g@.len() + 1,
        1 <= kind <= 4,
    ensures
        match path_at(g@, v@, object_views(inner@)) {
            Some(p) => r matches Ok(x) && x@ == (if kind == 1 {
                PathV::Inverse(Box::new(p))
            } else if kind == 2 {
                PathV::ZeroOrMore(Box::new(p))
            } else if kind == 3 {
                PathV::OneOrMore(Box::new(p))
            } else {
                PathV::ZeroOrOne(Box::new(p))
            }),
            None => r matches Err(e) && e is InvalidShaclPath,
        },
    decreases g@.len() + 1 - object_views(inner@).len(), 2nat, 0nat,
{
    match read_path(g, v, inner) {
        Ok(p) => {
            let b = Box::new(p);
            proof {
                crate::path::lemma_wrapped_view(b);
            }
            if kind == 1 {
                Ok(SHACLPath::Inverse { path: b })
            } else if kind == 2 {
                Ok(SHACLPath::ZeroOrMore { path: b })
            } else if kind == 3 {
                Ok(SHACLPath::OneOrMore { path: b })
            } else {
                Ok(SHACLPath::ZeroOrOne { path: b })
            }
        },
        Err(e) => Err(e),
    }
}

/// The SHACL path that `node` describes (see [`path_at`]), with the blank
/// nodes `seen` being read already.
pub fn path_for_node(g: &Graph, node: &Object, seen: &Vec<Object>) -> (r: Result<SHACLPath, ParseError>)
    ensures
        match path_at(g@, node@, object_views(seen@)) {
            Some(p) => r matches Ok(x) && x@ == p,
            None => r matches Err(e) && e is InvalidShaclPath,
        },
{
    if seen.len() > g.len() {
        match node {
            Object::Iri(i) => Ok(SHACLPath::Predicate { pred: i.clone() }),
            _ => Err(ParseError::InvalidShaclPath { node: node.to_display(), cause: None }),
        }
    } else {
        read_path(g, node, seen)
    }
}

/// The SHACL path that `node` describes, while `seen` is no longer than the graph.
fn read_path(g: &Graph, node: &Object, seen: &Vec<Object>) -> (r: Result<SHACLPath, ParseError>)
    requires
        object_views(seen@).len() <= g@.len() + 1,
    ensures
        match path_at(g@, node@, object_views(seen@)) {
            Some(p) => r matches Ok(x) && x@ == p,
            None => r matches Err(e) && e is InvalidShaclPath,
        },
    decreases g@.len() + 1 - object_views(seen@).len(), 0nat, 0nat,
{
    match node {
        Object::Iri(i) => Ok(SHACLPath::Predicate { pred: i.clone() }),
        Object::BlankNode(_) => {
            if crate::graph::contains_object(seen, node) || seen.len() > g.len() {
                return Err(ParseError::InvalidShaclPath { node: node.to_display(), cause: None });
            }
            let mut inner: Vec<Object> = Vec::new();
            let mut k: usize = 0;
            while k < seen.len()
                invariant
                    k <= seen.len(),
                    object_views(inner@) == object_views(seen@).take(k as int),
                decreases seen.len() - k,
            {
                let ghost before = inner@;
                inner.push(seen[k].clone());
                assert(object_views(inner@) =~= object_views(before).push(seen@[k as int]@));
                assert(object_views(seen@).take(k as int + 1) =~= object_views(seen@).take(k as int).push(
                    seen@[k as int]@,
                ));
                k = k + 1;
            }
            assert(object_views(seen@).take(seen.len() as int) =~= object_views(seen@));
            let ghost before = object_views(inner@);
            inner.push(node.clone());
            assert(object_views(inner@) =~= before.push(node@));
            let firsts = values_for(g, node, &vocab::rdf_first());
            if firsts.len() > 0 {
                return match list_at(g, node) {
                    Ok(items) => match paths_for_nodes(g, &items, &inner) {
                        Ok(ps) => {
                            proof {
                                crate::path::lemma_list_view(ps);
                            }
                            Ok(SHACLPath::Sequence { paths: ps })
                        },
                        Err(e) => Err(e),
                    },
                    Err(_) => Err(ParseError::InvalidShaclPath { node: node.to_display(), cause: None }),
                };
            }
            match single_for(g, node, vocab::sh_alternative_path()) {
                Some(v) => {
                    return match list_at(g, &v) {
                        Ok(items) => match paths_for_nodes(g, &items, &inner) {
                            Ok(ps) => {
                                proof {
                                    crate::path::lemma_list_view(ps);
                                }
                                Ok(SHACLPath::Alternative { paths: ps })
                            },
                            Err(e) => Err(e),
                        },
                        Err(_) => Err(ParseError::InvalidShaclPath { node: node.to_display(), cause: None }),
                    };
                },
                None => {},
            }
            match single_for(g, node, vocab::sh_inverse_path()) {
                Some(v) => {
                    return wrap_inner(g, &v, &inner, 1);
                },
                None => {},
            }
            match single_for(g, node, vocab::sh_zero_or_more_path()) {
                Some(v) => {
                    return wrap_inner(g, &v, &inner, 2);
                },
                None => {},
            }
            match single_for(g, node, vocab::sh_one_or_more_path()) {
                Some(v) => {
                    return wrap_inner(g, &v, &inner, 3);
                },
                None => {},
            }
            match single_for(g, node, vocab::sh_zero_or_one_path()) {
                Some(v) => {
                    return wrap_inner(g, &v, &inner, 4);
                },
                None => {},
            }
            Err(ParseError::InvalidShaclPath { node: node.to_display(), cause: None })
        },
        _ => Err(ParseError::InvalidShaclPath { node: node.to_display(), cause: None }),
    }
}

/// The paths that `nodes` describe, in order.
fn paths_for_nodes(g: &Graph, nodes: &Vec<Object>, seen: &Vec<Object>) -> (r: Result<Vec<SHACLPath>, ParseError>)
    requires
        object_views(seen@).len() <= g@.len() + 1,
    ensures
        match paths_at(g@, object_views(nodes@), object_views(seen@)) {
            Some(ps) => r matches Ok(v) && v@.map_values(|p: SHACLPath| p@) == ps,
            None => r matches Err(e) && e is InvalidShaclPath,
        },
    decreases g@.len() + 1 - object_views(seen@).len(), 1nat, nodes@.len(),
{
    let mut out: Vec<SHACLPath> = Vec::new();
    let mut i: usize = 0;
    let ghost ns = object_views(nodes@);
    assert(ns.take(0) =~= Seq::<ObjectV>::empty());
    assert(out@.map_values(|p: SHACLPath| p@) =~= Seq::<PathV>::empty());
    while i < nodes.len()
        invariant
            i <= nodes.len(),
            ns == object_views(nodes@),
            object_views(seen@).len() <= g@.len() + 1,
            paths_at(g@, ns.take(i as int), object_views(seen@)) == Some(out@.map_values(|p: SHACLPath| p@)),
        decreases nodes.len() - i,
    {
        proof {
            assert(ns.take(i as int + 1).drop_last() =~= ns.take(i as int));
            assert(ns.take(i as int + 1).last() == nodes@[i as int]@);
        }
        match read_path(g, &nodes[i], seen) {
            Ok(p) => {
                let ghost before = out@;
                out.push(p);
                assert(out@.map_values(|p: SHACLPath| p@) =~= before.map_values(|p: SHACLPath| p@).push(p@));
            },
            Err(e) => {
                proof {
                    lemma_paths_at_stop(g@, ns, object_views(seen@), i as int + 1);
                }
                return Err(e);
            },
        }
        i = i + 1;
    }
    assert(ns.take(nodes.len() as int) =~= ns);
    Ok(out)
}

/// Once one node of a list describes no path, the whole list describes none.
proof fn lemma_paths_at_stop(g: Seq<TripleV>, ns: Seq<ObjectV>, seen: Seq<ObjectV>, k: int)
    requires
        0 <= k <= ns.len(),
        paths_at(g, ns.take(k), seen) is None,
    ensures
        paths_at(g, ns, seen) is None,
    decreases ns.len() - k,
{
    if k < ns.len() {
        assert(ns.take(k + 1).drop_last() =~= ns.take(k));
        lemma_paths_at_stop(g, ns, seen, k + 1);
    } else {
        assert(ns.take(k) =~= ns);
    }
}

// ---------------------------------------------------------------------------
// Parsing contexts
// ---------------------------------------------------------------------------

impl<'a> ParseCtx<'a> {
    /// The SHACL path that the first value of `(subject, predicate)` describes;
    /// `None` when there is no such value. The focus is not moved.
    pub fn get_path_for(&mut self, subject: &Object, predicate: &String) -> (r: Result<
        Option<SHACLPath>,
        ParseError,
    >)
        ensures
            final(self).focus_view() == old(self).focus_view(),
            final(self).graph_view() == old(self).graph_view(),
            match object_as_subject(subject@) {
                None => r matches Err(ParseError::ExpectedSubject { node, context }) && node@ == show_object(
                    subject@,
                ) && context@ == "get_path_for"@,
                Some(_) => {
                    let vs = values_of(old(self).graph_view()@, subject@, predicate@);
                    if vs.len() == 0 {
                        r matches Ok(None)
                    } else {
                        match path_at(old(self).graph_view()@, vs[0], Seq::empty()) {
                            Some(p) => r matches Ok(Some(x)) && x@ == p,
                            None => r matches Err(ParseError::InvalidShaclPath { node, cause }) && node@
                                == show_object(vs[0]) && (cause matches Some(b) && *b is InvalidShaclPath),
                        }
                    }
                },
            },
    {
        let g = self.graph();
        if subject.as_subject().is_none() {
            return Err(
                ParseError::ExpectedSubject {
                    node: subject.to_display(),
                    context: crate::text::owned("get_path_for"),
                },
            );
        }
        let vs = values_for(g, subject, predicate);
        if vs.len() == 0 {
            return Ok(None);
        }
        let seen: Vec<Object> = Vec::new();
        assert(object_views(seen@) =~= Seq::<ObjectV>::empty());
        assert(object_views(vs@)[0] == vs@[0]@);
        match read_path(g, &vs[0], &seen) {
            Ok(p) => Ok(Some(p)),
            Err(e) => Err(ParseError::InvalidShaclPath { node: vs[0].to_display(), cause: Some(Box::new(e)) }),
        }
    }
}

/// A parser that reads a structure around the focus node of a parsing
/// context. Implementors say, by `parsed`, what a run does.
pub trait RDFNodeParse {
    /// What a successful parse yields.
    type Output;

    /// A run over graph `g` that starts from cursor `before` may end with
    /// cursor `after` and result `r`; an implementor verified with Verus
    /// states its own, and otherwise nothing is claimed.
    open spec fn parsed(&self, g: Seq<TripleV>, before: FocusV, after: FocusV, r: Result<Self::Output, ParseError>) -> bool {
        true
    }

    /// Parses from the current focus node.
    fn parse_focused(&self, ctx: &mut ParseCtx<'_>) -> (r: Result<Self::Output, ParseError>)
        ensures
            final(ctx).graph_view() == old(ctx).graph_view(),
            self.parsed(old(ctx).graph_view()@, old(ctx).focus_view(), final(ctx).focus_view(), r),
    ;

    /// Parses from the IRI `node`, made the focus first.
    fn parse(&self, node: &str, ctx: &mut ParseCtx<'_>) -> (r: Result<Self::Output, ParseError>)
        ensures
            final(ctx).graph_view() == old(ctx).graph_view(),
            self.parsed(
                old(ctx).graph_view()@,
                FocusV { current: Some(ObjectV::Iri(node@)), saved: old(ctx).focus_view().saved },
                final(ctx).focus_view(),
                r,
            ),
    {
        let start = Object::Iri(crate::text::owned(node));
        ctx.set_focus(&start);
        self.parse_focused(ctx)
    }
}

/// A graph with a focus cursor, to read structures around the focus node.
/// Reading never changes the graph; only the cursor moves.
pub struct RDFParse {
    rdf: Graph,
    focus: RdfFocus,
}

impl RDFParse {
    /// The graph.
    pub closed spec fn graph_view(&self) -> Seq<TripleV> {
        self.rdf@
    }

    /// The graph itself, prefix declarations included.
    pub closed spec fn source(&self) -> Graph {
        self.rdf
    }

    /// The focus cursor.
    pub closed spec fn focus_view(&self) -> FocusV {
        self.focus@
    }

    /// The focus node, when set.
    pub open spec fn focus_node(&self) -> Option<ObjectV> {
        self.focus_view().current
    }

    /// A parser over `rdf` with no focus.
    pub fn new(rdf: Graph) -> (r: RDFParse)
        ensures
            r.graph_view() == rdf@,
            r.source() == rdf,
            r.focus_view() == (FocusV { current: None, saved: Seq::empty() }),
    {
        RDFParse { rdf, focus: RdfFocus::empty() }
    }

    /// A parser over `rdf` focused on the IRI `focus_iri`.
    pub fn with_focus(rdf: Graph, focus_iri: String) -> (r: RDFParse)
        ensures
            r.graph_view() == rdf@,
            r.source() == rdf,
            r.focus_view() == (FocusV { current: Some(ObjectV::Iri(focus_iri@)), saved: Seq::empty() }),
    {
        RDFParse { rdf, focus: RdfFocus::new(Object::Iri(focus_iri)) }
    }

    /// The focus node, if set.
    pub fn current_focus(&self) -> (r: Option<&Object>)
        ensures
            match r {
                Some(x) => self.focus_node() == Some(x@),
                None => self.focus_node() is None,
            },
    {
        self.focus.get()
    }

    /// Moves the focus to `focus`.
    pub fn set_focus(&mut self, focus: &Object)
        ensures
            final(self).graph_view() == old(self).graph_view(),
            final(self).focus_view() == (FocusV { current: Some(focus@), saved: old(self).focus_view().saved }),
    {
        self.focus.set(focus.clone());
    }

    /// Moves the focus to the IRI `iri`.
    pub fn set_focus_iri(&mut self, iri: String)
        ensures
            final(self).graph_view() == old(self).graph_view(),
            final(self).focus_view() == (FocusV {
                current: Some(ObjectV::Iri(iri@)),
                saved: old(self).focus_view().saved,
            }),
    {
        self.focus.set(Object::Iri(iri));
    }

    /// The prefix declarations of the graph.
    pub fn prefixmap(&self) -> (r: Vec<(String, String)>)
        ensures
            crate::text::pair_views(r@) == self.source().prefix_view(),
    {
        self.rdf.prefixes()
    }

    /// The graph.
    pub fn rdf(&self) -> (r: &Graph)
        ensures
            r@ == self.graph_view(),
            *r == self.source(),
    {
        &self.rdf
    }

    /// Runs `parser` from the current focus; the cursor is left where the
    /// parser leaves it.
    pub fn run<P: RDFNodeParse>(&mut self, parser: P) -> (r: Result<P::Output, ParseError>)
        ensures
            final(self).source() == old(self).source(),
            parser.parsed(old(self).graph_view(), old(self).focus_view(), final(self).focus_view(), r),
    {
        let mut focus = RdfFocus::empty();
        std::mem::swap(&mut focus, &mut self.focus);
        let mut ctx = ParseCtx::new(&self.rdf, focus);
        let r = parser.parse_focused(&mut ctx);
        self.focus = ctx.into_focus();
        r
    }

    /// Runs `parser` from the IRI `start_node`; afterwards the previous focus
    /// is current again when there was one, and otherwise the focus stays
    /// where the parser left it. The save stack is the parser's.
    pub fn run_from<P: RDFNodeParse>(&mut self, start_node: &str, parser: P) -> (r: Result<P::Output, ParseError>)
        ensures
            final(self).source() == old(self).source(),
            exists|mid: FocusV|
                #[trigger] parser.parsed(
                    old(self).graph_view(),
                    FocusV { current: Some(ObjectV::Iri(start_node@)), saved: old(self).focus_view().saved },
                    mid,
                    r,
                ) && final(self).focus_view() == match old(self).focus_view().current {
                    Some(p) => FocusV { current: Some(p), saved: mid.saved },
                    None => mid,
                },
    {
        let previous = match self.focus.get() {
            Some(x) => Some(x.clone()),
            None => None,
        };
        self.focus.set(Object::Iri(crate::text::owned(start_node)));
        let r = self.run(parser);
        let ghost mid = self.focus@;
        let ghost start = FocusV { current: Some(ObjectV::Iri(start_node@)), saved: old(self).focus_view().saved };
        assert(parser.parsed(old(self).graph_view(), start, mid, r));
        match previous {
            Some(prev) => self.focus.set(prev),
            None => {},
        }
        r
    }

    /// A parsing context over the graph, starting from a copy of the cursor.
    pub fn ctx(&self) -> (r: ParseCtx<'_>)
        ensures
            r.graph_view()@ == self.graph_view(),
            *r.graph_view() == self.source(),
            r.focus_view() == self.focus_view(),
    {
        ParseCtx::new(&self.rdf, self.focus.duplicate())
    }

    /// The focus node as a subject.
    fn focus_subject(&self) -> (r: Result<Object, ParseError>)
        ensures
            match self.focus_node() {
                None => r matches Err(e) && e is NoFocusNode,
                Some(t) => match object_as_subject(t) {
                    Some(_) => r matches Ok(x) && x@ == t,
                    None => r matches Err(e) && e is ExpectedSubject,
                },
            },
    {
        match self.focus.get() {
            None => Err(ParseError::NoFocusNode),
            Some(t) => if t.as_subject().is_some() {
                Ok(t.clone())
            } else {
                Err(
                    ParseError::ExpectedSubject {
                        node: t.to_display(),
                        context: crate::text::owned("get_focus_as_subject"),
                    },
                )
            },
        }
    }

    /// The values of `pred` on the focus node, each once.
    pub fn get_property_values(&mut self, pred: String) -> (r: Result<Vec<Object>, ParseError>)
        ensures
            final(self).graph_view() == old(self).graph_view(),
            final(self).focus_view() == old(self).focus_view(),
            match old(self).focus_node() {
                None => r matches Err(e) && e is NoFocusNode,
                Some(t) => match object_as_subject(t) {
                    Some(_) => r matches Ok(v) && object_views(v@) == values_of(old(self).graph_view(), t, pred@),
                    None => r matches Err(e) && e is ExpectedSubject,
                },
            },
    {
        match self.focus_subject() {
            Ok(t) => Ok(values_for(&self.rdf, &t, &pred)),
            Err(e) => Err(e),
        }
    }

    /// The single value of `pred` on the focus node.
    pub fn get_property(&mut self, pred: String) -> (r: Result<Object, ParseError>)
        ensures
            final(self).graph_view() == old(self).graph_view(),
            final(self).focus_view() == old(self).focus_view(),
            match old(self).focus_node() {
                None => r matches Err(e) && e is NoFocusNode,
                Some(t) => match object_as_subject(t) {
                    Some(_) => match single_value(old(self).graph_view(), t, pred@) {
                        Some(v) => r matches Ok(x) && x@ == v,
                        None => r matches Err(e) && e is ExpectedSingleValue,
                    },
                    None => r matches Err(e) && e is ExpectedSubject,
                },
            },
    {
        match self.focus_subject() {
            Ok(t) => {
                let vs = values_for(&self.rdf, &t, &pred);
                if vs.len() == 1 {
                    assert(object_views(vs@)[0] == vs@[0]@);
                    Ok(vs[0].clone())
                } else {
                    Err(ParseError::ExpectedSingleValue { property: pred, count: vs.len() })
                }
            },
            Err(e) => Err(e),
        }
    }

    /// The single `rdf:type` of the focus node.
    pub fn get_type(&mut self) -> (r: Result<Object, ParseError>)
        ensures
            final(self).graph_view() == old(self).graph_view(),
            final(self).focus_view() == old(self).focus_view(),
            match old(self).focus_node() {
                None => r matches Err(e) && e is NoFocusNode,
                Some(t) => match object_as_subject(t) {
                    Some(_) => match single_value(old(self).graph_view(), t, vocab::rdf_type_iri()) {
                        Some(v) => r matches Ok(x) && x@ == v,
                        None => r matches Err(e) && e is ExpectedSingleValue,
                    },
                    None => r matches Err(e) && e is ExpectedSubject,
                },
            },
    {
        self.get_property(vocab::rdf_type())
    }

    /// Succeeds when the focus node has `rdf:type` `expected`.
    pub fn has_type(&mut self, expected: String) -> (r: Result<(), ParseError>)
        ensures
            final(self).graph_view() == old(self).graph_view(),
            final(self).focus_view() == old(self).focus_view(),
            match old(self).focus_node() {
                None => r matches Err(e) && e is NoFocusNode,
                Some(t) => match object_as_subject(t) {
                    Some(_) => if values_of(old(self).graph_view(), t, vocab::rdf_type_iri()).contains(
                        ObjectV::Iri(expected@),
                    ) {
                        r is Ok
                    } else {
                        r matches Err(e) && e is MissingType
                    },
                    None => r matches Err(e) && e is ExpectedSubject,
                },
            },
    {
        match self.get_property_values(vocab::rdf_type()) {
            Ok(types) => {
                let wanted = Object::Iri(expected);
                if crate::graph::contains_object(&types, &wanted) {
                    Ok(())
                } else {
                    Err(ParseError::MissingType { expected: wanted.to_display() })
                }
            },
            Err(e) => Err(e),
        }
    }

    /// The items of the RDF list at the focus node.
    pub fn parse_list(&mut self) -> (r: Result<Vec<Object>, ParseError>)
        ensures
            final(self).graph_view() == old(self).graph_view(),
            final(self).focus_view() == old(self).focus_view(),
            match old(self).focus_node() {
                None => r matches Err(e) && e is NoFocusNode,
                Some(t) => match rdf_list(old(self).graph_view(), t, Seq::empty()) {
                    Some(items) => r matches Ok(v) && object_views(v@) == items,
                    None => r matches Err(e) && e is MalformedList,
                },
            },
    {
        match self.focus.get() {
            None => Err(ParseError::NoFocusNode),
            Some(t) => list_at(&self.rdf, t),
        }
    }

    /// The items of the RDF list that is the single value of `pred` on the
    /// focus node; the focus moves to the list's head.
    pub fn get_list_property(&mut self, pred: String) -> (r: Result<Vec<Object>, ParseError>)
        ensures
            final(self).graph_view() == old(self).graph_view(),
            match old(self).focus_node() {
                None => r matches Err(e) && e is NoFocusNode,
                Some(t) => match object_as_subject(t) {
                    Some(_) => match single_value(old(self).graph_view(), t, pred@) {
                        Some(head) => final(self).focus_node() == Some(head) && match rdf_list(
                            old(self).graph_view(),
                            head,
                            Seq::empty(),
                        ) {
                            Some(items) => r matches Ok(v) && object_views(v@) == items,
                            None => r matches Err(e) && e is MalformedList,
                        },
                        None => r matches Err(e) && e is ExpectedSingleValue,
                    },
                    None => r matches Err(e) && e is ExpectedSubject,
                },
            },
    {
        let head = match self.get_property(pred) {
            Ok(h) => h,
            Err(e) => return Err(e),
        };
        self.focus.set(head);
        self.parse_list()
    }

    /// Every subject with `rdf:type` `type_iri`, in graph order. The focus is not moved.
    pub fn find_instances_of(&mut self, type_iri: String) -> (r: Result<Vec<IriOrBlankNode>, ParseError>)
        ensures
            final(self).graph_view() == old(self).graph_view(),
            final(self).focus_view() == old(self).focus_view(),
            r matches Ok(v) && v@.map_values(|x: IriOrBlankNode| x@) == subjects_of(
                old(self).graph_view(),
                vocab::rdf_type_iri(),
                ObjectV::Iri(type_iri@),
            ),
    {
        Ok(self.rdf.subjects_for(&vocab::rdf_type(), &Object::Iri(type_iri)))
    }

    /// The only subject with `rdf:type` `type_iri`; fails unless there is exactly one.
    pub fn find_single_instance(&mut self, type_iri: String) -> (r: Result<IriOrBlankNode, ParseError>)
        ensures
            final(self).graph_view() == old(self).graph_view(),
            final(self).focus_view() == old(self).focus_view(),
            ({
                let found = subjects_of(old(self).graph_view(), vocab::rdf_type_iri(), ObjectV::Iri(type_iri@));
                if found.len() == 1 {
                    r matches Ok(x) && x@ == found[0]
                } else {
                    r matches Err(e) && e is ExpectedSingleValue
                }
            }),
    {
        let all = self.rdf.subjects_for(&vocab::rdf_type(), &Object::Iri(type_iri.clone()));
        if all.len() == 1 {
            assert(all@.map_values(|x: IriOrBlankNode| x@)[0] == all@[0]@);
            Ok(all[0].clone())
        } else {
            Err(ParseError::ExpectedSingleValue { property: vocab::rdf_type(), count: all.len() })
        }
    }

    /// Succeeds when `predicate` holds of the focus node; `name` names the check.
    pub fn check<F: Fn(&Object) -> bool>(&mut self, predicate: F, name: &str) -> (r: Result<(), ParseError>)
        requires
            forall|t: &Object| predicate.requires((t,)),
        ensures
            final(self).graph_view() == old(self).graph_view(),
            final(self).focus_view() == old(self).focus_view(),
            old(self).focus_node() is None ==> (r matches Err(e) && e is NoFocusNode),
            old(self).focus_node() is Some ==> (r is Ok || (r matches Err(e) && e is CheckFailed)),
            r is Ok ==> exists|t: &Object| old(self).focus_node() == Some(t@) && predicate.ensures((t,), true),
            (r matches Err(e) && e is CheckFailed) ==> exists|t: &Object|
                old(self).focus_node() == Some(t@) && predicate.ensures((t,), false),
    {
        match self.focus.get() {
            None => Err(ParseError::NoFocusNode),
            Some(t) => if predicate(t) {
                Ok(())
            } else {
                Err(ParseError::CheckFailed { name: name.to_string() })
            },
        }
    }
}

// ---------------------------------------------------------------------------
// Terms from text
// ---------------------------------------------------------------------------

/// What `IriS::from_str_base` of rudof_iri yields for text `s` against an
/// optional base: the IRI's text, or the error's message.
pub uninterp spec fn iri_parse(s: Seq<char>, base: Option<Seq<char>>) -> Result<Seq<char>, Seq<char>>;

/// rudof_iri's `IriS::from_str_base`: `s` parsed as an IRI, resolved against
/// `base` when one is given. The contract names its result (`iri_parse`);
/// what IRI syntax it accepts and how it resolves is rudof_iri's and oxiri's.
#[verifier::external_body]
fn resolve_iri(s: &str, base: Option<&str>) -> (r: Result<String, String>)
    ensures
        match r {
            Ok(i) => iri_parse(s@, opt_str_view(base)) == Ok::<Seq<char>, Seq<char>>(i@),
            Err(e) => iri_parse(s@, opt_str_view(base)) == Err::<Seq<char>, Seq<char>>(e@),
        },
{
    rudof_iri::IriS::from_str_base(s, base).map(|i| i.as_str().to_string()).map_err(|e| e.to_string())
}

/// The view of an optional string slice.
pub open spec fn opt_str_view(o: Option<&str>) -> Option<Seq<char>> {
    match o {
        Some(s) => Some(s@),
        None => None,
    }
}

/// The message for text that is a quoted literal.
pub open spec fn quoted_literal_message(s: Seq<char>) -> Seq<char> {
    "Parsing a quoted literal "@ + s
        + " as an Object is not supported here; use the RDF parser for full literal syntax"@
}

impl Object {
    /// Reads a term from text: `_:label` is a blank node; text starting with a
    /// double quote (a literal) is refused; anything else is an IRI, resolved
    /// against `base` when one is given.
    pub fn parse(s: &str, base: Option<&str>) -> (r: Result<Object, ParseError>)
        ensures
            crate::text::has_prefix(s@, "_:"@) ==> (r matches Ok(o) && o@ == ObjectV::BlankNode(s@.skip(2))),
            !crate::text::has_prefix(s@, "_:"@) && crate::text::has_prefix(s@, "\""@) ==> (r matches Err(
                ParseError::ParseFail { msg },
            ) && msg@ == quoted_literal_message(s@)),
            !crate::text::has_prefix(s@, "_:"@) && !crate::text::has_prefix(s@, "\""@) ==> match iri_parse(
                s@,
                opt_str_view(base),
            ) {
                Ok(i) => r matches Ok(o) && o@ == ObjectV::Iri(i),
                Err(e) => r matches Err(ParseError::ParsingIri { iri, error }) && iri@ == s@ && error@ == e,
            },
    {
        proof {
            reveal_strlit("_:");
        }
        match crate::text::strip_prefix(s, "_:") {
            Some(label) => {
                return Ok(Object::BlankNode(crate::text::owned(label)));
            },
            None => {},
        }
        if crate::text::starts_with(s, "\"") {
            let mut msg = crate::text::owned("Parsing a quoted literal ");
            crate::text::push_str(&mut msg, s);
            crate::text::push_str(
                &mut msg,
                " as an Object is not supported here; use the RDF parser for full literal syntax",
            );
            return Err(ParseError::ParseFail { msg });
        }
        match resolve_iri(s, base) {
            Ok(i) => Ok(Object::Iri(i)),
            Err(e) => Err(ParseError::ParsingIri { iri: crate::text::owned(s), error: e }),
        }
    }
}

} // verus!

verus! {

/// A blank node that is not a list and carries no `sh:alternativePath` is
/// read by the first single-valued path property it carries: `sh:inversePath`
/// as the inverse, `sh:zeroOrMorePath` as zero or more, `sh:oneOrMorePath` as
/// one or more, `sh:zeroOrOnePath` as zero or one steps of the path read from
/// that value.
pub proof fn law_wrapped_path_read(g: Seq<TripleV>, node: ObjectV, seen: Seq<ObjectV>, v: ObjectV, p: PathV)
    requires
        node is BlankNode,
        !seen.contains(node),
        seen.len() <= g.len(),
        values_of(g, node, vocab::rdf_first_iri()).len() == 0,
        single_value(g, node, vocab::sh_alternative_path_iri()) is None,
        path_at(g, v, seen.push(node)) == Some(p),
    ensures
        single_value(g, node, vocab::sh_inverse_path_iri()) == Some(v) ==> path_at(g, node, seen) == Some(
            PathV::Inverse(Box::new(p)),
        ),
        single_value(g, node, vocab::sh_inverse_path_iri()) is None && single_value(
            g,
            node,
            vocab::sh_zero_or_more_path_iri(),
        ) == Some(v) ==> path_at(g, node, seen) == Some(PathV::ZeroOrMore(Box::new(p))),
        single_value(g, node, vocab::sh_inverse_path_iri()) is None && single_value(
            g,
            node,
            vocab::sh_zero_or_more_path_iri(),
        ) is None && single_value(g, node, vocab::sh_one_or_more_path_iri()) == Some(v) ==> path_at(
            g,
            node,
            seen,
        ) == Some(PathV::OneOrMore(Box::new(p))),
        single_value(g, node, vocab::sh_inverse_path_iri()) is None && single_value(
            g,
            node,
            vocab::sh_zero_or_more_path_iri(),
        ) is None && single_value(g, node, vocab::sh_one_or_more_path_iri()) is None && single_value(
            g,
            node,
            vocab::sh_zero_or_one_path_iri(),
        ) == Some(v) ==> path_at(g, node, seen) == Some(PathV::ZeroOrOne(Box::new(p))),
{
}

/// A blank node whose only path property is a single `sh:zeroOrMorePath`
/// value `v` is read as zero or more steps of the path read from `v`; so the
/// path read relates every node, in any graph, to itself.
pub proof fn law_zero_or_more_path_read(g: Seq<TripleV>, node: ObjectV, seen: Seq<ObjectV>, v: ObjectV, p: PathV)
    requires
        node is BlankNode,
        !seen.contains(node),
        seen.len() <= g.len(),
        values_of(g, node, vocab::rdf_first_iri()).len() == 0,
        single_value(g, node, vocab::sh_alternative_path_iri()) is None,
        single_value(g, node, vocab::sh_inverse_path_iri()) is None,
        single_value(g, node, vocab::sh_zero_or_more_path_iri()) == Some(v),
        path_at(g, v, seen.push(node)) == Some(p),
    ensures
        path_at(g, node, seen) == Some(PathV::ZeroOrMore(Box::new(p))),
        forall|data: Seq<TripleV>, x: ObjectV| #[trigger] crate::path::on_path(data, x, path_at(g, node, seen)->0, x),
{
    assert forall|data: Seq<TripleV>, x: ObjectV| #[trigger] crate::path::on_path(data, x, path_at(g, node, seen)->0, x) by {
        assert(crate::path::is_count(0));
        assert(crate::path::reaches(data, x, p, 0, x));
    }
}

/// A blank node that heads an RDF list is read as the sequence of the paths
/// that the list's items describe; otherwise one whose single
/// `sh:alternativePath` value is a list is read as the alternative of the
/// paths its items describe. An IRI is read as that predicate.
pub proof fn law_list_path_read(g: Seq<TripleV>, node: ObjectV, seen: Seq<ObjectV>, items: Seq<ObjectV>, ps: Seq<PathV>)
    requires
        node is BlankNode,
        !seen.contains(node),
        seen.len() <= g.len(),
        paths_at(g, items, seen.push(node)) == Some(ps),
    ensures
        values_of(g, node, vocab::rdf_first_iri()).len() > 0 && rdf_list(g, node, Seq::empty()) == Some(items)
            ==> path_at(g, node, seen) == Some(PathV::Sequence(ps)),
        values_of(g, node, vocab::rdf_first_iri()).len() == 0 && single_value(
            g,
            node,
            vocab::sh_alternative_path_iri(),
        ) is Some && rdf_list(g, single_value(g, node, vocab::sh_alternative_path_iri())->0, Seq::empty())
            == Some(items) ==> path_at(g, node, seen) == Some(PathV::Alternative(ps)),
        forall|i: Seq<char>| #[trigger] path_at(g, ObjectV::Iri(i), seen) == Some(PathV::Predicate(i)),
{
}

} // verus!
