//! A form session: the live data graph, plus the loaded shapes graph and its
//! schema. Graph edits, path projection and the focus-scoped subgraph that a
//! form writes back.
use vstd::prelude::*;
use crate::ast::ASTSchema;
use crate::dto::RDFFormat;
use crate::rdfio::{text_read, text_readable, text_written, written_as};
use crate::graph::{Graph, Triple, TripleV, contains_object, object_views, triple_views};
use crate::ir::IRSchema;
use crate::path::{SHACLPath, graph_terms, is_count, is_node, lemma_terms_finite, lemma_triple_in_terms, path_list, path_values, views_set};
use crate::term::{IriOrBlankNode, Object, ObjectV, object_as_subject, subject_as_object};
use crate::text::{concat2, owned};

verus! {

/// Errors of a form session.
#[derive(Debug)]
pub enum FormError {
    Parse(String),
    Serialize(String),
    Graph(String),
    NoShapes,
    ShapeNotFound(String),
    Validation(String),
}

/// The message of an error.
pub open spec fn form_error_message(e: FormError) -> Seq<char> {
    match e {
        FormError::Parse(m) => m@,
        FormError::Serialize(m) => m@,
        FormError::Graph(m) => m@,
        FormError::NoShapes => "no shapes loaded; call loadShapes first"@,
        FormError::ShapeNotFound(id) => "shape not found in shapes graph: "@ + id@,
        FormError::Validation(m) => m@,
    }
}

impl FormError {
    /// The error's message.
    pub fn to_display(&self) -> (r: String)
        ensures
            r@ == form_error_message(*self),
    {
        match self {
            FormError::Parse(m) => m.clone(),
            FormError::Serialize(m) => m.clone(),
            FormError::Graph(m) => m.clone(),
            FormError::NoShapes => owned("no shapes loaded; call loadShapes first"),
            FormError::ShapeNotFound(id) => concat2("shape not found in shapes graph: ", id.as_str()),
            FormError::Validation(m) => m.clone(),
        }
    }
}

/// The index of the shape with IRI `shape_id` in a compiled schema, or
/// `ShapeNotFound` with that IRI.
pub fn resolve_idx(ir: &IRSchema, shape_id: &str) -> (r: Result<usize, FormError>)
    ensures
        match r {
            Ok(i) => i < ir@.len() && ir@[i as int] == ObjectV::Iri(shape_id@),
            Err(e) => !ir@.contains(ObjectV::Iri(shape_id@)) && (e matches FormError::ShapeNotFound(s) && s@
                == shape_id@),
        },
{
    let shape_ref = Object::Iri(owned(shape_id));
    match ir.get_idx(&shape_ref) {
        Some(i) => Ok(i),
        None => Err(FormError::ShapeNotFound(owned(shape_id))),
    }
}

// ---------------------------------------------------------------------------
// The focus-scoped subgraph
// ---------------------------------------------------------------------------

/// `y` is an IRI or blank node that is the object of a triple about `x`.
pub open spec fn link(g: Seq<TripleV>, x: ObjectV, y: ObjectV) -> bool {
    exists|i: int|
        0 <= i < g.len() && object_as_subject(x) == Some(g[i].subject) && g[i].object == y && (object_as_subject(
            y,
        ) is Some)
}

/// `y` is reached from `n` by exactly `k` links.
pub open spec fn linked(g: Seq<TripleV>, n: ObjectV, k: nat, y: ObjectV) -> bool
    decreases k,
{
    if k == 0 {
        y == n
    } else {
        exists|x: ObjectV| #[trigger] is_node(x) && linked(g, n, (k - 1) as nat, x) && link(g, x, y)
    }
}

/// `y` is reached from `n` by following links.
pub open spec fn reachable(g: Seq<TripleV>, n: ObjectV, y: ObjectV) -> bool {
    exists|k: nat| #[trigger] is_count(k) && linked(g, n, k, y)
}

/// The triples of `g` whose subject is reached from `n`: the record of `n`
/// with the records of the resources it refers to, transitively.
pub open spec fn focus_triples(g: Seq<TripleV>, n: ObjectV) -> Set<TripleV> {
    Set::new(|t: TripleV| g.contains(t) && reachable(g, n, subject_as_object(t.subject)))
}

/// A set of resources that holds `n` (when a resource) and is closed under
/// links holds every resource reached from `n`.
proof fn lemma_linked_closed(g: Seq<TripleV>, n: ObjectV, o: Set<ObjectV>, k: nat, y: ObjectV)
    requires
        object_as_subject(n) is Some ==> o.contains(n),
        forall|x: ObjectV, z: ObjectV| o.contains(x) && #[trigger] link(g, x, z) ==> o.contains(z),
        linked(g, n, k, y),
        object_as_subject(y) is Some,
    ensures
        o.contains(y),
    decreases k,
{
    if k > 0 {
        let x = choose|x: ObjectV| is_node(x) && linked(g, n, (k - 1) as nat, x) && link(g, x, y);
        lemma_linked_closed(g, n, o, (k - 1) as nat, x);
    }
}

/// A resource reached by at least one link is a term of the graph.
proof fn lemma_linked_in_terms(g: Seq<TripleV>, n: ObjectV, k: nat, y: ObjectV)
    requires
        linked(g, n, k, y),
    ensures
        graph_terms(g).insert(n).contains(y),
{
    if k > 0 {
        let x = choose|x: ObjectV| is_node(x) && linked(g, n, (k - 1) as nat, x) && link(g, x, y);
        let i = choose|i: int|
            0 <= i < g.len() && object_as_subject(x) == Some(g[i].subject) && g[i].object == y && (
            object_as_subject(y) is Some);
        lemma_triple_in_terms(g, i);
    }
}

/// The focus-scoped subgraph is closed under references: with a triple
/// whose object is an IRI or blank node, it holds every triple about that
/// object.
pub proof fn law_focus_triples_closed(g: Seq<TripleV>, n: ObjectV, t: TripleV, u: TripleV)
    requires
        focus_triples(g, n).contains(t),
        g.contains(u),
        object_as_subject(t.object) == Some(u.subject),
    ensures
        focus_triples(g, n).contains(u),
{
    let x = subject_as_object(t.subject);
    let k = choose|k: nat| is_count(k) && linked(g, n, k, x);
    let i = choose|i: int| 0 <= i < g.len() && g[i] == t;
    assert(link(g, x, t.object));
    assert(is_node(x));
    assert(linked(g, n, k + 1, t.object));
    assert(subject_as_object(u.subject) == t.object);
    assert(is_count(k + 1));
}

/// The focus-scoped subgraph holds every triple about the focus itself.
pub proof fn law_focus_triples_hold_focus(g: Seq<TripleV>, n: ObjectV, t: TripleV)
    requires
        g.contains(t),
        object_as_subject(n) == Some(t.subject),
    ensures
        focus_triples(g, n).contains(t),
{
    assert(linked(g, n, 0, n));
    assert(is_count(0));
    assert(subject_as_object(t.subject) == n);
}

/// Removing a triple that adding put in a graph gives the graph back.
pub proof fn law_remove_after_add(g: Seq<TripleV>, t: TripleV, i: int)
    requires
        !g.contains(t),
        0 <= i < crate::graph::with_triple(g, t).len(),
        crate::graph::with_triple(g, t)[i] == t,
    ensures
        crate::graph::with_triple(g, t).remove(i) == g,
{
    if i < g.len() {
        assert(g[i] == t);
    }
    assert(g.push(t).remove(i) =~= g);
}

// ---------------------------------------------------------------------------
// The session
// ---------------------------------------------------------------------------

/// One form session: the live data graph, and the shapes graph with its
/// schema once shapes are loaded.
pub struct FormEngine {
    data: Graph,
    shapes_graph: Option<Graph>,
    shapes_ast: Option<ASTSchema>,
}

impl FormEngine {
    /// The live data graph.
    pub closed spec fn data_graph(&self) -> Graph {
        self.data
    }

    /// The loaded shapes graph.
    pub closed spec fn loaded_graph(&self) -> Option<Graph> {
        self.shapes_graph
    }

    /// The loaded schema.
    pub closed spec fn loaded_schema(&self) -> Option<ASTSchema> {
        self.shapes_ast
    }

    /// A session with an empty data graph and no shapes.
    pub fn new() -> (r: FormEngine)
        ensures
            r.data_graph()@ == Seq::<TripleV>::empty(),
            r.loaded_graph() is None,
            r.loaded_schema() is None,
    {
        FormEngine { data: Graph::new(), shapes_graph: None, shapes_ast: None }
    }

    /// Reads RDF text in `format` into a graph; on a parser error, `Parse`
    /// with its message.
    pub fn parse_graph(text: &str, format: &RDFFormat) -> (r: Result<Graph, FormError>)
        ensures
            text_read(text@, *format, r),
            r is Ok <==> text_readable(text@, *format),
    {
        crate::rdfio::parse_text(text, format)
    }

    /// Loads shapes: the shapes graph read from `text` and the schema read
    /// from that graph. On an error of either the session is unchanged: the
    /// reader's error first, else the schema's message as a `Parse` error.
    pub fn load_shapes(&mut self, text: &str, format: &RDFFormat, schema: Result<ASTSchema, String>) -> (r:
        Result<(), FormError>)
        ensures
            match r {
                Ok(()) => (schema matches Ok(s) && final(self).loaded_schema() == Some(s))
                    && (final(self).loaded_graph() matches Some(g) && text_read(text@, *format, Ok::<Graph, FormError>(g)))
                    && final(self).data_graph() == old(self).data_graph(),
                Err(e) => *final(self) == *old(self) && if text_readable(text@, *format) {
                    schema matches Err(m) && e matches FormError::Parse(x) && x@ == m@
                } else {
                    text_read(text@, *format, Err::<Graph, FormError>(e))
                },
            },
            (schema is Ok && text_readable(text@, *format)) <==> r is Ok,
            schema_step(
                *old(self),
                *final(self),
                match schema {
                    Ok(s) => if r is Ok { Some(s) } else { None },
                    Err(_) => None,
                },
            ),
    {
        let graph = match Self::parse_graph(text, format) {
            Ok(g) => g,
            Err(e) => {
                return Err(e);
            },
        };
        let schema = match schema {
            Ok(s) => s,
            Err(m) => {
                return Err(FormError::Parse(m));
            },
        };
        self.shapes_graph = Some(graph);
        self.shapes_ast = Some(schema);
        Ok(())
    }

    /// The loaded schema, if any.
    pub fn shapes_ast(&self) -> (r: Option<&ASTSchema>)
        ensures
            match r {
                Some(s) => self.loaded_schema() == Some(*s),
                None => self.loaded_schema() is None,
            },
    {
        match &self.shapes_ast {
            Some(s) => Some(s),
            None => None,
        }
    }

    /// The loaded shapes graph, if any.
    pub fn shapes_graph(&self) -> (r: Option<&Graph>)
        ensures
            match r {
                Some(g) => self.loaded_graph() == Some(*g),
                None => self.loaded_graph() is None,
            },
    {
        match &self.shapes_graph {
            Some(g) => Some(g),
            None => None,
        }
    }

    /// Replaces the data graph with the graph read from `text`; on a parse
    /// error the session is unchanged.
    pub fn load_data(&mut self, text: &str, format: &RDFFormat) -> (r: Result<(), FormError>)
        ensures
            match r {
                Ok(()) => text_read(text@, *format, Ok::<Graph, FormError>(final(self).data_graph()))
                    && final(self).loaded_graph() == old(self).loaded_graph() && final(self).loaded_schema()
                    == old(self).loaded_schema(),
                Err(e) => text_read(text@, *format, Err::<Graph, FormError>(e)) && *final(self) == *old(self),
            },
            schema_step(*old(self), *final(self), None),
    {
        let parsed = Self::parse_graph(text, format);
        self.install_data(parsed)
    }

    /// Installs a read data graph, or passes its error on unchanged.
    fn install_data(&mut self, parsed: Result<Graph, FormError>) -> (r: Result<(), FormError>)
        ensures
            match parsed {
                Ok(g) => r is Ok && final(self).data_graph() == g && final(self).loaded_graph()
                    == old(self).loaded_graph() && final(self).loaded_schema() == old(self).loaded_schema(),
                Err(e) => r == Err::<(), FormError>(e) && *final(self) == *old(self),
            },
    {
        match parsed {
            Ok(g) => {
                self.data = g;
                Ok(())
            },
            Err(e) => Err(e),
        }
    }

    /// Writes the data graph as RDF text in `format`; on a writer error,
    /// `Serialize` with its message.
    pub fn serialize(&self, format: &RDFFormat) -> (r: Result<String, FormError>)
        ensures
            written_as(text_written(*format, self.data_graph().prefix_view(), self.data_graph()@), r),
    {
        crate::rdfio::serialize_text(&self.data, format)
    }

    /// Writes the focus-scoped subgraph of `focus` (see `focus_subgraph`) as
    /// RDF text in `format`.
    pub fn serialize_focus(&self, focus: &Object, format: &RDFFormat) -> (r: Result<String, FormError>)
        ensures
            exists|sub: Seq<TripleV>|
                #![trigger text_written(*format, self.data_graph().prefix_view(), sub)]
                sub.to_set() == focus_triples(self.data_graph()@, focus@) && sub.no_duplicates() && written_as(
                    text_written(*format, self.data_graph().prefix_view(), sub),
                    r,
                ),
    {
        let sub = self.focus_subgraph(focus);
        let r = crate::rdfio::serialize_text(&sub, format);
        assert(written_as(text_written(*format, self.data_graph().prefix_view(), sub@), r));
        r
    }

    /// Empties the data graph.
    pub fn new_data(&mut self)
        ensures
            final(self).data_graph()@ == Seq::<TripleV>::empty(),
            final(self).loaded_graph() == old(self).loaded_graph(),
            final(self).loaded_schema() == old(self).loaded_schema(),
            schema_step(*old(self), *final(self), None),
    {
        self.data = Graph::new();
    }

    /// Adds a triple to the data graph.
    pub fn add_triple(&mut self, subject: IriOrBlankNode, predicate: String, object: Object) -> (r: Result<
        (),
        FormError,
    >)
        ensures
            r is Ok,
            final(self).data_graph()@ == crate::graph::with_triple(
                old(self).data_graph()@,
                TripleV { subject: subject@, predicate: predicate@, object: object@ },
            ),
            final(self).data_graph().prefix_view() == old(self).data_graph().prefix_view(),
            final(self).loaded_graph() == old(self).loaded_graph(),
            final(self).loaded_schema() == old(self).loaded_schema(),
            schema_step(*old(self), *final(self), None),
    {
        self.data.add_triple(subject, predicate, object);
        Ok(())
    }

    /// Removes a triple from the data graph, keeping the order of the others.
    pub fn remove_triple(&mut self, subject: IriOrBlankNode, predicate: String, object: Object) -> (r: Result<
        (),
        FormError,
    >)
        ensures
            r is Ok,
            ({
                let t = TripleV { subject: subject@, predicate: predicate@, object: object@ };
                let before = old(self).data_graph()@;
                let after = final(self).data_graph()@;
                &&& !before.contains(t) ==> after == before
                &&& before.contains(t) ==> exists|i: int|
                    0 <= i < before.len() && before[i] == t && after == before.remove(i)
            }),
            final(self).data_graph().prefix_view() == old(self).data_graph().prefix_view(),
            final(self).loaded_graph() == old(self).loaded_graph(),
            final(self).loaded_schema() == old(self).loaded_schema(),
            schema_step(*old(self), *final(self), None),
    {
        self.data.remove_triple(subject, predicate, object);
        Ok(())
    }

    /// The triples of the data graph, in graph order.
    pub fn quads(&self) -> (r: Vec<Triple>)
        ensures
            triple_views(r@) == self.data_graph()@,
    {
        self.data.triples()
    }

    /// The data graph.
    pub fn data(&self) -> (r: &Graph)
        ensures
            *r == self.data_graph(),
    {
        &self.data
    }

    /// The subgraph that a form on `focus` writes back: the triples about
    /// `focus`, and about every IRI or blank node they refer to, transitively;
    /// with the data graph's prefix declarations.
    pub fn focus_subgraph(&self, focus: &Object) -> (r: Graph)
        ensures
            r@.to_set() == focus_triples(self.data_graph()@, focus@),
            r@.no_duplicates(),
            r.prefix_view() == self.data_graph().prefix_view(),
    {
        let ghost gv = self.data@;
        let ghost n = focus@;
        let ghost u = graph_terms(gv).insert(n);
        proof {
            lemma_terms_finite(gv);
            assert(linked(gv, n, 0, n));
            assert(is_count(0));
        }
        let mut sub = Graph::new();
        sub.copy_prefixes(&self.data);
        let mut seen: Vec<Object> = Vec::new();
        let mut stack: Vec<Object> = Vec::new();
        stack.push(focus.clone());
        assert(object_views(stack@)[0] == n);
        assert(object_views(seen@) =~= Seq::<ObjectV>::empty());
        while stack.len() > 0
            invariant
                gv == self.data@,
                n == focus@,
                u == graph_terms(gv).insert(n),
                u.finite(),
                sub.prefix_view() == self.data.prefix_view(),
                forall|i: int|
                    0 <= i < seen.len() ==> reachable(gv, n, #[trigger] seen@[i]@) && object_as_subject(
                        seen@[i]@,
                    ) is Some,
                forall|i: int| 0 <= i < stack.len() ==> reachable(gv, n, #[trigger] stack@[i]@),
                object_as_subject(n) is Some ==> object_views(seen@).contains(n) || object_views(stack@).contains(n),
                forall|x: ObjectV, y: ObjectV|
                    object_views(seen@).contains(x) && #[trigger] link(gv, x, y) ==> object_views(seen@).contains(y)
                        || object_views(stack@).contains(y),
                forall|t: TripleV|
                    #[trigger] sub@.contains(t) <==> gv.contains(t) && object_views(seen@).contains(
                        subject_as_object(t.subject),
                    ),
                object_views(seen@).no_duplicates(),
                object_views(seen@).to_set().subset_of(u),
                seen.len() <= u.len(),
            decreases u.len() - seen.len(), stack.len(),
        {
            let ghost old_seen = seen@;
            let ghost old_stack = stack@;
            let node = stack.pop().unwrap();
            proof {
                assert(node@ == old_stack[old_stack.len() - 1]@);
                assert(object_views(old_stack) =~= object_views(stack@).push(node@));
                assert(reachable(gv, n, old_stack[old_stack.len() - 1]@));
            }
            let subj = match node.as_subject() {
                Some(s) => s,
                None => {
                    proof {
                        assert forall|i: int| 0 <= i < stack.len() implies reachable(gv, n, #[trigger] stack@[i]@) by {
                            assert(stack@[i] == old_stack[i]);
                        }
                        assert forall|x: ObjectV, y: ObjectV|
                            object_views(seen@).contains(x) && #[trigger] link(gv, x, y) implies object_views(
                                seen@,
                            ).contains(y) || object_views(stack@).contains(y) by {
                            if object_views(old_stack).contains(y) && y != node@ {
                                let j = choose|j: int|
                                    0 <= j < old_stack.len() && object_views(old_stack)[j] == y;
                                assert(object_views(stack@)[j] == y);
                            }
                        }
                        if object_as_subject(n) is Some && !object_views(seen@).contains(n) {
                            let j = choose|j: int| 0 <= j < old_stack.len() && object_views(old_stack)[j] == n;
                            assert(object_views(stack@)[j] == n);
                        }
                    }
                    continue;
                },
            };
            if contains_object(&seen, &node) {
                proof {
                    assert forall|i: int| 0 <= i < stack.len() implies reachable(gv, n, #[trigger] stack@[i]@) by {
                        assert(stack@[i] == old_stack[i]);
                    }
                    assert forall|x: ObjectV, y: ObjectV|
                        object_views(seen@).contains(x) && #[trigger] link(gv, x, y) implies object_views(
                            seen@,
                        ).contains(y) || object_views(stack@).contains(y) by {
                        if object_views(old_stack).contains(y) && y != node@ {
                            let j = choose|j: int| 0 <= j < old_stack.len() && object_views(old_stack)[j] == y;
                            assert(object_views(stack@)[j] == y);
                        }
                    }
                    if object_as_subject(n) is Some && !object_views(seen@).contains(n) {
                        let j = choose|j: int| 0 <= j < old_stack.len() && object_views(old_stack)[j] == n;
                        assert(object_views(stack@)[j] == n);
                    }
                }
                continue;
            }
            proof {
                let k = choose|k: nat| is_count(k) && linked(gv, n, k, node@);
                lemma_linked_in_terms(gv, n, k, node@);
            }
            seen.push(node.clone());
            proof {
                assert(object_views(seen@) =~= object_views(old_seen).push(node@));
                object_views(old_seen).lemma_push_to_set_commute(node@);
                object_views(seen@).unique_seq_to_set();
                vstd::set_lib::lemma_len_subset(object_views(seen@).to_set(), u);
            }
            let ghost base = stack@;
            let ghost sub0 = sub@;
            assert(forall|t: TripleV|
                sub0.contains(t) <==> gv.contains(t) && object_views(old_seen).contains(subject_as_object(t.subject)));
            let mut j: usize = 0;
            while j < self.data.len()
                invariant
                    gv == self.data@,
                    n == focus@,
                    j <= gv.len(),
                    object_as_subject(node@) == Some(subj@),
                    reachable(gv, n, node@),
                    sub.prefix_view() == self.data.prefix_view(),
                    stack@.len() >= base.len(),
                    forall|i: int| 0 <= i < base.len() ==> stack@[i] == base[i],
                    forall|i: int|
                        base.len() <= i < stack.len() ==> exists|jj: int|
                            0 <= jj < j && gv[jj].subject == subj@ && gv[jj].object == #[trigger] stack@[i]@
                                && object_as_subject(stack@[i]@) is Some,
                    forall|jj: int|
                        0 <= jj < j && gv[jj].subject == subj@ && object_as_subject(gv[jj].object) is Some
                            ==> object_views(stack@).contains(#[trigger] gv[jj].object),
                    forall|t: TripleV|
                        #[trigger] sub@.contains(t) <==> sub0.contains(t) || (gv.take(j as int).contains(t)
                            && t.subject == subj@),
                decreases gv.len() - j,
            {
                let t = self.data.get(j);
                let ghost before_stack = stack@;
                let ghost before_sub = sub@;
                assert(forall|t2: TripleV|
                    #[trigger] before_sub.contains(t2) <==> sub0.contains(t2) || (gv.take(j as int).contains(t2)
                        && t2.subject == subj@));
                if t.subject.equals(&subj) {
                    if t.object.is_resource() {
                        stack.push(t.object.clone());
                        proof {
                            assert(object_views(stack@) =~= object_views(before_stack).push(t.object@));
                        }
                    }
                    sub.add(t.clone());
                    assert(sub@ == crate::graph::with_triple(before_sub, t@));
                }
                proof {
                    assert forall|t2: TripleV|
                        sub@.contains(t2) <==> before_sub.contains(t2) || (gv[j as int].subject == subj@ && t2
                            == gv[j as int]) by {
                        if gv[j as int].subject == subj@ && !before_sub.contains(gv[j as int]) {
                            vstd::seq_lib::lemma_seq_contains_after_push(before_sub, gv[j as int], t2);
                        }
                    }
                    assert(gv.take(j as int + 1) =~= gv.take(j as int).push(gv[j as int]));
                    assert forall|i: int|
                        base.len() <= i < stack.len() implies exists|jj: int|
                            0 <= jj < j + 1 && gv[jj].subject == subj@ && gv[jj].object == #[trigger] stack@[i]@
                                && object_as_subject(stack@[i]@) is Some by {
                        if i < before_stack.len() {
                            assert(stack@[i] == before_stack[i]);
                        }
                    }
                    assert forall|jj: int|
                        0 <= jj < j + 1 && gv[jj].subject == subj@ && object_as_subject(gv[jj].object) is Some
                            implies object_views(stack@).contains(#[trigger] gv[jj].object) by {
                        if jj < j {
                            let w = choose|w: int|
                                0 <= w < before_stack.len() && object_views(before_stack)[w] == gv[jj].object;
                            assert(object_views(stack@)[w] == gv[jj].object);
                        } else {
                            assert(object_views(stack@)[stack.len() - 1] == gv[jj].object);
                        }
                    }
                    assert forall|t2: TripleV|
                        #[trigger] sub@.contains(t2) <==> sub0.contains(t2) || (gv.take(j as int + 1).contains(t2)
                            && t2.subject == subj@) by {
                        vstd::seq_lib::lemma_seq_contains_after_push(gv.take(j as int), gv[j as int], t2);
                        assert(sub@.contains(t2) <==> before_sub.contains(t2) || (gv[j as int].subject == subj@
                            && t2 == gv[j as int]));
                        assert(before_sub.contains(t2) <==> sub0.contains(t2) || (gv.take(j as int).contains(t2)
                            && t2.subject == subj@));
                    }
                }
                j = j + 1;
            }
            proof {
                assert(gv.take(j as int) =~= gv);
                assert forall|i: int|
                    0 <= i < seen.len() implies reachable(gv, n, #[trigger] seen@[i]@) && object_as_subject(
                        seen@[i]@,
                    ) is Some by {
                    if i < old_seen.len() {
                        assert(seen@[i] == old_seen[i]);
                    }
                }
                let kk = choose|k: nat| is_count(k) && linked(gv, n, k, node@);
                assert forall|i: int| 0 <= i < stack.len() implies reachable(gv, n, #[trigger] stack@[i]@) by {
                    if i < base.len() {
                        assert(stack@[i] == base[i]);
                        assert(base[i] == old_stack[i]);
                    } else {
                        let jj = choose|jj: int|
                            0 <= jj < gv.len() && gv[jj].subject == subj@ && gv[jj].object == stack@[i]@
                                && object_as_subject(stack@[i]@) is Some;
                        assert(link(gv, node@, stack@[i]@));
                        assert(is_node(node@));
                        assert(linked(gv, n, kk + 1, stack@[i]@));
                        assert(is_count(kk + 1));
                    }
                }
                assert(object_views(seen@)[old_seen.len() as int] == node@);
                assert forall|y: ObjectV| #[trigger] object_views(base).contains(y) implies object_views(
                    stack@,
                ).contains(y) by {
                    let w = choose|w: int| 0 <= w < base.len() && object_views(base)[w] == y;
                    assert(object_views(stack@)[w] == y);
                }
                vstd::seq_lib::lemma_seq_contains_after_push(object_views(old_seen), node@, n);
                if object_as_subject(n) is Some && !object_views(seen@).contains(n) {
                    assert(object_views(base).contains(n));
                }
                assert forall|x: ObjectV, y: ObjectV|
                    object_views(seen@).contains(x) && #[trigger] link(gv, x, y) implies object_views(
                        seen@,
                    ).contains(y) || object_views(stack@).contains(y) by {
                    if x == node@ {
                        let i = choose|i: int|
                            0 <= i < gv.len() && object_as_subject(x) == Some(gv[i].subject) && gv[i].object == y
                                && (object_as_subject(y) is Some);
                        assert(object_views(stack@).contains(gv[i].object));
                    } else {
                        let w = choose|w: int| 0 <= w < object_views(seen@).len() && object_views(seen@)[w] == x;
                        assert(object_views(old_seen)[w] == x);
                        if y == node@ {
                        } else if object_views(old_seen).contains(y) {
                            let v = choose|v: int| 0 <= v < old_seen.len() && object_views(old_seen)[v] == y;
                            assert(object_views(seen@)[v] == y);
                        } else {
                            assert(object_views(base).contains(y));
                        }
                    }
                }
                assert forall|t: TripleV|
                    sub@.contains(t) <==> gv.contains(t) && object_views(seen@).contains(
                        subject_as_object(t.subject),
                    ) by {
                    let so = subject_as_object(t.subject);
                    vstd::seq_lib::lemma_seq_contains_after_push(object_views(old_seen), node@, so);
                    assert(so == node@ <==> t.subject == subj@);
                }
            }
        }
        proof {
            let o = object_views(seen@).to_set();
            assert forall|t: TripleV| sub@.contains(t) implies focus_triples(gv, n).contains(t) by {
                let so = subject_as_object(t.subject);
                assert(object_views(seen@).contains(so));
                let v = choose|v: int| 0 <= v < object_views(seen@).len() && object_views(seen@)[v] == so;
                assert(seen@[v]@ == so);
            }
            assert forall|t: TripleV| focus_triples(gv, n).contains(t) implies sub@.contains(t) by {
                let so = subject_as_object(t.subject);
                let k = choose|k: nat| is_count(k) && linked(gv, n, k, so);
                lemma_linked_closed(gv, n, o, k, so);
            }
            assert(sub@.to_set() =~= focus_triples(gv, n));
        }
        let _ = sub.len();
        sub
    }

    /// The values of a path from `focus` in the data graph, listed as
    /// [`path_list`] lists them.
    pub fn eval_path(&self, focus: &Object, path: &SHACLPath) -> (r: Vec<Object>)
        ensures
            views_set(r@) == path_values(self.data_graph()@, focus@, path@),
            object_views(r@) == path_list(self.data_graph()@, focus@, path@),
    {
        crate::path::eval_path(&self.data, focus, path)
    }
}

} // verus!


verus! {

/// The schema that the last of `loads` to load one loaded; `None` when none did.
pub open spec fn last_loaded(loads: Seq<Option<ASTSchema>>) -> Option<ASTSchema>
    decreases loads.len(),
{
    if loads.len() == 0 {
        None
    } else {
        match loads.last() {
            Some(s) => Some(s),
            None => last_loaded(loads.drop_last()),
        }
    }
}

/// One call on a session as it bears on the loaded schema: a call that
/// loaded `s` (a successful `load_shapes`) leaves `s` loaded; any other call
/// keeps what was loaded. Every method's contract gives this step.
pub open spec fn schema_step(before: FormEngine, after: FormEngine, loaded: Option<ASTSchema>) -> bool {
    match loaded {
        Some(s) => after.loaded_schema() == Some(s),
        None => after.loaded_schema() == before.loaded_schema(),
    }
}

/// The loaded schema of a session is the one the latest successful
/// `load_shapes` loaded, and there is none until one succeeds: over any run
/// of calls from a new session, each a schema step, the schema at the end is
/// the last one loaded.
pub proof fn law_schema_is_last_loaded(states: Seq<FormEngine>, loads: Seq<Option<ASTSchema>>)
    requires
        states.len() == loads.len() + 1,
        states[0].loaded_schema() is None,
        forall|i: int| 0 <= i < loads.len() ==> schema_step(#[trigger] states[i], states[i + 1], loads[i]),
    ensures
        states.last().loaded_schema() == last_loaded(loads),
    decreases loads.len(),
{
    if loads.len() > 0 {
        let k = loads.len() - 1;
        assert(schema_step(states[k], states[k + 1], loads[k]));
        law_schema_is_last_loaded(states.drop_last(), loads.drop_last());
        assert(states.drop_last().last() == states[k]);
    }
}

} // verus!
