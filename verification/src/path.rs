//! SHACL property paths and their evaluation over a graph.
use vstd::prelude::*;
use crate::graph::{
    Graph, TripleV, append_objects, contains_object, object_views, objects_of, subjects_of,
};
use crate::term::{IriOrBlankNode, Object, ObjectV, SubjectV, object_as_subject, subject_as_object};

verus! {

/// A SHACL property path.
pub enum SHACLPath {
    Predicate { pred: String },
    Alternative { paths: Vec<SHACLPath> },
    Sequence { paths: Vec<SHACLPath> },
    Inverse { path: Box<SHACLPath> },
    ZeroOrMore { path: Box<SHACLPath> },
    OneOrMore { path: Box<SHACLPath> },
    ZeroOrOne { path: Box<SHACLPath> },
}

/// Mathematical view of a [`SHACLPath`].
pub enum PathV {
    Predicate(Seq<char>),
    Alternative(Seq<PathV>),
    Sequence(Seq<PathV>),
    Inverse(Box<PathV>),
    ZeroOrMore(Box<PathV>),
    OneOrMore(Box<PathV>),
    ZeroOrOne(Box<PathV>),
}

impl SHACLPath {
    /// The path this value describes.
    pub open spec fn view_of(&self) -> PathV
        decreases self,
    {
        match self {
            SHACLPath::Predicate { pred } => PathV::Predicate(pred@),
            SHACLPath::Alternative { paths } => PathV::Alternative(
                Seq::new(
                    paths.len() as nat,
                    |i: int|
                        if 0 <= i < paths.len() {
                            paths@[i].view_of()
                        } else {
                            PathV::Predicate(Seq::empty())
                        },
                ),
            ),
            SHACLPath::Sequence { paths } => PathV::Sequence(
                Seq::new(
                    paths.len() as nat,
                    |i: int|
                        if 0 <= i < paths.len() {
                            paths@[i].view_of()
                        } else {
                            PathV::Predicate(Seq::empty())
                        },
                ),
            ),
            SHACLPath::Inverse { path } => PathV::Inverse(Box::new((**path).view_of())),
            SHACLPath::ZeroOrMore { path } => PathV::ZeroOrMore(Box::new((**path).view_of())),
            SHACLPath::OneOrMore { path } => PathV::OneOrMore(Box::new((**path).view_of())),
            SHACLPath::ZeroOrOne { path } => PathV::ZeroOrOne(Box::new((**path).view_of())),
        }
    }
}

impl View for SHACLPath {
    type V = PathV;

    open spec fn view(&self) -> PathV {
        self.view_of()
    }
}

/// Every term of a graph: its objects, and its subjects in object position.
pub open spec fn graph_terms(g: Seq<TripleV>) -> Set<ObjectV> {
    (g.map_values(|t: TripleV| t.object) + g.map_values(
        |t: TripleV| subject_as_object(t.subject),
    )).to_set()
}

/// The set of the views of a vector of terms.
pub open spec fn views_set(v: Seq<Object>) -> Set<ObjectV> {
    object_views(v).to_set()
}

/// `y` is an object of a triple whose subject is `n` and whose predicate is `p`.
pub open spec fn predicate_step(g: Seq<TripleV>, n: ObjectV, p: Seq<char>, y: ObjectV) -> bool {
    exists|i: int|
        0 <= i < g.len() && object_as_subject(n) == Some(g[i].subject) && g[i].predicate == p
            && g[i].object == y
}

/// `y` is the subject of a triple whose predicate is `p` and whose object is `n`.
pub open spec fn inverse_step(g: Seq<TripleV>, n: ObjectV, p: Seq<char>, y: ObjectV) -> bool {
    exists|i: int|
        0 <= i < g.len() && g[i].predicate == p && g[i].object == n && y == subject_as_object(
            g[i].subject,
        )
}

/// Names a term in a quantifier over intermediate nodes (its trigger); always true.
pub open spec fn is_node(x: ObjectV) -> bool {
    true
}

/// Names a number in a quantifier over repetition counts (its trigger); always true.
pub open spec fn is_count(k: nat) -> bool {
    true
}

/// `y` is a value of path `p` from node `n` in graph `g`. The values of an
/// inverse path are the nodes from which the inner path reaches `n`.
pub open spec fn on_path(g: Seq<TripleV>, n: ObjectV, p: PathV, y: ObjectV) -> bool
    decreases p, 0nat,
{
    match p {
        PathV::Predicate(pred) => predicate_step(g, n, pred, y),
        PathV::Inverse(inner) => on_path(g, y, *inner, n),
        PathV::Sequence(ps) => on_sequence(g, n, ps, y),
        PathV::Alternative(ps) => exists|i: int| 0 <= i < ps.len() && on_path(g, n, #[trigger] ps[i], y),
        PathV::ZeroOrMore(inner) => exists|k: nat| #[trigger] is_count(k) && reaches(g, n, *inner, k, y),
        PathV::OneOrMore(inner) => exists|k: nat|
            #[trigger] is_count(k) && k >= 1 && reaches(g, n, *inner, k, y),
        PathV::ZeroOrOne(inner) => y == n || on_path(g, n, *inner, y),
    }
}

/// `y` is reached from `n` by the steps `ps`, one after another.
pub open spec fn on_sequence(g: Seq<TripleV>, n: ObjectV, ps: Seq<PathV>, y: ObjectV) -> bool
    decreases ps, 0nat,
{
    if ps.len() == 0 {
        y == n
    } else {
        exists|x: ObjectV|
            #[trigger] is_node(x) && on_sequence(g, n, ps.drop_last(), x) && on_path(g, x, ps.last(), y)
    }
}

/// `y` is reached from `n` by exactly `k` steps of path `step`.
pub open spec fn reaches(g: Seq<TripleV>, n: ObjectV, step: PathV, k: nat, y: ObjectV) -> bool
    decreases step, k + 1,
{
    if k == 0 {
        y == n
    } else {
        exists|x: ObjectV|
            #[trigger] is_node(x) && reaches(g, n, step, (k - 1) as nat, x) && on_path(g, x, step, y)
    }
}

/// `y` is reached from `n` by `first` or more steps of path `step`.
pub open spec fn reached(g: Seq<TripleV>, n: ObjectV, step: PathV, first: nat, y: ObjectV) -> bool {
    exists|k: nat| #[trigger] is_count(k) && k >= first && reaches(g, n, step, k, y)
}

/// The values of path `p` from node `n` in graph `g`.
pub open spec fn path_values(g: Seq<TripleV>, n: ObjectV, p: PathV) -> Set<ObjectV> {
    Set::new(|y: ObjectV| on_path(g, n, p, y))
}

// ---------------------------------------------------------------------------
// The values as an evaluation lists them
// ---------------------------------------------------------------------------

/// The terms of a graph as they occur, triple after triple: each triple's
/// object, then its subject.
pub open spec fn term_list(g: Seq<TripleV>) -> Seq<ObjectV>
    decreases g.len(),
{
    if g.len() == 0 {
        Seq::empty()
    } else {
        term_list(g.drop_last()).push(g.last().object).push(subject_as_object(g.last().subject))
    }
}

/// The nodes from which an inverse path is tried: the graph's terms, then `n`.
pub open spec fn inverse_candidates(g: Seq<TripleV>, n: ObjectV) -> Seq<ObjectV> {
    term_list(g).push(n)
}

/// The objects of `n` under predicate `pred`, in graph order.
pub open spec fn predicate_list(g: Seq<TripleV>, n: ObjectV, pred: Seq<char>) -> Seq<ObjectV> {
    match object_as_subject(n) {
        Some(s) => objects_of(g, s, pred),
        None => Seq::empty(),
    }
}

/// The values of path `p` from `n` in the order the evaluation lists them,
/// repeats kept: a predicate's objects in graph order; an inverse predicate's
/// subjects in graph order; any other inverse path's candidates (the graph's
/// terms as they occur, then `n`) from which the inner path lists `n`; an
/// alternative's lists one after another; a sequence's steps applied to each
/// node of the list so far, in turn; a zero-or-one path `n` then the inner
/// path's list; a closure the nodes in the order of a depth-first walk that
/// keeps a stack and lists each node once.
pub open spec fn path_list(g: Seq<TripleV>, n: ObjectV, p: PathV) -> Seq<ObjectV>
    decreases p, 0nat, 0int, 0nat,
{
    match p {
        PathV::Predicate(pred) => predicate_list(g, n, pred),
        PathV::Inverse(inner) => match *inner {
            PathV::Predicate(pred) => subjects_of(g, pred, n).map_values(|x: SubjectV| subject_as_object(x)),
            _ => inverse_list(g, n, *inner, inverse_candidates(g, n)),
        },
        PathV::Sequence(ps) => sequence_list(g, n, ps),
        PathV::Alternative(ps) => alternative_list(g, n, ps),
        PathV::ZeroOrOne(inner) => seq![n] + path_list(g, n, *inner),
        PathV::ZeroOrMore(inner) => walk(g, graph_terms(g).insert(n), *inner, seq![n], Seq::empty()),
        PathV::OneOrMore(inner) => walk(
            g,
            graph_terms(g).insert(n),
            *inner,
            path_list(g, n, *inner),
            Seq::empty(),
        ),
    }
}

/// The candidates from which the path `inner` lists `n`, in order.
pub open spec fn inverse_list(g: Seq<TripleV>, n: ObjectV, inner: PathV, cands: Seq<ObjectV>) -> Seq<ObjectV>
    decreases inner, 1nat, cands.len() as int, 0nat,
{
    if cands.len() == 0 {
        Seq::empty()
    } else {
        let rest = inverse_list(g, n, inner, cands.drop_last());
        if path_list(g, cands.last(), inner).contains(n) {
            rest.push(cands.last())
        } else {
            rest
        }
    }
}

/// The lists of each alternative, one after another.
pub open spec fn alternative_list(g: Seq<TripleV>, n: ObjectV, ps: Seq<PathV>) -> Seq<ObjectV>
    decreases ps, 0nat, 0int, 0nat,
{
    if ps.len() == 0 {
        Seq::empty()
    } else {
        alternative_list(g, n, ps.drop_last()) + path_list(g, n, ps.last())
    }
}

/// The list after the steps `ps`, starting from `n`.
pub open spec fn sequence_list(g: Seq<TripleV>, n: ObjectV, ps: Seq<PathV>) -> Seq<ObjectV>
    decreases ps, 0nat, 0int, 0nat,
{
    if ps.len() == 0 {
        seq![n]
    } else {
        step_list(g, sequence_list(g, n, ps.drop_last()), ps.last())
    }
}

/// The lists of `step` from each node of `xs`, one after another.
pub open spec fn step_list(g: Seq<TripleV>, xs: Seq<ObjectV>, step: PathV) -> Seq<ObjectV>
    decreases step, 1nat, xs.len() as int, 0nat,
{
    if xs.len() == 0 {
        Seq::empty()
    } else {
        step_list(g, xs.drop_last(), step) + path_list(g, xs.last(), step)
    }
}

/// The walk may list `x` next: the listed nodes are distinct terms of the
/// finite set `u`, and `x` is in `u` too.
pub open spec fn walk_room(u: Set<ObjectV>, out: Seq<ObjectV>, x: ObjectV) -> bool {
    u.finite() && out.no_duplicates() && out.to_set().subset_of(u) && u.contains(x)
}

/// The nodes listed by a depth-first walk over `step` within the terms `u`:
/// take the node on top of the stack; if it is not listed yet, list it and
/// push the nodes of `step` from it. A node outside `u` ends the walk.
pub open spec fn walk(
    g: Seq<TripleV>,
    u: Set<ObjectV>,
    step: PathV,
    stack: Seq<ObjectV>,
    out: Seq<ObjectV>,
) -> Seq<ObjectV>
    decreases step, 2nat, u.len() - out.len(), stack.len(),
{
    if stack.len() == 0 {
        out
    } else {
        let x = stack.last();
        if out.contains(x) {
            walk(g, u, step, stack.drop_last(), out)
        } else if walk_room(u, out, x) {
            proof {
                out.lemma_push_to_set_commute(x);
                out.push(x).unique_seq_to_set();
                out.unique_seq_to_set();
                vstd::set_lib::lemma_len_subset(out.push(x).to_set(), u);
            }
            walk(g, u, step, stack.drop_last() + path_list(g, x, step), out.push(x))
        } else {
            out
        }
    }
}

// ---------------------------------------------------------------------------
// Lemmas on the semantics
// ---------------------------------------------------------------------------

/// Membership in a filtered and projected sequence.
pub proof fn lemma_filter_map_member<A, B>(
    s: Seq<A>,
    pred: spec_fn(A) -> bool,
    proj: spec_fn(A) -> B,
    x: B,
)
    ensures
        s.filter(pred).map_values(proj).contains(x) <==> exists|i: int|
            0 <= i < s.len() && pred(s[i]) && proj(s[i]) == x,
    decreases s.len(),
{
    reveal(Seq::filter);
    if s.len() > 0 {
        let r = s.drop_last();
        lemma_filter_map_member(r, pred, proj, x);
        let f = r.filter(pred);
        if pred(s.last()) {
            assert(s.filter(pred).map_values(proj) =~= f.map_values(proj).push(proj(s.last())));
        } else {
            assert(s.filter(pred) == f);
        }
        if exists|i: int| 0 <= i < s.len() && pred(s[i]) && proj(s[i]) == x {
            let i = choose|i: int| 0 <= i < s.len() && pred(s[i]) && proj(s[i]) == x;
            if i < s.len() - 1 {
                assert(r[i] == s[i]);
            } else {
                assert(f.map_values(proj).push(proj(s.last())).last() == x);
            }
        }
        if exists|i: int| 0 <= i < r.len() && pred(r[i]) && proj(r[i]) == x {
            let i = choose|i: int| 0 <= i < r.len() && pred(r[i]) && proj(r[i]) == x;
            assert(s[i] == r[i]);
        }
        if f.map_values(proj).contains(x) && pred(s.last()) {
            let j = choose|j: int| 0 <= j < f.map_values(proj).len() && f.map_values(proj)[j] == x;
            assert(s.filter(pred).map_values(proj)[j] == x);
        }
    }
}

/// Both ends of the triple at index `i` are terms of the graph.
pub proof fn lemma_triple_in_terms(g: Seq<TripleV>, i: int)
    requires
        0 <= i < g.len(),
    ensures
        graph_terms(g).contains(g[i].object),
        graph_terms(g).contains(subject_as_object(g[i].subject)),
{
    let a = g.map_values(|t: TripleV| t.object);
    let b = g.map_values(|t: TripleV| subject_as_object(t.subject));
    assert((a + b)[i] == g[i].object);
    assert((a + b)[a.len() + i] == subject_as_object(g[i].subject));
}

/// The graph's terms form a finite set.
pub proof fn lemma_terms_finite(g: Seq<TripleV>)
    ensures
        graph_terms(g).finite(),
{
    let a = g.map_values(|t: TripleV| t.object);
    let b = g.map_values(|t: TripleV| subject_as_object(t.subject));
    vstd::seq_lib::seq_to_set_is_finite(a + b);
}

/// A value of a path is a term of the graph or the start node itself.
pub proof fn lemma_on_path_in_terms(g: Seq<TripleV>, n: ObjectV, p: PathV, y: ObjectV)
    requires
        on_path(g, n, p, y),
    ensures
        graph_terms(g).contains(y) || y == n,
    decreases p, 0nat,
{
    match p {
        PathV::Predicate(pred) => {
            let i = choose|i: int|
                0 <= i < g.len() && object_as_subject(n) == Some(g[i].subject) && g[i].predicate
                    == pred && g[i].object == y;
            lemma_triple_in_terms(g, i);
        },
        PathV::Inverse(inner) => {
            lemma_on_path_start_in_terms(g, y, *inner, n);
        },
        PathV::Sequence(ps) => {
            lemma_sequence_in_terms(g, n, ps, y);
        },
        PathV::Alternative(ps) => {
            let i = choose|i: int| 0 <= i < ps.len() && on_path(g, n, ps[i], y);
            lemma_on_path_in_terms(g, n, ps[i], y);
        },
        PathV::ZeroOrMore(inner) => {
            let k = choose|k: nat| is_count(k) && reaches(g, n, *inner, k, y);
            lemma_reaches_in_terms(g, n, *inner, k, y);
        },
        PathV::OneOrMore(inner) => {
            let k = choose|k: nat| is_count(k) && k >= 1 && reaches(g, n, *inner, k, y);
            lemma_reaches_in_terms(g, n, *inner, k, y);
        },
        PathV::ZeroOrOne(inner) => {
            if y != n {
                lemma_on_path_in_terms(g, n, *inner, y);
            }
        },
    }
}

/// A node reached by a sequence of steps is a term of the graph or the start node.
pub proof fn lemma_sequence_in_terms(g: Seq<TripleV>, n: ObjectV, ps: Seq<PathV>, y: ObjectV)
    requires
        on_sequence(g, n, ps, y),
    ensures
        graph_terms(g).contains(y) || y == n,
    decreases ps, 0nat,
{
    if ps.len() > 0 {
        let x = choose|x: ObjectV|
            is_node(x) && on_sequence(g, n, ps.drop_last(), x) && on_path(g, x, ps.last(), y);
        lemma_sequence_in_terms(g, n, ps.drop_last(), x);
        lemma_on_path_in_terms(g, x, ps.last(), y);
    }
}

/// A node reached in `k` steps is a term of the graph or the start node.
pub proof fn lemma_reaches_in_terms(g: Seq<TripleV>, n: ObjectV, step: PathV, k: nat, y: ObjectV)
    requires
        reaches(g, n, step, k, y),
    ensures
        graph_terms(g).contains(y) || y == n,
    decreases step, k + 1,
{
    if k > 0 {
        let x = choose|x: ObjectV|
            is_node(x) && reaches(g, n, step, (k - 1) as nat, x) && on_path(g, x, step, y);
        lemma_reaches_in_terms(g, n, step, (k - 1) as nat, x);
        lemma_on_path_in_terms(g, x, step, y);
    }
}

/// The start of a path is a term of the graph or the value itself.
pub proof fn lemma_on_path_start_in_terms(g: Seq<TripleV>, n: ObjectV, p: PathV, y: ObjectV)
    requires
        on_path(g, n, p, y),
    ensures
        graph_terms(g).contains(n) || n == y,
    decreases p, 0nat,
{
    match p {
        PathV::Predicate(pred) => {
            let i = choose|i: int|
                0 <= i < g.len() && object_as_subject(n) == Some(g[i].subject) && g[i].predicate
                    == pred && g[i].object == y;
            lemma_triple_in_terms(g, i);
            lemma_subject_round_trip(n, g[i].subject);
        },
        PathV::Inverse(inner) => {
            lemma_on_path_in_terms(g, y, *inner, n);
        },
        PathV::Sequence(ps) => {
            lemma_sequence_start_in_terms(g, n, ps, y);
        },
        PathV::Alternative(ps) => {
            let i = choose|i: int| 0 <= i < ps.len() && on_path(g, n, ps[i], y);
            lemma_on_path_start_in_terms(g, n, ps[i], y);
        },
        PathV::ZeroOrMore(inner) => {
            let k = choose|k: nat| is_count(k) && reaches(g, n, *inner, k, y);
            lemma_reaches_start_in_terms(g, n, *inner, k, y);
        },
        PathV::OneOrMore(inner) => {
            let k = choose|k: nat| is_count(k) && k >= 1 && reaches(g, n, *inner, k, y);
            lemma_reaches_start_in_terms(g, n, *inner, k, y);
        },
        PathV::ZeroOrOne(inner) => {
            if y != n {
                lemma_on_path_start_in_terms(g, n, *inner, y);
            }
        },
    }
}

/// The start of a sequence of steps is a term of the graph or the node reached.
pub proof fn lemma_sequence_start_in_terms(g: Seq<TripleV>, n: ObjectV, ps: Seq<PathV>, y: ObjectV)
    requires
        on_sequence(g, n, ps, y),
    ensures
        graph_terms(g).contains(n) || n == y,
    decreases ps, 0nat,
{
    if ps.len() > 0 {
        let x = choose|x: ObjectV|
            is_node(x) && on_sequence(g, n, ps.drop_last(), x) && on_path(g, x, ps.last(), y);
        lemma_sequence_start_in_terms(g, n, ps.drop_last(), x);
        lemma_on_path_start_in_terms(g, x, ps.last(), y);
    }
}

/// The start of `k` steps is a term of the graph or the node reached.
pub proof fn lemma_reaches_start_in_terms(g: Seq<TripleV>, n: ObjectV, step: PathV, k: nat, y: ObjectV)
    requires
        reaches(g, n, step, k, y),
    ensures
        graph_terms(g).contains(n) || n == y,
    decreases step, k + 1,
{
    if k > 0 {
        let x = choose|x: ObjectV|
            is_node(x) && reaches(g, n, step, (k - 1) as nat, x) && on_path(g, x, step, y);
        lemma_reaches_start_in_terms(g, n, step, (k - 1) as nat, x);
        lemma_on_path_start_in_terms(g, x, step, y);
    }
}

/// A term that stands for a subject is that subject in object position.
pub proof fn lemma_subject_round_trip(o: ObjectV, s: SubjectV)
    ensures
        (object_as_subject(o) == Some(s)) <==> (o == subject_as_object(s)),
{
}

/// An inverse predicate step from `n` to `y` is a predicate step from `y` to `n`.
pub proof fn lemma_inverse_step_converse(g: Seq<TripleV>, n: ObjectV, p: Seq<char>, y: ObjectV)
    ensures
        inverse_step(g, n, p, y) <==> predicate_step(g, y, p, n),
{
    if inverse_step(g, n, p, y) {
        let i = choose|i: int|
            0 <= i < g.len() && g[i].predicate == p && g[i].object == n && y == subject_as_object(
                g[i].subject,
            );
        lemma_subject_round_trip(y, g[i].subject);
    }
    if predicate_step(g, y, p, n) {
        let i = choose|i: int|
            0 <= i < g.len() && object_as_subject(y) == Some(g[i].subject) && g[i].predicate == p
                && g[i].object == n;
        lemma_subject_round_trip(y, g[i].subject);
    }
}

/// Membership in the terms of a graph, by the triple that holds the term.
pub proof fn lemma_graph_terms_member(g: Seq<TripleV>, y: ObjectV)
    ensures
        graph_terms(g).contains(y) <==> exists|j: int|
            0 <= j < g.len() && (g[j].object == y || subject_as_object(g[j].subject) == y),
{
    let a = g.map_values(|t: TripleV| t.object);
    let b = g.map_values(|t: TripleV| subject_as_object(t.subject));
    if graph_terms(g).contains(y) {
        assert((a + b).contains(y));
        let k = choose|k: int| 0 <= k < (a + b).len() && (a + b)[k] == y;
        if k < a.len() {
            assert(a[k] == y);
        } else {
            assert(b[k - a.len()] == y);
        }
    }
    if exists|j: int| 0 <= j < g.len() && (g[j].object == y || subject_as_object(g[j].subject) == y) {
        let j = choose|j: int|
            0 <= j < g.len() && (g[j].object == y || subject_as_object(g[j].subject) == y);
        lemma_triple_in_terms(g, j);
    }
}

/// An inverse path runs its inner path backwards: `y` is a value of the
/// inverse of `p` from `n` exactly when `n` is a value of `p` from `y`.
pub proof fn law_inverse_converse(g: Seq<TripleV>, n: ObjectV, p: PathV, y: ObjectV)
    ensures
        path_values(g, n, PathV::Inverse(Box::new(p))).contains(y) <==> path_values(g, y, p).contains(n),
{
}

/// One more step from a node reached in `k` steps reaches a node in `k + 1` steps.
pub proof fn lemma_reaches_succ(g: Seq<TripleV>, n: ObjectV, step: PathV, k: nat, x: ObjectV, y: ObjectV)
    requires
        reaches(g, n, step, k, x),
        on_path(g, x, step, y),
    ensures
        reaches(g, n, step, k + 1, y),
{
    assert(is_node(x));
}

/// A set that holds every node reached in `first` steps and is closed under
/// one more step holds every node reached in `first` or more steps.
pub proof fn lemma_reaches_closed(
    g: Seq<TripleV>,
    n: ObjectV,
    step: PathV,
    o: Set<ObjectV>,
    first: nat,
    k: nat,
    y: ObjectV,
)
    requires
        first <= k,
        forall|z: ObjectV| #[trigger] reaches(g, n, step, first, z) ==> o.contains(z),
        forall|x: ObjectV, z: ObjectV| o.contains(x) && #[trigger] on_path(g, x, step, z) ==> o.contains(z),
        reaches(g, n, step, k, y),
    ensures
        o.contains(y),
    decreases k,
{
    if k > first {
        let x = choose|x: ObjectV|
            is_node(x) && reaches(g, n, step, (k - 1) as nat, x) && on_path(g, x, step, y);
        lemma_reaches_closed(g, n, step, o, first, (k - 1) as nat, x);
    }
}


/// The view of a path built from an inner path.
pub proof fn lemma_wrapped_view(b: Box<SHACLPath>)
    ensures
        (SHACLPath::Inverse { path: b })@ == PathV::Inverse(Box::new((*b)@)),
        (SHACLPath::ZeroOrMore { path: b })@ == PathV::ZeroOrMore(Box::new((*b)@)),
        (SHACLPath::OneOrMore { path: b })@ == PathV::OneOrMore(Box::new((*b)@)),
        (SHACLPath::ZeroOrOne { path: b })@ == PathV::ZeroOrOne(Box::new((*b)@)),
{
    let a = (SHACLPath::Inverse { path: b })@;
    assert(*(a->Inverse_0) == (*b)@);
    let z = (SHACLPath::ZeroOrMore { path: b })@;
    assert(*(z->ZeroOrMore_0) == (*b)@);
    let o = (SHACLPath::OneOrMore { path: b })@;
    assert(*(o->OneOrMore_0) == (*b)@);
    let q = (SHACLPath::ZeroOrOne { path: b })@;
    assert(*(q->ZeroOrOne_0) == (*b)@);
}

/// The view of a path built from a list of paths.
pub proof fn lemma_list_view(v: Vec<SHACLPath>)
    ensures
        (SHACLPath::Sequence { paths: v })@ == PathV::Sequence(v@.map_values(|p: SHACLPath| p@)),
        (SHACLPath::Alternative { paths: v })@ == PathV::Alternative(v@.map_values(|p: SHACLPath| p@)),
{
    let s = (SHACLPath::Sequence { paths: v })@;
    assert(s->Sequence_0 =~= v@.map_values(|p: SHACLPath| p@));
    let a = (SHACLPath::Alternative { paths: v })@;
    assert(a->Alternative_0 =~= v@.map_values(|p: SHACLPath| p@));
}

// ---------------------------------------------------------------------------
// Evaluation
// ---------------------------------------------------------------------------

/// The objects of the triples whose subject is `node` and whose predicate is `pred`.
fn predicate_objects(g: &Graph, node: &Object, pred: &String) -> (r: Vec<Object>)
    ensures
        forall|y: ObjectV| object_views(r@).contains(y) <==> predicate_step(g@, node@, pred@, y),
        object_views(r@) == predicate_list(g@, node@, pred@),
{
    match node.as_subject() {
        None => {
            let r: Vec<Object> = Vec::new();
            assert(object_views(r@) =~= Seq::<ObjectV>::empty());
            r
        },
        Some(s) => {
            let r = g.objects_for(&s, pred);
            let ghost sel = |t: TripleV| t.subject == s@ && t.predicate == pred@;
            let ghost proj = |t: TripleV| t.object;
            assert forall|y: ObjectV|
                object_views(r@).contains(y) <==> predicate_step(g@, node@, pred@, y) by {
                lemma_filter_map_member(g@, sel, proj, y);
            }
            r
        },
    }
}

/// The subjects of the triples whose predicate is `pred` and whose object is `node`.
fn inverse_subjects(g: &Graph, node: &Object, pred: &String) -> (r: Vec<Object>)
    ensures
        forall|y: ObjectV| object_views(r@).contains(y) <==> inverse_step(g@, node@, pred@, y),
        object_views(r@) == subjects_of(g@, pred@, node@).map_values(|x: SubjectV| subject_as_object(x)),
{
    let subjects = g.subjects_for(pred, node);
    let ghost sel = |t: TripleV| t.predicate == pred@ && t.object == node@;
    let ghost proj = |t: TripleV| subject_as_object(t.subject);
    let ghost found = g@.filter(sel).map_values(proj);
    assert(found =~= subjects_of(g@, pred@, node@).map_values(|x: SubjectV| subject_as_object(x)));
    let mut r: Vec<Object> = Vec::new();
    let mut i: usize = 0;
    while i < subjects.len()
        invariant
            i <= subjects.len(),
            subjects@.map_values(|x: IriOrBlankNode| x@) == subjects_of(g@, pred@, node@),
            found == subjects_of(g@, pred@, node@).map_values(|x: SubjectV| subject_as_object(x)),
            object_views(r@) == found.take(i as int),
        decreases subjects.len() - i,
    {
        let o = subjects[i].to_object();
        assert(subjects@.map_values(|x: IriOrBlankNode| x@)[i as int] == subjects@[i as int]@);
        let ghost before = r@;
        r.push(o);
        assert(object_views(r@) =~= object_views(before).push(o@));
        assert(found.take(i as int + 1) =~= found.take(i as int).push(found[i as int]));
        i = i + 1;
    }
    assert(found.take(found.len() as int) =~= found);
    assert forall|y: ObjectV| object_views(r@).contains(y) <==> inverse_step(g@, node@, pred@, y) by {
        lemma_filter_map_member(g@, sel, proj, y);
    }
    r
}

/// The values of `path` from `node` in `g`, listed as [`path_list`] lists
/// them. A node may occur more than once.
pub fn eval_path(g: &Graph, node: &Object, path: &SHACLPath) -> (r: Vec<Object>)
    ensures
        views_set(r@) == path_values(g@, node@, path@),
        object_views(r@) == path_list(g@, node@, path@),
{
    let r = eval_path_list(g, node, path);
    assert(views_set(r@) =~= path_values(g@, node@, path@));
    r
}

fn eval_path_list(g: &Graph, node: &Object, path: &SHACLPath) -> (r: Vec<Object>)
    ensures
        forall|y: ObjectV| object_views(r@).contains(y) <==> on_path(g@, node@, path@, y),
        object_views(r@) == path_list(g@, node@, path@),
    decreases path@, 1nat,
{
    match path {
        SHACLPath::Predicate { pred } => {
            assert(path@ == PathV::Predicate(pred@));
            assert(path_list(g@, node@, path@) == predicate_list(g@, node@, pred@));
            predicate_objects(g, node, pred)
        },
        SHACLPath::Inverse { .. } => eval_inverse(g, node, path),
        SHACLPath::ZeroOrOne { .. } => eval_zero_or_one(g, node, path),
        SHACLPath::Alternative { .. } => eval_alternative(g, node, path),
        SHACLPath::Sequence { .. } => eval_sequence(g, node, path),
        SHACLPath::ZeroOrMore { path: inner } => {
            proof {
                let pv = path@;
                assert(*(pv->ZeroOrMore_0) == (**inner)@);
                assert(decreases_to!(pv => *(pv->ZeroOrMore_0)));
            }
            let r = closure(g, node, inner, true);
            assert(path_list(g@, node@, path@) == walk(
                g@,
                graph_terms(g@).insert(node@),
                (**inner)@,
                seq![node@],
                Seq::empty(),
            ));
            assert forall|y: ObjectV| object_views(r@).contains(y) <==> on_path(g@, node@, path@, y) by {
                if on_path(g@, node@, path@, y) {
                    let k = choose|k: nat| is_count(k) && reaches(g@, node@, (**inner)@, k, y);
                    assert(is_count(k));
                }
            }
            r
        },
        SHACLPath::OneOrMore { path: inner } => {
            proof {
                let pv = path@;
                assert(*(pv->OneOrMore_0) == (**inner)@);
                assert(decreases_to!(pv => *(pv->OneOrMore_0)));
            }
            let r = closure(g, node, inner, false);
            assert(path@ == PathV::OneOrMore(Box::new((**inner)@)));
            assert(path_list(g@, node@, path@) == walk(
                g@,
                graph_terms(g@).insert(node@),
                (**inner)@,
                path_list(g@, node@, (**inner)@),
                Seq::empty(),
            ));
            assert forall|y: ObjectV| object_views(r@).contains(y) <==> on_path(g@, node@, path@, y) by {
                if on_path(g@, node@, path@, y) {
                    let k = choose|k: nat| is_count(k) && k >= 1 && reaches(g@, node@, (**inner)@, k, y);
                    assert(is_count(k));
                }
            }
            r
        },
    }
}

/// Every term of the graph, each as often as it occurs in a triple.
fn graph_term_list(g: &Graph) -> (r: Vec<Object>)
    ensures
        forall|y: ObjectV| object_views(r@).contains(y) <==> graph_terms(g@).contains(y),
        object_views(r@) == term_list(g@),
{
    let mut r: Vec<Object> = Vec::new();
    let mut i: usize = 0;
    let n = g.len();
    while i < n
        invariant
            n == g@.len(),
            i <= n,
            forall|y: ObjectV|
                object_views(r@).contains(y) <==> exists|j: int|
                    0 <= j < i && (g@[j].object == y || subject_as_object(g@[j].subject) == y),
            object_views(r@) == term_list(g@.take(i as int)),
        decreases n - i,
    {
        let t = g.get(i);
        let ghost before = r@;
        let o = t.object.clone();
        let s = t.subject.to_object();
        r.push(o);
        r.push(s);
        assert(object_views(r@) =~= object_views(before).push(g@[i as int].object).push(
            subject_as_object(g@[i as int].subject),
        ));
        assert(g@.take(i as int + 1).drop_last() =~= g@.take(i as int));
        assert forall|y: ObjectV|
            object_views(r@).contains(y) <==> exists|j: int|
                0 <= j < i + 1 && (g@[j].object == y || subject_as_object(g@[j].subject) == y) by {
            let b = object_views(before);
            let e = object_views(r@);
            if e.contains(y) {
                let k = choose|k: int| 0 <= k < e.len() && e[k] == y;
                if k < b.len() {
                    assert(b[k] == y);
                }
            }
            if b.contains(y) {
                let k = choose|k: int| 0 <= k < b.len() && b[k] == y;
                assert(e[k] == y);
            }
            assert(e[b.len() as int] == g@[i as int].object);
            assert(e[b.len() + 1int] == subject_as_object(g@[i as int].subject));
        }
        i = i + 1;
    }
    assert forall|y: ObjectV| object_views(r@).contains(y) <==> graph_terms(g@).contains(y) by {
        lemma_graph_terms_member(g@, y);
    }
    assert(g@.take(n as int) =~= g@);
    r
}

/// The nodes from which the inner path of an inverse path reaches `node`.
fn eval_inverse(g: &Graph, node: &Object, path: &SHACLPath) -> (r: Vec<Object>)
    requires
        path is Inverse,
    ensures
        forall|y: ObjectV| object_views(r@).contains(y) <==> on_path(g@, node@, path@, y),
        object_views(r@) == path_list(g@, node@, path@),
    decreases path@, 0nat,
{
    let mut r: Vec<Object> = Vec::new();
    match path {
        SHACLPath::Inverse { path: inner } => {
            let ghost pv = path@;
            assert(*(pv->Inverse_0) == (**inner)@);
            assert(decreases_to!(pv => *(pv->Inverse_0)));
            match &**inner {
                SHACLPath::Predicate { pred } => {
                    assert(*(pv->Inverse_0) == PathV::Predicate(pred@));
                    r = inverse_subjects(g, node, pred);
                    assert forall|y: ObjectV|
                        object_views(r@).contains(y) <==> on_path(g@, node@, path@, y) by {
                        lemma_inverse_step_converse(g@, node@, pred@, y);
                        assert(on_path(g@, node@, path@, y) == on_path(g@, y, *(pv->Inverse_0), node@));
                        assert(on_path(g@, y, PathV::Predicate(pred@), node@) == predicate_step(
                            g@,
                            y,
                            pred@,
                            node@,
                        ));
                    }
                },
                _ => {
                    let mut candidates = graph_term_list(g);
                    let ghost tl = object_views(candidates@);
                    candidates.push(node.clone());
                    let ghost cv = object_views(candidates@);
                    assert(cv =~= tl.push(node@));
                    assert(!((**inner)@ is Predicate));
                    assert(path_list(g@, node@, path@) == inverse_list(g@, node@, (**inner)@, cv));
                    assert(cv.take(0) =~= Seq::<ObjectV>::empty());
                    let mut j: usize = 0;
                    while j < candidates.len()
                        invariant
                            j <= candidates.len(),
                            path@ == pv,
                            *(pv->Inverse_0) == (**inner)@,
                            decreases_to!(pv => *(pv->Inverse_0)),
                            cv == object_views(candidates@),
                            object_views(r@) == inverse_list(g@, node@, (**inner)@, cv.take(j as int)),
                            forall|y: ObjectV|
                                object_views(r@).contains(y) <==> exists|k: int|
                                    0 <= k < j && #[trigger] candidates@[k]@ == y && on_path(
                                        g@,
                                        y,
                                        (**inner)@,
                                        node@,
                                    ),
                        decreases candidates.len() - j,
                    {
                        let vals = eval_path_list(g, &candidates[j], inner);
                        proof {
                            assert(cv.take(j as int + 1).drop_last() =~= cv.take(j as int));
                            assert(cv.take(j as int + 1).last() == cv[j as int]);
                            assert(cv[j as int] == candidates@[j as int]@);
                        }
                        if contains_object(&vals, node) {
                            let ghost before = r@;
                            let c = candidates[j].clone();
                            r.push(c);
                            assert(object_views(r@) =~= object_views(before).push(candidates@[j as int]@));
                            assert forall|y: ObjectV|
                                object_views(r@).contains(y) <==> exists|k: int|
                                    0 <= k < j + 1 && #[trigger] candidates@[k]@ == y && on_path(
                                        g@,
                                        y,
                                        (**inner)@,
                                        node@,
                                    ) by {
                                let b = object_views(before);
                                let e = object_views(r@);
                                if e.contains(y) {
                                    let k = choose|k: int| 0 <= k < e.len() && e[k] == y;
                                    if k < b.len() {
                                        assert(b[k] == y);
                                    }
                                }
                                if b.contains(y) {
                                    let k = choose|k: int| 0 <= k < b.len() && b[k] == y;
                                    assert(e[k] == y);
                                }
                                assert(e[b.len() as int] == candidates@[j as int]@);
                            }
                        }
                        j = j + 1;
                    }
                    assert(cv.take(cv.len() as int) =~= cv);
                    assert forall|y: ObjectV|
                        object_views(r@).contains(y) <==> on_path(g@, node@, path@, y) by {
                        if on_path(g@, node@, path@, y) {
                            lemma_on_path_start_in_terms(g@, y, (**inner)@, node@);
                            if y == node@ {
                                assert(cv[tl.len() as int] == y);
                                assert(candidates@[tl.len() as int]@ == y);
                            } else {
                                assert(tl.contains(y));
                                let k = choose|k: int| 0 <= k < tl.len() && tl[k] == y;
                                assert(cv[k] == y);
                                assert(candidates@[k]@ == y);
                            }
                        }
                    }
                },
            }
        },
        _ => {},
    }
    r
}

/// The node itself, then the values of the inner path.
fn eval_zero_or_one(g: &Graph, node: &Object, path: &SHACLPath) -> (r: Vec<Object>)
    requires
        path is ZeroOrOne,
    ensures
        forall|y: ObjectV| object_views(r@).contains(y) <==> on_path(g@, node@, path@, y),
        object_views(r@) == path_list(g@, node@, path@),
    decreases path@, 0nat,
{
    let mut r: Vec<Object> = Vec::new();
    match path {
        SHACLPath::ZeroOrOne { path: inner } => {
            r.push(node.clone());
            proof {
                let pv = path@;
                assert(*(pv->ZeroOrOne_0) == (**inner)@);
                assert(decreases_to!(pv => *(pv->ZeroOrOne_0)));
            }
            let rest = eval_path_list(g, node, inner);
            let ghost first = r@;
            append_objects(&mut r, rest);
            assert(object_views(first) =~= seq![node@]);
            assert forall|y: ObjectV| object_views(r@).contains(y) <==> on_path(g@, node@, path@, y) by {
                if object_views(rest@).contains(y) {
                    let j = choose|j: int| 0 <= j < object_views(rest@).len() && object_views(rest@)[j] == y;
                    assert(object_views(r@)[j + 1] == y);
                }
                if object_views(r@).contains(y) && y != node@ {
                    let j = choose|j: int| 0 <= j < object_views(r@).len() && object_views(r@)[j] == y;
                    assert(object_views(rest@)[j - 1] == y);
                }
                assert(object_views(r@)[0] == node@);
            }
        },
        _ => {},
    }
    r
}

/// Membership in the concatenation of two sequences of views.
proof fn lemma_concat_member(a: Seq<ObjectV>, b: Seq<ObjectV>, y: ObjectV)
    ensures
        (a + b).contains(y) <==> a.contains(y) || b.contains(y),
{
    if (a + b).contains(y) {
        let k = choose|k: int| 0 <= k < (a + b).len() && (a + b)[k] == y;
        if k < a.len() {
            assert(a[k] == y);
        } else {
            assert(b[k - a.len()] == y);
        }
    }
    if a.contains(y) {
        let k = choose|k: int| 0 <= k < a.len() && a[k] == y;
        assert((a + b)[k] == y);
    }
    if b.contains(y) {
        let k = choose|k: int| 0 <= k < b.len() && b[k] == y;
        assert((a + b)[a.len() + k] == y);
    }
}

/// The values of each alternative, one after another.
fn eval_alternative(g: &Graph, node: &Object, path: &SHACLPath) -> (r: Vec<Object>)
    requires
        path is Alternative,
    ensures
        forall|y: ObjectV| object_views(r@).contains(y) <==> on_path(g@, node@, path@, y),
        object_views(r@) == path_list(g@, node@, path@),
    decreases path@, 0nat,
{
    let mut r: Vec<Object> = Vec::new();
    match path {
        SHACLPath::Alternative { paths } => {
            let ghost ps = path@->Alternative_0;
            assert(path@ == PathV::Alternative(ps));
            assert(ps.take(0) =~= Seq::<PathV>::empty());
            assert(object_views(r@) =~= Seq::<ObjectV>::empty());
            let mut i: usize = 0;
            while i < paths.len()
                invariant
                    i <= paths.len(),
                    path@ == PathV::Alternative(ps),
                    object_views(r@) == alternative_list(g@, node@, ps.take(i as int)),
                    ps.len() == paths.len(),
                    forall|j: int| 0 <= j < paths.len() ==> ps[j] == (#[trigger] paths@[j])@,
                    forall|y: ObjectV|
                        object_views(r@).contains(y) <==> exists|j: int|
                            0 <= j < i && on_path(g@, node@, #[trigger] ps[j], y),
                decreases paths.len() - i,
            {
                proof {
                    let pv = path@;
                    assert(decreases_to!(pv => ps[i as int])) by {
                        match pv {
                            PathV::Alternative(qs) => {
                                assert(decreases_to!(pv => qs));
                                assert(decreases_to!(qs => qs[i as int]));
                            },
                            PathV::Sequence(qs) => {
                                assert(decreases_to!(pv => qs));
                                assert(decreases_to!(qs => qs[i as int]));
                            },
                            _ => {},
                        }
                    }
                }
                let part = eval_path_list(g, node, &paths[i]);
                let ghost before = r@;
                append_objects(&mut r, part);
                assert forall|y: ObjectV|
                    object_views(r@).contains(y) <==> exists|j: int|
                        0 <= j < i + 1 && on_path(g@, node@, #[trigger] ps[j], y) by {
                    lemma_concat_member(object_views(before), object_views(part@), y);
                }
                assert(ps.take(i as int + 1).drop_last() =~= ps.take(i as int));
                assert(ps.take(i as int + 1).last() == ps[i as int]);
                i = i + 1;
            }
            assert(ps.take(ps.len() as int) =~= ps);
        },
        _ => {},
    }
    r
}

/// The nodes reached by the steps of a sequence path, one after another.
fn eval_sequence(g: &Graph, node: &Object, path: &SHACLPath) -> (r: Vec<Object>)
    requires
        path is Sequence,
    ensures
        forall|y: ObjectV| object_views(r@).contains(y) <==> on_path(g@, node@, path@, y),
        object_views(r@) == path_list(g@, node@, path@),
    decreases path@, 0nat,
{
    let mut current: Vec<Object> = Vec::new();
    current.push(node.clone());
    match path {
        SHACLPath::Sequence { paths } => {
            let ghost ps = path@->Sequence_0;
            assert(path@ == PathV::Sequence(ps));
            assert(object_views(current@) =~= seq![node@]);
            assert(ps.take(0) =~= Seq::<PathV>::empty());
            assert(object_views(current@)[0] == node@);
            let mut i: usize = 0;
            while i < paths.len()
                invariant
                    i <= paths.len(),
                    path@ == PathV::Sequence(ps),
                    ps.len() == paths.len(),
                    forall|j: int| 0 <= j < paths.len() ==> ps[j] == (#[trigger] paths@[j])@,
                    forall|y: ObjectV|
                        object_views(current@).contains(y) <==> on_sequence(g@, node@, ps.take(i as int), y),
                    object_views(current@) == sequence_list(g@, node@, ps.take(i as int)),
                decreases paths.len() - i,
            {
                proof {
                    let pv = path@;
                    assert(decreases_to!(pv => ps[i as int])) by {
                        match pv {
                            PathV::Alternative(qs) => {
                                assert(decreases_to!(pv => qs));
                                assert(decreases_to!(qs => qs[i as int]));
                            },
                            PathV::Sequence(qs) => {
                                assert(decreases_to!(pv => qs));
                                assert(decreases_to!(qs => qs[i as int]));
                            },
                            _ => {},
                        }
                    }
                }
                let next = step_all(g, &current, &paths[i]);
                proof {
                    assert(ps.take(i as int + 1).drop_last() =~= ps.take(i as int));
                    assert(ps.take(i as int + 1).last() == ps[i as int]);
                    lemma_sequence_step(g@, node@, ps, i as int);
                    assert forall|y: ObjectV|
                        object_views(next@).contains(y) <==> on_sequence(g@, node@, ps.take(i as int + 1), y) by {
                        if object_views(next@).contains(y) {
                            let x = choose|x: ObjectV|
                                object_views(current@).contains(x) && #[trigger] on_path(g@, x, ps[i as int], y);
                            assert(is_node(x));
                        }
                    }
                }
                current = next;
                i = i + 1;
            }
            assert(ps.take(ps.len() as int) =~= ps);
        },
        _ => {},
    }
    current
}

/// One more step of a sequence path.
proof fn lemma_sequence_step(g: Seq<TripleV>, n: ObjectV, ps: Seq<PathV>, i: int)
    requires
        0 <= i < ps.len(),
    ensures
        forall|y: ObjectV|
            #[trigger] on_sequence(g, n, ps.take(i + 1), y) <==> exists|x: ObjectV|
                #[trigger] is_node(x) && on_sequence(g, n, ps.take(i), x) && on_path(g, x, ps[i], y),
{
    assert(ps.take(i + 1).drop_last() =~= ps.take(i));
    assert(ps.take(i + 1).last() == ps[i]);
}

/// The values of `step` from every node of `from`.
fn step_all(g: &Graph, from: &Vec<Object>, step: &SHACLPath) -> (r: Vec<Object>)
    ensures
        forall|y: ObjectV|
            object_views(r@).contains(y) <==> exists|x: ObjectV|
                object_views(from@).contains(x) && #[trigger] on_path(g@, x, step@, y),
        object_views(r@) == step_list(g@, object_views(from@), step@),
    decreases step@, 2nat,
{
    let mut r: Vec<Object> = Vec::new();
    let mut j: usize = 0;
    let ghost fv = object_views(from@);
    assert(fv.take(0) =~= Seq::<ObjectV>::empty());
    assert(object_views(r@) =~= Seq::<ObjectV>::empty());
    while j < from.len()
        invariant
            j <= from.len(),
            fv == object_views(from@),
            object_views(r@) == step_list(g@, fv.take(j as int), step@),
            forall|y: ObjectV|
                object_views(r@).contains(y) <==> exists|k: int|
                    0 <= k < j && #[trigger] on_path(g@, from@[k]@, step@, y),
        decreases from.len() - j,
    {
        let part = eval_path_list(g, &from[j], step);
        let ghost before = r@;
        append_objects(&mut r, part);
        assert(fv.take(j as int + 1).drop_last() =~= fv.take(j as int));
        assert(fv.take(j as int + 1).last() == from@[j as int]@);
        assert forall|y: ObjectV|
            object_views(r@).contains(y) <==> exists|k: int|
                0 <= k < j + 1 && #[trigger] on_path(g@, from@[k]@, step@, y) by {
            let a = object_views(before);
            let b = object_views(part@);
            if (a + b).contains(y) {
                let k = choose|k: int| 0 <= k < (a + b).len() && (a + b)[k] == y;
                if k < a.len() {
                    assert(a[k] == y);
                } else {
                    assert(b[k - a.len()] == y);
                }
            }
            if a.contains(y) {
                let k = choose|k: int| 0 <= k < a.len() && a[k] == y;
                assert((a + b)[k] == y);
            }
            if b.contains(y) {
                let k = choose|k: int| 0 <= k < b.len() && b[k] == y;
                assert((a + b)[a.len() + k] == y);
            }
        }
        j = j + 1;
    }
    assert(fv.take(fv.len() as int) =~= fv);
    assert forall|y: ObjectV|
        object_views(r@).contains(y) <==> exists|x: ObjectV|
            object_views(from@).contains(x) && #[trigger] on_path(g@, x, step@, y) by {
        if object_views(r@).contains(y) {
            let k = choose|k: int| 0 <= k < from.len() && #[trigger] on_path(g@, from@[k]@, step@, y);
            assert(object_views(from@)[k] == from@[k]@);
        }
        if exists|x: ObjectV| object_views(from@).contains(x) && #[trigger] on_path(g@, x, step@, y) {
            let x = choose|x: ObjectV| object_views(from@).contains(x) && #[trigger] on_path(g@, x, step@, y);
            let k = choose|k: int| 0 <= k < object_views(from@).len() && object_views(from@)[k] == x;
            assert(from@[k]@ == x);
        }
    }
    r
}

/// The nodes reached from `start` by repeating `step`: zero or more times
/// when `include_start` holds, else one or more times. Each node occurs once.
fn closure(g: &Graph, start: &Object, step: &SHACLPath, include_start: bool) -> (r: Vec<Object>)
    ensures
        forall|y: ObjectV|
            object_views(r@).contains(y) <==> reached(
                g@,
                start@,
                step@,
                if include_start { 0 } else { 1 },
                y,
            ),
        object_views(r@).no_duplicates(),
        object_views(r@) == walk(
            g@,
            graph_terms(g@).insert(start@),
            step@,
            if include_start {
                seq![start@]
            } else {
                path_list(g@, start@, step@)
            },
            Seq::empty(),
        ),
    decreases step@, 2nat,
{
    let ghost gv = g@;
    let ghost n = start@;
    let ghost sv = step@;
    let ghost first: nat = if include_start { 0 } else { 1 };
    let ghost u = graph_terms(gv).insert(n);
    proof {
        lemma_terms_finite(gv);
    }
    let mut out: Vec<Object> = Vec::new();
    let mut stack: Vec<Object> = Vec::new();
    if include_start {
        stack.push(start.clone());
        proof {
            assert(object_views(stack@)[0] == n);
            assert(reaches(gv, n, sv, 0, n));
            assert(is_count(0));
        }
    } else {
        stack = eval_path_list(g, start, step);
        proof {
            assert forall|i: int| 0 <= i < stack.len() implies reached(gv, n, sv, first, #[trigger] stack@[i]@) by {
                assert(object_views(stack@)[i] == stack@[i]@);
                assert(object_views(stack@).contains(stack@[i]@));
                assert(reaches(gv, n, sv, 0, n));
                lemma_reaches_succ(gv, n, sv, 0, n, stack@[i]@);
                assert(is_count(1));
            }
            assert forall|y: ObjectV| reaches(gv, n, sv, first, y) implies object_views(stack@).contains(y) by {
                let x = choose|x: ObjectV| is_node(x) && reaches(gv, n, sv, 0, x) && on_path(gv, x, sv, y);
            }
        }
    }
    assert(object_views(out@) =~= Seq::<ObjectV>::empty());
    let ghost s0 = object_views(stack@);
    proof {
        assert forall|y: ObjectV| s0.to_set().contains(y) implies u.contains(y) by {
            assert(s0.contains(y));
            let i = choose|i: int| 0 <= i < s0.len() && s0[i] == y;
            assert(stack@[i]@ == y);
            let k = choose|k: nat| is_count(k) && k >= first && reaches(gv, n, sv, k, y);
            lemma_reaches_in_terms(gv, n, sv, k, y);
        }
        if include_start {
            assert(s0 =~= seq![n]);
        }
    }
    let ghost total = walk(gv, u, sv, s0, Seq::empty());
    while stack.len() > 0
        invariant
            gv == g@,
            n == start@,
            sv == step@,
            first == (if include_start { 0nat } else { 1nat }),
            u == graph_terms(gv).insert(n),
            u.finite(),
            forall|i: int| 0 <= i < out.len() ==> reached(gv, n, sv, first, #[trigger] out@[i]@),
            forall|i: int| 0 <= i < stack.len() ==> reached(gv, n, sv, first, #[trigger] stack@[i]@),
            forall|y: ObjectV|
                #[trigger] reaches(gv, n, sv, first, y) ==> object_views(out@).contains(y)
                    || object_views(stack@).contains(y),
            forall|x: ObjectV, y: ObjectV|
                object_views(out@).contains(x) && #[trigger] on_path(gv, x, sv, y)
                    ==> object_views(out@).contains(y) || object_views(stack@).contains(y),
            object_views(out@).no_duplicates(),
            object_views(out@).to_set().subset_of(u),
            object_views(stack@).to_set().subset_of(u),
            out.len() <= u.len(),
            walk(gv, u, sv, object_views(stack@), object_views(out@)) == total,
        decreases u.len() - out.len(), stack.len(),
    {
        let ghost old_out = out@;
        let ghost old_stack = stack@;
        let current = stack.pop().unwrap();
        proof {
            assert(current@ == old_stack[old_stack.len() - 1]@);
            assert(object_views(old_stack) =~= object_views(stack@).push(current@));
            assert(object_views(old_stack).drop_last() =~= object_views(stack@));
            assert(object_views(old_stack).last() == current@);
            assert(object_views(old_stack).contains(current@));
            assert(u.contains(current@));
            assert forall|y: ObjectV| object_views(stack@).to_set().contains(y) implies u.contains(y) by {
                vstd::seq_lib::lemma_seq_contains_after_push(object_views(stack@), current@, y);
                assert(object_views(old_stack).to_set().contains(y));
            }
        }
        if contains_object(&out, &current) {
            assert forall|i: int| 0 <= i < stack.len() implies reached(gv, n, sv, first, #[trigger] stack@[i]@) by {
                assert(stack@[i] == old_stack[i]);
            }
            continue;
        }
        proof {
            let k = choose|k: nat| is_count(k) && k >= first && reaches(gv, n, sv, k, current@);
            lemma_reaches_in_terms(gv, n, sv, k, current@);
        }
        out.push(current.clone());
        let mut next = eval_path_list(g, &current, step);
        let ghost pushed = stack@;
        let ghost found = next@;
        stack.append(&mut next);
        proof {
            assert(object_views(out@) =~= object_views(old_out).push(current@));
            assert(object_views(stack@) =~= object_views(pushed) + object_views(found));
            assert forall|y: ObjectV| object_views(stack@).to_set().contains(y) implies u.contains(y) by {
                lemma_concat_member(object_views(pushed), object_views(found), y);
                if object_views(found).contains(y) {
                    lemma_on_path_in_terms(gv, current@, sv, y);
                } else {
                    assert(object_views(pushed).to_set().contains(y));
                }
            }
            object_views(old_out).lemma_push_to_set_commute(current@);
            object_views(out@).unique_seq_to_set();
            vstd::set_lib::lemma_len_subset(object_views(out@).to_set(), u);
            assert forall|i: int| 0 <= i < out.len() implies reached(gv, n, sv, first, #[trigger] out@[i]@) by {
                if i < old_out.len() {
                    assert(out@[i] == old_out[i]);
                }
            }
            assert forall|i: int| 0 <= i < stack.len() implies reached(gv, n, sv, first, #[trigger] stack@[i]@) by {
                if i < pushed.len() {
                    assert(stack@[i] == old_stack[i]);
                } else {
                    let y = stack@[i]@;
                    assert(object_views(found)[i - pushed.len()] == y);
                    assert(object_views(found).contains(y));
                    let k = choose|k: nat| is_count(k) && k >= first && reaches(gv, n, sv, k, current@);
                    lemma_reaches_succ(gv, n, sv, k, current@, y);
                    assert(is_count(k + 1));
                }
            }
            assert forall|y: ObjectV| #[trigger] reaches(gv, n, sv, first, y) implies object_views(out@).contains(y)
                || object_views(stack@).contains(y) by {
                if object_views(old_out).contains(y) {
                    let j = choose|j: int| 0 <= j < old_out.len() && object_views(old_out)[j] == y;
                    assert(object_views(out@)[j] == y);
                } else if y == current@ {
                    assert(object_views(out@)[old_out.len() as int] == y);
                } else {
                    assert(object_views(old_stack).contains(y));
                    let j = choose|j: int| 0 <= j < old_stack.len() && object_views(old_stack)[j] == y;
                    assert(object_views(stack@)[j] == y);
                }
            }
            assert forall|x: ObjectV, y: ObjectV|
                object_views(out@).contains(x) && #[trigger] on_path(gv, x, sv, y)
                    implies object_views(out@).contains(y) || object_views(stack@).contains(y) by {
                if x == current@ {
                    assert(object_views(found).contains(y));
                    let j = choose|j: int| 0 <= j < object_views(found).len() && object_views(found)[j] == y;
                    assert(object_views(stack@)[pushed.len() + j] == y);
                } else {
                    let jx = choose|j: int| 0 <= j < object_views(out@).len() && object_views(out@)[j] == x;
                    assert(object_views(old_out)[jx] == x);
                    if object_views(old_out).contains(y) {
                        let j = choose|j: int| 0 <= j < old_out.len() && object_views(old_out)[j] == y;
                        assert(object_views(out@)[j] == y);
                    } else if y == current@ {
                        assert(object_views(out@)[old_out.len() as int] == y);
                    } else {
                        let j = choose|j: int| 0 <= j < old_stack.len() && object_views(old_stack)[j] == y;
                        assert(object_views(stack@)[j] == y);
                    }
                }
            }
        }
    }
    proof {
        assert(object_views(stack@) =~= Seq::<ObjectV>::empty());
        let o = object_views(out@).to_set();
        assert forall|y: ObjectV| object_views(out@).contains(y) <==> reached(gv, n, sv, first, y) by {
            if object_views(out@).contains(y) {
                let j = choose|j: int| 0 <= j < out.len() && object_views(out@)[j] == y;
                assert(out@[j]@ == y);
            }
            if reached(gv, n, sv, first, y) {
                let k = choose|k: nat| is_count(k) && k >= first && reaches(gv, n, sv, k, y);
                lemma_reaches_closed(gv, n, sv, o, first, k, y);
            }
        }
    }
    out
}

} // verus!
