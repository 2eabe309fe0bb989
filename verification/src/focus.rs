//! The parser-owned focus cursor and the parsing context that pairs it with a
//! borrowed graph.
use vstd::prelude::*;
use crate::graph::Graph;
use crate::term::{IriOrBlankNode, Object, ObjectV, SubjectV, object_as_subject, show_object};

verus! {

/// The view of an optional term.
pub open spec fn opt_object_view(o: Option<Object>) -> Option<ObjectV> {
    match o {
        Some(x) => Some(x@),
        None => None,
    }
}

/// The views of a stack of saved foci.
pub open spec fn saved_views(s: Seq<Option<Object>>) -> Seq<Option<ObjectV>> {
    s.map_values(|o: Option<Object>| opt_object_view(o))
}

/// Mathematical view of a focus cursor: the current node and the save stack
/// (top of the stack last).
pub struct FocusV {
    pub current: Option<ObjectV>,
    pub saved: Seq<Option<ObjectV>>,
}

/// A cursor tracking the current focus node, with a save/restore stack used by
/// backtracking parsers.
pub struct RdfFocus {
    current: Option<Object>,
    saved: Vec<Option<Object>>,
}

impl View for RdfFocus {
    type V = FocusV;

    closed spec fn view(&self) -> FocusV {
        FocusV { current: opt_object_view(self.current), saved: saved_views(self.saved@) }
    }
}

/// A copy of an optional term.
pub fn clone_opt_object(o: &Option<Object>) -> (r: Option<Object>)
    ensures
        opt_object_view(r) == opt_object_view(*o),
{
    match o {
        Some(x) => Some(x.clone()),
        None => None,
    }
}

impl RdfFocus {
    /// A cursor positioned at `start`, with an empty save stack.
    pub fn new(start: Object) -> (r: RdfFocus)
        ensures
            r@ == (FocusV { current: Some(start@), saved: Seq::empty() }),
    {
        let r = RdfFocus { current: Some(start), saved: Vec::new() };
        assert(saved_views(r.saved@) =~= Seq::<Option<ObjectV>>::empty());
        r
    }

    /// A cursor with no focus and an empty save stack.
    pub fn empty() -> (r: RdfFocus)
        ensures
            r@ == (FocusV { current: None, saved: Seq::empty() }),
    {
        let r = RdfFocus { current: None, saved: Vec::new() };
        assert(saved_views(r.saved@) =~= Seq::<Option<ObjectV>>::empty());
        r
    }

    /// A copy of this cursor.
    pub fn duplicate(&self) -> (r: RdfFocus)
        ensures
            r@ == self@,
    {
        let mut saved: Vec<Option<Object>> = Vec::new();
        let mut i: usize = 0;
        while i < self.saved.len()
            invariant
                i <= self.saved.len(),
                saved_views(saved@) == saved_views(self.saved@).take(i as int),
            decreases self.saved.len() - i,
        {
            let c = clone_opt_object(&self.saved[i]);
            let ghost before = saved@;
            saved.push(c);
            assert(saved_views(saved@) =~= saved_views(before).push(opt_object_view(c)));
            assert(saved_views(self.saved@).take(i as int + 1) =~= saved_views(self.saved@).take(i as int).push(
                opt_object_view(self.saved@[i as int]),
            ));
            i = i + 1;
        }
        assert(saved_views(self.saved@).take(self.saved.len() as int) =~= saved_views(self.saved@));
        RdfFocus { current: clone_opt_object(&self.current), saved }
    }

    /// The current focus node, if set.
    pub fn get(&self) -> (r: Option<&Object>)
        ensures
            match r {
                Some(x) => self@.current == Some(x@),
                None => self@.current is None,
            },
    {
        self.current.as_ref()
    }

    /// Sets the current focus node; the save stack is untouched.
    pub fn set(&mut self, term: Object)
        ensures
            final(self)@ == (FocusV { current: Some(term@), saved: old(self)@.saved }),
            final(self)@ == focus_step(old(self)@, FocusOp::SetTo(term@)),
    {
        self.current = Some(term);
    }

    /// Pushes the current focus onto the save stack.
    pub fn save(&mut self)
        ensures
            final(self)@ == (FocusV {
                current: old(self)@.current,
                saved: old(self)@.saved.push(old(self)@.current),
            }),
            final(self)@ == focus_step(old(self)@, FocusOp::Save),
    {
        let c = clone_opt_object(&self.current);
        let ghost before = self.saved@;
        self.saved.push(c);
        assert(saved_views(self.saved@) =~= saved_views(before).push(opt_object_view(self.current)));
    }

    /// Pops the most recently saved focus and makes it current; with nothing
    /// saved, the focus becomes unset.
    pub fn restore(&mut self)
        ensures
            final(self)@ == if old(self)@.saved.len() == 0 {
                FocusV { current: None, saved: old(self)@.saved }
            } else {
                FocusV { current: old(self)@.saved.last(), saved: old(self)@.saved.drop_last() }
            },
            final(self)@ == focus_step(old(self)@, FocusOp::Restore),
    {
        let ghost before = self.saved@;
        match self.saved.pop() {
            Some(prev) => {
                assert(saved_views(self.saved@) =~= saved_views(before).drop_last());
                self.current = prev;
            },
            None => {
                self.current = None;
            },
        }
    }

    /// Discards the most recently saved focus without rewinding.
    pub fn commit(&mut self)
        ensures
            final(self)@ == (FocusV {
                current: old(self)@.current,
                saved: if old(self)@.saved.len() == 0 {
                    old(self)@.saved
                } else {
                    old(self)@.saved.drop_last()
                },
            }),
            final(self)@ == focus_step(old(self)@, FocusOp::Commit),
    {
        let ghost before = self.saved@;
        let _ = self.saved.pop();
        assert(saved_views(self.saved@) =~= if before.len() == 0 {
            saved_views(before)
        } else {
            saved_views(before).drop_last()
        });
    }
}

/// One operation on a focus cursor.
pub enum FocusOp {
    SetTo(ObjectV),
    Save,
    Restore,
    Commit,
}

/// The cursor after one operation, as the cursor's methods leave it.
pub open spec fn focus_step(f: FocusV, op: FocusOp) -> FocusV {
    match op {
        FocusOp::SetTo(t) => FocusV { current: Some(t), saved: f.saved },
        FocusOp::Save => FocusV { current: f.current, saved: f.saved.push(f.current) },
        FocusOp::Restore => if f.saved.len() == 0 {
            FocusV { current: None, saved: f.saved }
        } else {
            FocusV { current: f.saved.last(), saved: f.saved.drop_last() }
        },
        FocusOp::Commit => FocusV {
            current: f.current,
            saved: if f.saved.len() == 0 { f.saved } else { f.saved.drop_last() },
        },
    }
}

/// The cursor after the operations `ops`, one after another.
pub open spec fn run_ops(f: FocusV, ops: Seq<FocusOp>) -> FocusV
    decreases ops.len(),
{
    if ops.len() == 0 {
        f
    } else {
        focus_step(run_ops(f, ops.drop_last()), ops.last())
    }
}

/// How many saves of `ops` are still open: saves minus restores and commits.
pub open spec fn open_saves(ops: Seq<FocusOp>) -> int
    decreases ops.len(),
{
    if ops.len() == 0 {
        0
    } else {
        open_saves(ops.drop_last()) + match ops.last() {
            FocusOp::Save => 1int,
            FocusOp::SetTo(_) => 0int,
            _ => -1int,
        }
    }
}

/// `ops` are sets and balanced pairs of a save and a later restore or commit:
/// no restore or commit without an open save, and every save closed.
pub open spec fn balanced(ops: Seq<FocusOp>) -> bool {
    &&& forall|k: int| 0 <= k <= ops.len() ==> open_saves(#[trigger] ops.take(k)) >= 0
    &&& open_saves(ops) == 0
}

/// Operations whose open saves never go below zero keep the save stack
/// below them, with one more entry for each save still open.
proof fn lemma_ops_keep_stack(f: FocusV, ops: Seq<FocusOp>)
    requires
        forall|k: int| 0 <= k <= ops.len() ==> open_saves(#[trigger] ops.take(k)) >= 0,
    ensures
        run_ops(f, ops).saved.len() == f.saved.len() + open_saves(ops),
        run_ops(f, ops).saved.take(f.saved.len() as int) == f.saved,
    decreases ops.len(),
{
    if ops.len() == 0 {
        assert(f.saved.take(f.saved.len() as int) =~= f.saved);
    } else {
        let rest = ops.drop_last();
        assert forall|k: int| 0 <= k <= rest.len() implies open_saves(#[trigger] rest.take(k)) >= 0 by {
            assert(rest.take(k) =~= ops.take(k));
        }
        lemma_ops_keep_stack(f, rest);
        assert(ops.take(ops.len() as int) =~= ops);
        let g = run_ops(f, rest);
        let n = f.saved.len() as int;
        match ops.last() {
            FocusOp::Save => {
                assert(g.saved.push(g.current).take(n) =~= g.saved.take(n));
            },
            FocusOp::SetTo(_) => {},
            _ => {
                assert(g.saved.drop_last().take(n) =~= g.saved.take(n));
            },
        }
    }
}

/// Balanced operations leave the save stack as they found it.
pub proof fn law_balanced_ops_keep_stack(f: FocusV, ops: Seq<FocusOp>)
    requires
        balanced(ops),
    ensures
        run_ops(f, ops).saved == f.saved,
{
    lemma_ops_keep_stack(f, ops);
    assert(run_ops(f, ops).saved.take(f.saved.len() as int) =~= run_ops(f, ops).saved);
}

/// A save, then any sets and balanced save/restore or save/commit pairs, then
/// a restore, brings the cursor back to the node and the save stack it had
/// before the save.
pub proof fn law_save_attempt_restore(f: FocusV, ops: Seq<FocusOp>)
    requires
        balanced(ops),
    ensures
        run_ops(f, seq![FocusOp::Save] + ops + seq![FocusOp::Restore]) == f,
{
    let saved = focus_step(f, FocusOp::Save);
    lemma_run_ops_concat(f, seq![FocusOp::Save], ops);
    assert(run_ops(f, seq![FocusOp::Save]) == saved) by {
        let one = seq![FocusOp::Save];
        assert(one.drop_last() =~= Seq::<FocusOp>::empty());
        assert(one.last() == FocusOp::Save);
        assert(run_ops(f, one.drop_last()) == f);
    }
    law_balanced_ops_keep_stack(saved, ops);
    let all = seq![FocusOp::Save] + ops + seq![FocusOp::Restore];
    assert(all.drop_last() =~= seq![FocusOp::Save] + ops);
    assert(f.saved.push(f.current).drop_last() =~= f.saved);
}

/// Running two batches of operations one after the other runs their concatenation.
proof fn lemma_run_ops_concat(f: FocusV, a: Seq<FocusOp>, b: Seq<FocusOp>)
    ensures
        run_ops(f, a + b) == run_ops(run_ops(f, a), b),
    decreases b.len(),
{
    if b.len() == 0 {
        assert(a + b =~= a);
    } else {
        lemma_run_ops_concat(f, a, b.drop_last());
        assert((a + b).drop_last() =~= a + b.drop_last());
    }
}

/// Saving and then restoring leaves the cursor as it was: a backtracking
/// attempt rewinds to the node it started from.
pub proof fn lemma_save_restore(before: FocusV, saved: FocusV, attempt: FocusV, after: FocusV)
    requires
        saved == (FocusV { current: before.current, saved: before.saved.push(before.current) }),
        attempt.saved == saved.saved,
        after == (FocusV { current: attempt.saved.last(), saved: attempt.saved.drop_last() }),
    ensures
        after == before,
{
    assert(before.saved.push(before.current).drop_last() =~= before.saved);
}

/// Saving and then committing keeps whatever focus the attempt reached and
/// leaves the save stack as it was.
pub proof fn lemma_save_commit(before: FocusV, saved: FocusV, attempt: FocusV, after: FocusV)
    requires
        saved == (FocusV { current: before.current, saved: before.saved.push(before.current) }),
        attempt.saved == saved.saved,
        after == (FocusV { current: attempt.current, saved: attempt.saved.drop_last() }),
    ensures
        after.current == attempt.current,
        after.saved == before.saved,
{
    assert(before.saved.push(before.current).drop_last() =~= before.saved);
}

/// Why a parse step failed.
#[derive(Debug)]
pub enum ParseError {
    /// No focus node was set.
    NoFocusNode,
    /// A node cannot stand in subject position; `context` names the reader
    /// that needed a subject.
    ExpectedSubject { node: String, context: String },
    /// A property that should have exactly one value has none or several.
    ExpectedSingleValue { property: String, count: usize },
    /// A value of the wrong kind was found.
    UnexpectedNode { node: String, expected: String },
    /// An RDF list is malformed (a cell without `rdf:first`/`rdf:rest`, or a cycle).
    MalformedList { node: String },
    /// A SHACL path could not be read from a node; `cause` is the failure
    /// beneath, when the path was read on behalf of another reader.
    InvalidShaclPath { node: String, cause: Option<Box<ParseError>> },
    /// A check on the focus node failed.
    CheckFailed { name: String },
    /// A type was expected on the focus node.
    MissingType { expected: String },
    /// Text could not be read as a term.
    ParseFail { msg: String },
    /// Text could not be read as an IRI.
    ParsingIri { iri: String, error: String },
}

/// A parsing context: a borrowed graph and a focus cursor.
pub struct ParseCtx<'a> {
    graph: &'a Graph,
    focus: RdfFocus,
}

impl<'a> ParseCtx<'a> {
    /// The graph this context reads.
    pub closed spec fn graph_view(&self) -> &'a Graph {
        self.graph
    }

    /// The focus cursor's view.
    pub closed spec fn focus_view(&self) -> FocusV {
        self.focus@
    }

    /// A context over `graph` with the given cursor.
    pub fn new(graph: &'a Graph, focus: RdfFocus) -> (r: ParseCtx<'a>)
        ensures
            r.graph_view() == graph,
            r.focus_view() == focus@,
    {
        ParseCtx { graph, focus }
    }

    /// The prefix declarations of the graph read.
    pub fn prefixmap(&self) -> (r: Vec<(String, String)>)
        ensures
            crate::text::pair_views(r@) == self.graph_view().prefix_view(),
    {
        self.graph.prefixes()
    }

    /// The borrowed graph.
    pub fn graph(&self) -> (r: &'a Graph)
        ensures
            r == self.graph_view(),
    {
        self.graph
    }

    /// The focus cursor.
    pub fn focus(&self) -> (r: &RdfFocus)
        ensures
            r@ == self.focus_view(),
    {
        &self.focus
    }

    /// The focus cursor, to move it.
    pub fn focus_mut(&mut self) -> (r: &mut RdfFocus)
        ensures
            r@ == old(self).focus_view(),
            final(self).focus_view() == final(r)@,
            final(self).graph_view() == old(self).graph_view(),
    {
        &mut self.focus
    }

    /// Gives the cursor back, ending the context.
    pub fn into_focus(self) -> (r: RdfFocus)
        ensures
            r@ == self.focus_view(),
    {
        self.focus
    }

    /// The current focus node, if set.
    pub fn get_focus(&self) -> (r: Option<&Object>)
        ensures
            match r {
                Some(x) => self.focus_view().current == Some(x@),
                None => self.focus_view().current is None,
            },
    {
        self.focus.get()
    }

    /// Sets the current focus node.
    pub fn set_focus(&mut self, focus: &Object)
        ensures
            final(self).focus_view() == (FocusV { current: Some(focus@), saved: old(self).focus_view().saved }),
            final(self).graph_view() == old(self).graph_view(),
    {
        self.focus.set(focus.clone());
    }

    /// The current focus node; fails when none is set.
    pub fn get_focus_as_term(&self) -> (r: Result<&Object, ParseError>)
        ensures
            match r {
                Ok(x) => self.focus_view().current == Some(x@),
                Err(e) => self.focus_view().current is None && e is NoFocusNode,
            },
    {
        match self.focus.get() {
            Some(t) => Ok(t),
            None => Err(ParseError::NoFocusNode),
        }
    }

    /// The current focus node as a subject; fails when none is set or when it
    /// is a literal or a quoted triple.
    pub fn get_focus_as_subject(&self) -> (r: Result<IriOrBlankNode, ParseError>)
        ensures
            match self.focus_view().current {
                None => r matches Err(e) && e is NoFocusNode,
                Some(t) => match object_as_subject(t) {
                    Some(s) => r matches Ok(x) && x@ == s,
                    None => r matches Err(ParseError::ExpectedSubject { node, context }) && node@
                        == show_object(t) && context@ == "get_focus_as_subject"@,
                },
            },
    {
        match self.focus.get() {
            None => Err(ParseError::NoFocusNode),
            Some(term) => match term.as_subject() {
                Some(s) => Ok(s),
                None => Err(
                    ParseError::ExpectedSubject {
                        node: term.to_display(),
                        context: crate::text::owned("get_focus_as_subject"),
                    },
                ),
            },
        }
    }
}

} // verus!
