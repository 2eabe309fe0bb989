//! Recording the triples a run reads: a decorator over a graph that hands
//! every triple a pattern query yields to a recorder, and recorders that drop
//! them or collect each distinct one into a sink graph.
use vstd::prelude::*;
use crate::graph::{
    Graph, Triple, TripleV, matches_pattern, opt_object, opt_predicate, opt_subject, triple_views, with_triple,
    with_triples,
};
use crate::term::{IriOrBlankNode, Object};

verus! {

/// Observer of the triples visited through a [`RecordingRdf`]. A recorder
/// either keeps every triple it is handed, or none.
pub trait SubsetRecorder: Sized {
    /// The triples kept so far, in the order first seen.
    spec fn kept(&self) -> Seq<TripleV>;

    /// What the recorder has written so far: for one with a sink graph, the
    /// sink's triples.
    spec fn written(&self) -> Seq<TripleV>;

    /// Whether this recorder keeps what it is handed.
    spec fn keeps(&self) -> bool;

    /// Records one visited triple.
    fn record(&mut self, triple: &Triple)
        ensures
            final(self).keeps() == old(self).keeps(),
            final(self).kept() == if old(self).keeps() {
                with_triple(old(self).kept(), triple@)
            } else {
                old(self).kept()
            },
            final(self).written() == if old(self).keeps() {
                with_triple(old(self).written(), triple@)
            } else {
                old(self).written()
            },
    ;
}

/// A recorder that discards everything.
pub struct NullRecorder;

impl SubsetRecorder for NullRecorder {
    open spec fn kept(&self) -> Seq<TripleV> {
        Seq::empty()
    }

    open spec fn written(&self) -> Seq<TripleV> {
        Seq::empty()
    }

    open spec fn keeps(&self) -> bool {
        false
    }

    fn record(&mut self, triple: &Triple) {
    }
}

/// A recorder that writes each distinct visited triple into a sink graph.
pub struct BuildRdfRecorder {
    out: Graph,
    seen: Vec<Triple>,
}

impl BuildRdfRecorder {
    /// Wraps a sink graph; nothing recorded yet.
    pub fn new(out: Graph) -> (r: BuildRdfRecorder)
        ensures
            r.kept() == Seq::<TripleV>::empty(),
            r.written() == out@,
    {
        let r = BuildRdfRecorder { out, seen: Vec::new() };
        assert(triple_views(r.seen@) =~= Seq::<TripleV>::empty());
        r
    }

    /// The sink graph with everything recorded.
    pub fn into_inner(self) -> (r: Graph)
        ensures
            r@ == self.written(),
    {
        self.out
    }

    /// Number of distinct triples recorded.
    pub fn len(&self) -> (r: usize)
        ensures
            r == self.kept().len(),
    {
        self.seen.len()
    }

    /// Whether no triple was recorded.
    pub fn is_empty(&self) -> (r: bool)
        ensures
            r == (self.kept().len() == 0),
    {
        self.seen.len() == 0
    }
}

/// Position of a triple in a vector.
fn find_triple(v: &Vec<Triple>, t: &Triple) -> (r: bool)
    ensures
        r == triple_views(v@).contains(t@),
{
    let mut i: usize = 0;
    while i < v.len()
        invariant
            i <= v.len(),
            forall|j: int| 0 <= j < i ==> v@[j]@ != t@,
        decreases v.len() - i,
    {
        if v[i].equals(t) {
            assert(triple_views(v@)[i as int] == t@);
            return true;
        }
        i = i + 1;
    }
    proof {
        if triple_views(v@).contains(t@) {
            let j = choose|j: int| 0 <= j < triple_views(v@).len() && triple_views(v@)[j] == t@;
            assert(v@[j]@ == t@);
        }
    }
    false
}

impl SubsetRecorder for BuildRdfRecorder {
    closed spec fn kept(&self) -> Seq<TripleV> {
        triple_views(self.seen@)
    }

    closed spec fn written(&self) -> Seq<TripleV> {
        self.out@
    }

    open spec fn keeps(&self) -> bool {
        true
    }

    fn record(&mut self, triple: &Triple) {
        if !find_triple(&self.seen, triple) {
            let ghost before = self.seen@;
            self.seen.push(triple.clone());
            assert(triple_views(self.seen@) =~= triple_views(before).push(triple@));
        }
        self.out.add(triple.clone());
    }
}

/// A graph whose pattern queries are handed, triple by triple, to a recorder.
pub struct RecordingRdf<'a, Rec: SubsetRecorder> {
    inner: &'a Graph,
    rec: Rec,
}

impl<'a, Rec: SubsetRecorder> RecordingRdf<'a, Rec> {
    /// The graph read through.
    pub closed spec fn graph(&self) -> Seq<TripleV> {
        self.inner@
    }

    /// The graph read through, prefix declarations included.
    pub closed spec fn source(&self) -> Graph {
        *self.inner
    }

    /// The recorder.
    pub closed spec fn rec_view(&self) -> Rec {
        self.rec
    }

    /// Wraps a graph with a recorder.
    pub fn new(inner: &'a Graph, rec: Rec) -> (r: RecordingRdf<'a, Rec>)
        ensures
            r.graph() == inner@,
            r.source() == *inner,
            r.rec_view() == rec,
    {
        RecordingRdf { inner, rec }
    }

    /// The prefix declarations of the graph read through.
    pub fn prefixmap(&self) -> (r: Vec<(String, String)>)
        ensures
            crate::text::pair_views(r@) == self.source().prefix_view(),
    {
        self.inner.prefixes()
    }

    /// The recorder, to inspect progress.
    pub fn recorder(&self) -> (r: &Rec)
        ensures
            *r == self.rec_view(),
    {
        &self.rec
    }

    /// Gives the recorder back.
    pub fn into_recorder(self) -> (r: Rec)
        ensures
            r == self.rec_view(),
    {
        self.rec
    }

    /// Every triple of the graph, not recorded.
    pub fn triples(&self) -> (r: Vec<Triple>)
        ensures
            triple_views(r@) == self.graph(),
    {
        self.inner.triples()
    }

    /// The triples matching a pattern, as the graph yields them; each is
    /// handed to the recorder in turn.
    pub fn triples_matching(
        &mut self,
        s: &Option<IriOrBlankNode>,
        p: &Option<String>,
        o: &Option<Object>,
    ) -> (r: Vec<Triple>)
        ensures
            triple_views(r@) == old(self).graph().filter(
                |t: TripleV| matches_pattern(opt_subject(*s), opt_predicate(*p), opt_object(*o), t),
            ),
            final(self).graph() == old(self).graph(),
            final(self).source() == old(self).source(),
            final(self).rec_view().keeps() == old(self).rec_view().keeps(),
            final(self).rec_view().kept() == if old(self).rec_view().keeps() {
                with_triples(old(self).rec_view().kept(), triple_views(r@))
            } else {
                old(self).rec_view().kept()
            },
            final(self).rec_view().written() == if old(self).rec_view().keeps() {
                with_triples(old(self).rec_view().written(), triple_views(r@))
            } else {
                old(self).rec_view().written()
            },
    {
        let found = self.inner.triples_matching(s, p, o);
        proof {
            assert(triple_views(found@) == self.inner@.filter(
                |t: TripleV| matches_pattern(opt_subject(*s), opt_predicate(*p), opt_object(*o), t),
            ));
        }
        let ghost k0 = self.rec.kept();
        let ghost w0 = self.rec.written();
        let ghost keeps = self.rec.keeps();
        let mut i: usize = 0;
        assert(triple_views(found@).take(0) =~= Seq::<TripleV>::empty());
        while i < found.len()
            invariant
                i <= found.len(),
                keeps == old(self).rec.keeps(),
                k0 == old(self).rec.kept(),
                self.inner == old(self).inner,
                self.rec.keeps() == keeps,
                self.rec.kept() == if keeps {
                    with_triples(k0, triple_views(found@).take(i as int))
                } else {
                    k0
                },
                w0 == old(self).rec.written(),
                self.rec.written() == if keeps {
                    with_triples(w0, triple_views(found@).take(i as int))
                } else {
                    w0
                },
            decreases found.len() - i,
        {
            self.rec.record(&found[i]);
            proof {
                assert(triple_views(found@).take(i as int + 1).drop_last() =~= triple_views(found@).take(i as int));
                assert(triple_views(found@).take(i as int + 1).last() == found@[i as int]@);
            }
            i = i + 1;
        }
        assert(triple_views(found@).take(found.len() as int) =~= triple_views(found@));
        found
    }
}

/// Everything a graph holds after adding triples: what it held and what was added.
pub proof fn lemma_with_triples_member(g: Seq<TripleV>, ts: Seq<TripleV>, x: TripleV)
    ensures
        with_triples(g, ts).contains(x) <==> g.contains(x) || ts.contains(x),
    decreases ts.len(),
{
    if ts.len() > 0 {
        let w = with_triples(g, ts.drop_last());
        lemma_with_triples_member(g, ts.drop_last(), x);
        vstd::seq_lib::lemma_seq_contains_after_push(w, ts.last(), x);
        vstd::seq_lib::lemma_seq_contains_after_push(ts.drop_last(), ts.last(), x);
        assert(ts.drop_last().push(ts.last()) =~= ts);
    }
}

/// A recorder that starts with sink `start` and has kept nothing, once it has
/// been handed `visited`, holds in its sink the starting sink plus exactly
/// the distinct triples it kept: adding the kept triples to `start` gives
/// the same graph as adding everything visited.
pub proof fn law_sink_holds_start_and_kept(start: Seq<TripleV>, visited: Seq<TripleV>)
    ensures
        with_triples(start, with_triples(Seq::empty(), visited)) == with_triples(start, visited),
    decreases visited.len(),
{
    if visited.len() > 0 {
        let v = visited.drop_last();
        let t = visited.last();
        let w = with_triples(Seq::<TripleV>::empty(), v);
        law_sink_holds_start_and_kept(start, v);
        if w.contains(t) {
            lemma_with_triples_member(Seq::<TripleV>::empty(), v, t);
            lemma_with_triples_member(start, v, t);
        } else {
            assert(with_triple(w, t) == w.push(t));
            assert(w.push(t).drop_last() =~= w);
        }
    }
}

} // verus!
