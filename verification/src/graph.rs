//! An in-memory RDF graph: an insertion-ordered set of triples plus the prefix
//! declarations it was read with.
use vstd::prelude::*;
use crate::term::{IriOrBlankNode, Object, ObjectV, SubjectV, object_as_subject, subject_as_object};

verus! {

/// An RDF triple.
pub struct Triple {
    pub subject: IriOrBlankNode,
    pub predicate: String,
    pub object: Object,
}

/// Mathematical view of a [`Triple`].
pub struct TripleV {
    pub subject: SubjectV,
    pub predicate: Seq<char>,
    pub object: ObjectV,
}

impl View for Triple {
    type V = TripleV;

    open spec fn view(&self) -> TripleV {
        TripleV { subject: self.subject@, predicate: self.predicate@, object: self.object@ }
    }
}

impl Clone for Triple {
    fn clone(&self) -> (r: Self)
        ensures
            r@ == self@,
    {
        Triple {
            subject: self.subject.clone(),
            predicate: self.predicate.clone(),
            object: self.object.clone(),
        }
    }
}

impl Triple {
    /// A triple from its components.
    pub fn new(subject: IriOrBlankNode, predicate: String, object: Object) -> (r: Triple)
        ensures
            r@ == (TripleV { subject: subject@, predicate: predicate@, object: object@ }),
    {
        Triple { subject, predicate, object }
    }

    /// Equality by view.
    pub fn equals(&self, other: &Triple) -> (r: bool)
        ensures
            r == (self@ == other@),
    {
        self.subject.equals(&other.subject) && self.predicate.eq(&other.predicate)
            && self.object.equals(&other.object)
    }
}

/// The views of a sequence of triples.
pub open spec fn triple_views(s: Seq<Triple>) -> Seq<TripleV> {
    s.map_values(|t: Triple| t@)
}

/// The views of a sequence of objects.
pub open spec fn object_views(s: Seq<Object>) -> Seq<ObjectV> {
    s.map_values(|o: Object| o@)
}

/// The graph after adding triple `t`: unchanged when it already holds `t`.
pub open spec fn with_triple(g: Seq<TripleV>, t: TripleV) -> Seq<TripleV> {
    if g.contains(t) {
        g
    } else {
        g.push(t)
    }
}

/// The graph after adding the triples `ts`, one after another.
pub open spec fn with_triples(g: Seq<TripleV>, ts: Seq<TripleV>) -> Seq<TripleV>
    decreases ts.len(),
{
    if ts.len() == 0 {
        g
    } else {
        with_triple(with_triples(g, ts.drop_last()), ts.last())
    }
}

/// Adding two batches one after the other adds their concatenation.
pub proof fn lemma_with_triples_concat(g: Seq<TripleV>, a: Seq<TripleV>, b: Seq<TripleV>)
    ensures
        with_triples(with_triples(g, a), b) == with_triples(g, a + b),
    decreases b.len(),
{
    if b.len() == 0 {
        assert(a + b =~= a);
    } else {
        lemma_with_triples_concat(g, a, b.drop_last());
        assert((a + b).drop_last() =~= a + b.drop_last());
    }
}

/// Whether a term occurs in a vector of terms.
pub fn contains_object(v: &Vec<Object>, x: &Object) -> (r: bool)
    ensures
        r == object_views(v@).contains(x@),
{
    let mut i: usize = 0;
    while i < v.len()
        invariant
            i <= v.len(),
            forall|j: int| 0 <= j < i ==> v@[j]@ != x@,
        decreases v.len() - i,
    {
        if v[i].equals(x) {
            assert(object_views(v@)[i as int] == x@);
            return true;
        }
        i = i + 1;
    }
    proof {
        if object_views(v@).contains(x@) {
            let j = choose|j: int| 0 <= j < object_views(v@).len() && object_views(v@)[j] == x@;
            assert(v@[j]@ == x@);
        }
    }
    false
}

/// Moves the terms of `src` to the end of `dst`.
pub fn append_objects(dst: &mut Vec<Object>, src: Vec<Object>)
    ensures
        object_views(final(dst)@) == object_views(old(dst)@) + object_views(src@),
{
    let ghost moved = src@;
    let mut src = src;
    dst.append(&mut src);
    assert(object_views(dst@) =~= object_views(old(dst)@) + object_views(moved));
}

/// The view of an optional subject position.
pub open spec fn opt_subject(s: Option<IriOrBlankNode>) -> Option<SubjectV> {
    match s {
        Some(x) => Some(x@),
        None => None,
    }
}

/// The view of an optional predicate position.
pub open spec fn opt_predicate(p: Option<String>) -> Option<Seq<char>> {
    match p {
        Some(x) => Some(x@),
        None => None,
    }
}

/// The view of an optional object position.
pub open spec fn opt_object(o: Option<Object>) -> Option<ObjectV> {
    match o {
        Some(x) => Some(x@),
        None => None,
    }
}

/// A triple pattern: each position either fixed or a wildcard.
pub open spec fn matches_pattern(
    s: Option<SubjectV>,
    p: Option<Seq<char>>,
    o: Option<ObjectV>,
    t: TripleV,
) -> bool {
    &&& (s matches Some(x) ==> t.subject == x)
    &&& (p matches Some(x) ==> t.predicate == x)
    &&& (o matches Some(x) ==> t.object == x)
}

/// Filtering a prefix one element longer.
pub proof fn lemma_filter_take_step<A>(s: Seq<A>, pred: spec_fn(A) -> bool, i: int)
    requires
        0 <= i < s.len(),
    ensures
        s.take(i + 1).filter(pred) == if pred(s[i]) {
            s.take(i).filter(pred).push(s[i])
        } else {
            s.take(i).filter(pred)
        },
{
    reveal(Seq::filter);
    assert(s.take(i + 1).drop_last() =~= s.take(i));
}

/// The objects of the triples with the given subject and predicate, in graph order.
pub open spec fn objects_of(g: Seq<TripleV>, s: SubjectV, p: Seq<char>) -> Seq<ObjectV> {
    g.filter(|t: TripleV| t.subject == s && t.predicate == p).map_values(|t: TripleV| t.object)
}

/// The subjects of the triples with the given predicate and object, in graph order.
pub open spec fn subjects_of(g: Seq<TripleV>, p: Seq<char>, o: ObjectV) -> Seq<SubjectV> {
    g.filter(|t: TripleV| t.predicate == p && t.object == o).map_values(|t: TripleV| t.subject)
}

/// Every label that occurs as a blank node anywhere in a triple view.
pub open spec fn triple_mentions_label(t: TripleV, label: Seq<char>) -> bool {
    t.subject == SubjectV::BlankNode(label) || t.object == ObjectV::BlankNode(label)
}

/// The label of a blank node in subject position, or nothing.
pub open spec fn subject_label(s: SubjectV) -> Seq<char> {
    match s {
        SubjectV::BlankNode(l) => l,
        _ => Seq::empty(),
    }
}

/// The label of a blank node in object position, or nothing.
pub open spec fn object_label(o: ObjectV) -> Seq<char> {
    match o {
        ObjectV::BlankNode(l) => l,
        _ => Seq::empty(),
    }
}

/// Every blank-node label of the graph, written one after another.
pub open spec fn labels_text(g: Seq<TripleV>) -> Seq<char>
    decreases g.len(),
{
    if g.len() == 0 {
        Seq::empty()
    } else {
        labels_text(g.drop_last()) + subject_label(g.last().subject) + object_label(g.last().object)
    }
}

/// A blank-node label that no triple of `g` uses: longer than all of them.
pub open spec fn fresh_label(g: Seq<TripleV>) -> Seq<char> {
    labels_text(g) + "b"@
}

/// Each label of the graph is no longer than all labels together.
pub proof fn lemma_labels_text_len(g: Seq<TripleV>, i: int)
    requires
        0 <= i < g.len(),
    ensures
        subject_label(g[i].subject).len() <= labels_text(g).len(),
        object_label(g[i].object).len() <= labels_text(g).len(),
    decreases g.len(),
{
    if i < g.len() - 1 {
        lemma_labels_text_len(g.drop_last(), i);
        assert(g.drop_last()[i] == g[i]);
    }
}

/// No triple of `g` uses the fresh label.
pub proof fn lemma_fresh_label(g: Seq<TripleV>)
    ensures
        forall|i: int| 0 <= i < g.len() ==> !triple_mentions_label(#[trigger] g[i], fresh_label(g)),
{
    assert forall|i: int| 0 <= i < g.len() implies !triple_mentions_label(#[trigger] g[i], fresh_label(g)) by {
        lemma_labels_text_len(g, i);
        reveal_strlit("b");
        assert(fresh_label(g).len() == labels_text(g).len() + 1);
        if g[i].subject == SubjectV::BlankNode(fresh_label(g)) {
            assert(subject_label(g[i].subject) == fresh_label(g));
        }
        if g[i].object == ObjectV::BlankNode(fresh_label(g)) {
            assert(object_label(g[i].object) == fresh_label(g));
        }
    }
}

/// An in-memory graph: the triples in insertion order, without duplicates,
/// and the prefix declarations (alias, namespace).
pub struct Graph {
    triples: Vec<Triple>,
    prefixes: Vec<(String, String)>,
}

impl View for Graph {
    type V = Seq<TripleV>;

    closed spec fn view(&self) -> Seq<TripleV> {
        triple_views(self.triples@)
    }
}

impl Graph {
    #[verifier::type_invariant]
    closed spec fn inv(self) -> bool {
        triple_views(self.triples@).no_duplicates()
    }

    /// The prefix declarations, as (alias, namespace) views.
    pub closed spec fn prefix_view(self) -> Seq<(Seq<char>, Seq<char>)> {
        self.prefixes@.map_values(|p: (String, String)| (p.0@, p.1@))
    }

    /// An empty graph.
    pub fn new() -> (g: Graph)
        ensures
            g@ == Seq::<TripleV>::empty(),
            g.prefix_view() == Seq::<(Seq<char>, Seq<char>)>::empty(),
    {
        let g = Graph { triples: Vec::new(), prefixes: Vec::new() };
        assert(triple_views(g.triples@) =~= Seq::<TripleV>::empty());
        assert(g.prefix_view() =~= Seq::<(Seq<char>, Seq<char>)>::empty());
        g
    }

    /// Number of triples.
    pub fn len(&self) -> (r: usize)
        ensures
            r == self@.len(),
            self@.no_duplicates(),
    {
        proof {
            use_type_invariant(self);
        }
        self.triples.len()
    }

    /// The `i`-th triple in graph order.
    pub fn get(&self, i: usize) -> (r: &Triple)
        requires
            i < self@.len(),
        ensures
            r@ == self@[i as int],
    {
        &self.triples[i]
    }

    /// Does the graph hold this triple?
    pub fn contains(&self, t: &Triple) -> (r: bool)
        ensures
            r == self@.contains(t@),
    {
        self.position(t).is_some()
    }

    /// Adds a triple; a triple already present leaves the graph unchanged.
    pub fn add(&mut self, t: Triple)
        ensures
            final(self)@ == if old(self)@.contains(t@) {
                old(self)@
            } else {
                old(self)@.push(t@)
            },
            final(self).prefix_view() == old(self).prefix_view(),
    {
        proof {
            use_type_invariant(&*self);
        }
        if !self.contains(&t) {
            let ghost before = self.triples@;
            let ghost tv = t@;
            let mut triples: Vec<Triple> = Vec::new();
                std::mem::swap(&mut triples, &mut self.triples);
            triples.push(t);
            assert(triple_views(triples@) =~= triple_views(before).push(tv));
            proof {
                let s = triple_views(before).push(tv);
                assert forall|i: int, j: int| 0 <= i < s.len() && 0 <= j < s.len() && i != j implies s[i] != s[j] by {
                    if i == s.len() - 1 {
                        assert(!triple_views(before).contains(tv));
                        assert(s[j] == triple_views(before)[j]);
                    } else if j == s.len() - 1 {
                        assert(s[i] == triple_views(before)[i]);
                    }
                }
            }
            self.triples = triples;
        }
    }

    /// Adds the triple `(subject, predicate, object)`.
    pub fn add_triple(&mut self, subject: IriOrBlankNode, predicate: String, object: Object)
        ensures
            ({
                let t = TripleV { subject: subject@, predicate: predicate@, object: object@ };
                final(self)@ == if old(self)@.contains(t) {
                    old(self)@
                } else {
                    old(self)@.push(t)
                }
            }),
            final(self).prefix_view() == old(self).prefix_view(),
    {
        self.add(Triple::new(subject, predicate, object))
    }

    /// Position of a triple, if the graph holds it.
    pub fn position(&self, t: &Triple) -> (r: Option<usize>)
        ensures
            match r {
                Some(i) => i < self@.len() && self@[i as int] == t@,
                None => !self@.contains(t@),
            },
    {
        let mut i: usize = 0;
        while i < self.triples.len()
            invariant
                i <= self.triples.len(),
                forall|j: int| 0 <= j < i ==> self@[j] != t@,
            decreases self.triples.len() - i,
        {
            assert(self@[i as int] == self.triples@[i as int]@);
            if self.triples[i].equals(t) {
                return Some(i);
            }
            i = i + 1;
        }
        proof {
            if self@.contains(t@) {
                let j = choose|j: int| 0 <= j < self@.len() && self@[j] == t@;
                assert(self@[j] != t@);
            }
        }
        None
    }

    /// Removes the triple `(subject, predicate, object)` if present, keeping the
    /// order of the others.
    pub fn remove_triple(&mut self, subject: IriOrBlankNode, predicate: String, object: Object)
        ensures
            ({
                let t = TripleV { subject: subject@, predicate: predicate@, object: object@ };
                &&& !old(self)@.contains(t) ==> final(self)@ == old(self)@
                &&& old(self)@.contains(t) ==> exists|i: int|
                    0 <= i < old(self)@.len() && old(self)@[i] == t && final(self)@
                        == old(self)@.remove(i)
            }),
            final(self).prefix_view() == old(self).prefix_view(),
    {
        proof {
            use_type_invariant(&*self);
        }
        let t = Triple::new(subject, predicate, object);
        match self.position(&t) {
            None => {},
            Some(i) => {
                let ghost before = self.triples@;
                let mut triples: Vec<Triple> = Vec::new();
                std::mem::swap(&mut triples, &mut self.triples);
                triples.remove(i);
                assert(triple_views(triples@) =~= triple_views(before).remove(i as int));
                proof {
                    let s = triple_views(before);
                    let r = s.remove(i as int);
                    assert forall|a: int, b: int|
                        0 <= a < r.len() && 0 <= b < r.len() && a != b implies r[a] != r[b] by {
                        let a2 = if a < i { a } else { a + 1 };
                        let b2 = if b < i { b } else { b + 1 };
                        assert(r[a] == s[a2]);
                        assert(r[b] == s[b2]);
                    }
                }
                self.triples = triples;
            },
        }
    }

    /// The triples matching a pattern, in graph order.
    pub fn triples_matching(
        &self,
        s: &Option<IriOrBlankNode>,
        p: &Option<String>,
        o: &Option<Object>,
    ) -> (r: Vec<Triple>)
        ensures
            triple_views(r@) == self@.filter(
                |t: TripleV|
                    matches_pattern(
                        opt_subject(*s),
                        opt_predicate(*p),
                        opt_object(*o),
                        t,
                    ),
            ),
    {
        let ghost pred = |t: TripleV|
            matches_pattern(
                opt_subject(*s),
                opt_predicate(*p),
                opt_object(*o),
                t,
            );
        let mut r: Vec<Triple> = Vec::new();
        let mut i: usize = 0;
        while i < self.triples.len()
            invariant
                i <= self.triples.len(),
                pred == (|t: TripleV|
                    matches_pattern(
                        opt_subject(*s),
                        opt_predicate(*p),
                        opt_object(*o),
                        t,
                    )),
                triple_views(r@) == self@.take(i as int).filter(pred),
            decreases self.triples.len() - i,
        {
            let t = &self.triples[i];
            assert(self@[i as int] == t@);
            let ok_s = match s {
                Some(x) => t.subject.equals(x),
                None => true,
            };
            let ok_p = match p {
                Some(x) => t.predicate.eq(x),
                None => true,
            };
            let ok_o = match o {
                Some(x) => t.object.equals(x),
                None => true,
            };
            proof {
                lemma_filter_take_step(self@, pred, i as int);
            }
            if ok_s && ok_p && ok_o {
                let ghost before = r@;
                r.push(t.clone());
                assert(triple_views(r@) =~= triple_views(before).push(t@));
            }
            i = i + 1;
        }
        assert(self@.take(self@.len() as int) =~= self@);
        r
    }

    /// The objects of the triples with the given subject and predicate.
    pub fn objects_for(&self, s: &IriOrBlankNode, p: &String) -> (r: Vec<Object>)
        ensures
            object_views(r@) == objects_of(self@, s@, p@),
    {
        let ghost pred = |t: TripleV| t.subject == s@ && t.predicate == p@;
        let ghost proj = |t: TripleV| t.object;
        let mut r: Vec<Object> = Vec::new();
        let mut i: usize = 0;
        while i < self.triples.len()
            invariant
                i <= self.triples.len(),
                pred == (|t: TripleV| t.subject == s@ && t.predicate == p@),
                proj == (|t: TripleV| t.object),
                object_views(r@) == self@.take(i as int).filter(pred).map_values(proj),
            decreases self.triples.len() - i,
        {
            let t = &self.triples[i];
            assert(self@[i as int] == t@);
            proof {
                lemma_filter_take_step(self@, pred, i as int);
            }
            if t.subject.equals(s) && t.predicate.eq(p) {
                let ghost before = r@;
                r.push(t.object.clone());
                assert(object_views(r@) =~= object_views(before).push(t.object@));
                assert(self@.take(i as int).filter(pred).push(self@[i as int]).map_values(proj)
                    =~= self@.take(i as int).filter(pred).map_values(proj).push(t.object@));
            }
            i = i + 1;
        }
        assert(self@.take(self@.len() as int) =~= self@);
        r
    }

    /// The subjects of the triples with the given predicate and object.
    pub fn subjects_for(&self, p: &String, o: &Object) -> (r: Vec<IriOrBlankNode>)
        ensures
            r@.map_values(|x: IriOrBlankNode| x@) == subjects_of(self@, p@, o@),
    {
        let ghost pred = |t: TripleV| t.predicate == p@ && t.object == o@;
        let ghost proj = |t: TripleV| t.subject;
        let mut r: Vec<IriOrBlankNode> = Vec::new();
        let mut i: usize = 0;
        while i < self.triples.len()
            invariant
                i <= self.triples.len(),
                pred == (|t: TripleV| t.predicate == p@ && t.object == o@),
                proj == (|t: TripleV| t.subject),
                r@.map_values(|x: IriOrBlankNode| x@) == self@.take(i as int).filter(pred).map_values(proj),
            decreases self.triples.len() - i,
        {
            let t = &self.triples[i];
            assert(self@[i as int] == t@);
            proof {
                lemma_filter_take_step(self@, pred, i as int);
            }
            if t.predicate.eq(p) && t.object.equals(o) {
                let ghost before = r@;
                r.push(t.subject.clone());
                assert(r@.map_values(|x: IriOrBlankNode| x@) =~= before.map_values(|x: IriOrBlankNode| x@).push(t.subject@));
                assert(self@.take(i as int).filter(pred).push(self@[i as int]).map_values(proj)
                    =~= self@.take(i as int).filter(pred).map_values(proj).push(t.subject@));
            }
            i = i + 1;
        }
        assert(self@.take(self@.len() as int) =~= self@);
        r
    }

    fn prefix_position(&self, alias: &String) -> (r: Option<usize>)
        ensures
            match r {
                Some(i) => i < self.prefix_view().len() && self.prefix_view()[i as int].0 == alias@,
                None => forall|j: int| 0 <= j < self.prefix_view().len() ==> self.prefix_view()[j].0 != alias@,
            },
    {
        let mut i: usize = 0;
        while i < self.prefixes.len()
            invariant
                i <= self.prefixes.len(),
                forall|j: int| 0 <= j < i ==> self.prefix_view()[j].0 != alias@,
            decreases self.prefixes.len() - i,
        {
            assert(self.prefix_view()[i as int].0 == self.prefixes@[i as int].0@);
            if self.prefixes[i].0.eq(alias) {
                return Some(i);
            }
            i = i + 1;
        }
        None
    }

    /// Declares a prefix, replacing an earlier declaration of the same alias.
    pub fn add_prefix(&mut self, alias: String, namespace: String)
        ensures
            final(self)@ == old(self)@,
            ({
                let old_p = old(self).prefix_view();
                let new_p = final(self).prefix_view();
                if exists|i: int| 0 <= i < old_p.len() && old_p[i].0 == alias@ {
                    exists|i: int|
                        0 <= i < old_p.len() && old_p[i].0 == alias@ && new_p == old_p.update(
                            i,
                            (alias@, namespace@),
                        )
                } else {
                    new_p == old_p.push((alias@, namespace@))
                }
            }),
    {
        proof {
            use_type_invariant(&*self);
        }
        let ghost old_p = self.prefix_view();
        let pos = self.prefix_position(&alias);
        let mut prefixes: Vec<(String, String)> = Vec::new();
        std::mem::swap(&mut prefixes, &mut self.prefixes);
        match pos {
            Some(i) => {
                prefixes.set(i, (alias, namespace));
                assert(prefixes@.map_values(|p: (String, String)| (p.0@, p.1@)) =~= old_p.update(i as int, (alias@, namespace@)));
            },
            None => {
                prefixes.push((alias, namespace));
                assert(prefixes@.map_values(|p: (String, String)| (p.0@, p.1@)) =~= old_p.push((alias@, namespace@)));
            },
        }
        self.prefixes = prefixes;
    }

    /// The triples, in graph order.
    pub fn triples(&self) -> (r: Vec<Triple>)
        ensures
            triple_views(r@) == self@,
    {
        let mut r: Vec<Triple> = Vec::new();
        let mut i: usize = 0;
        while i < self.triples.len()
            invariant
                i <= self.triples.len(),
                triple_views(r@) == self@.take(i as int),
            decreases self.triples.len() - i,
        {
            let t = self.triples[i].clone();
            let ghost before = r@;
            r.push(t);
            assert(triple_views(r@) =~= triple_views(before).push(t@));
            assert(self@.take(i as int + 1) =~= self@.take(i as int).push(self@[i as int]));
            i = i + 1;
        }
        assert(self@.take(self@.len() as int) =~= self@);
        r
    }

    /// A blank-node label that no triple of the graph uses.
    pub fn fresh_blank_label(&self) -> (r: String)
        ensures
            r@ == fresh_label(self@),
            forall|i: int| 0 <= i < self@.len() ==> !triple_mentions_label(#[trigger] self@[i], r@),
    {
        let mut r = String::new();
        let mut i: usize = 0;
        while i < self.triples.len()
            invariant
                i <= self.triples.len(),
                r@ == labels_text(self@.take(i as int)),
            decreases self.triples.len() - i,
        {
            let t = &self.triples[i];
            assert(self@[i as int] == t@);
            match &t.subject {
                IriOrBlankNode::BlankNode(l) => crate::text::push_str(&mut r, l.as_str()),
                _ => {},
            }
            match &t.object {
                Object::BlankNode(l) => crate::text::push_str(&mut r, l.as_str()),
                _ => {},
            }
            assert(self@.take(i as int + 1).drop_last() =~= self@.take(i as int));
            i = i + 1;
        }
        assert(self@.take(self@.len() as int) =~= self@);
        crate::text::push_str(&mut r, "b");
        proof {
            lemma_fresh_label(self@);
        }
        r
    }

    /// Takes over the prefix declarations of `other`, keeping the triples.
    pub fn copy_prefixes(&mut self, other: &Graph)
        ensures
            final(self)@ == old(self)@,
            final(self).prefix_view() == other.prefix_view(),
    {
        proof {
            use_type_invariant(&*self);
        }
        let prefixes = crate::text::clone_pairs(&other.prefixes);
        self.prefixes = prefixes;
    }

    /// Replaces the prefix declarations with `prefixes`, keeping the triples.
    pub fn set_prefixes(&mut self, prefixes: &Vec<(String, String)>)
        ensures
            final(self)@ == old(self)@,
            final(self).prefix_view() == crate::text::pair_views(prefixes@),
    {
        proof {
            use_type_invariant(&*self);
        }
        let copy = crate::text::clone_pairs(prefixes);
        self.prefixes = copy;
    }

    /// Number of prefix declarations.
    pub fn prefix_count(&self) -> (r: usize)
        ensures
            r == self.prefix_view().len(),
    {
        self.prefixes.len()
    }

    /// The `i`-th prefix declaration.
    pub fn prefix_at(&self, i: usize) -> (r: (String, String))
        requires
            i < self.prefix_view().len(),
        ensures
            (r.0@, r.1@) == self.prefix_view()[i as int],
    {
        (self.prefixes[i].0.clone(), self.prefixes[i].1.clone())
    }

    /// The prefix declarations, in order.
    pub fn prefixes(&self) -> (r: Vec<(String, String)>)
        ensures
            crate::text::pair_views(r@) == self.prefix_view(),
    {
        crate::text::clone_pairs(&self.prefixes)
    }
}

} // verus!
