//! The subject and triple abstractions of the RDF model, and a concrete triple.
use vstd::prelude::*;
use crate::graph::{Triple as GraphTriple, TripleV};
use crate::term::{
    IriOrBlankNode, Object, ObjectV, SubjectV, TermKind, show_object, show_subject,
};
use crate::text::push_str;

verus! {

/// What can stand in the subject position of a triple.
pub trait Subject: Sized {
    /// The kind of term this subject is.
    spec fn kind_view(&self) -> TermKind;

    /// The kind of term this subject is.
    fn kind(&self) -> (r: TermKind)
        ensures
            r == self.kind_view(),
    ;

    /// Is it an IRI?
    fn is_iri(&self) -> (r: bool)
        ensures
            r == (self.kind_view() == TermKind::Iri),
    {
        self.kind() == TermKind::Iri
    }

    /// Is it a blank node?
    fn is_blank_node(&self) -> (r: bool)
        ensures
            r == (self.kind_view() == TermKind::BlankNode),
    {
        self.kind() == TermKind::BlankNode
    }

    /// Is it a quoted triple?
    fn is_triple(&self) -> (r: bool)
        ensures
            r == (self.kind_view() == TermKind::Triple),
    {
        self.kind() == TermKind::Triple
    }
}

/// The kind of a subject view.
pub open spec fn subject_kind(s: SubjectV) -> TermKind {
    match s {
        SubjectV::Iri(_) => TermKind::Iri,
        SubjectV::BlankNode(_) => TermKind::BlankNode,
    }
}

impl Subject for IriOrBlankNode {
    open spec fn kind_view(&self) -> TermKind {
        subject_kind(self@)
    }

    fn kind(&self) -> (r: TermKind) {
        match self {
            IriOrBlankNode::Iri(_) => TermKind::Iri,
            IriOrBlankNode::BlankNode(_) => TermKind::BlankNode,
        }
    }
}

/// An RDF triple: a subject, a predicate and an object.
pub trait Triple: Sized {
    /// The triple's view.
    spec fn triple_view(&self) -> TripleV;

    /// A triple from its components.
    fn new(subj: IriOrBlankNode, pred: String, obj: Object) -> (r: Self)
        ensures
            r.triple_view() == (TripleV { subject: subj@, predicate: pred@, object: obj@ }),
    ;

    /// The subject.
    fn subj(&self) -> (r: &IriOrBlankNode)
        ensures
            r@ == self.triple_view().subject,
    ;

    /// The predicate.
    fn pred(&self) -> (r: &String)
        ensures
            r@ == self.triple_view().predicate,
    ;

    /// The object.
    fn obj(&self) -> (r: &Object)
        ensures
            r@ == self.triple_view().object,
    ;

    /// The components (subject, predicate, object).
    fn into_components(self) -> (r: (IriOrBlankNode, String, Object))
        ensures
            r.0@ == self.triple_view().subject,
            r.1@ == self.triple_view().predicate,
            r.2@ == self.triple_view().object,
    ;

    /// The subject alone.
    fn into_subject(self) -> (r: IriOrBlankNode)
        ensures
            r@ == self.triple_view().subject,
    {
        self.into_components().0
    }

    /// The predicate alone.
    fn into_predicate(self) -> (r: String)
        ensures
            r@ == self.triple_view().predicate,
    {
        self.into_components().1
    }

    /// The object alone.
    fn into_object(self) -> (r: Object)
        ensures
            r@ == self.triple_view().object,
    {
        self.into_components().2
    }
}

impl Triple for GraphTriple {
    open spec fn triple_view(&self) -> TripleV {
        self@
    }

    fn new(subj: IriOrBlankNode, pred: String, obj: Object) -> (r: Self) {
        GraphTriple::new(subj, pred, obj)
    }

    fn subj(&self) -> (r: &IriOrBlankNode) {
        &self.subject
    }

    fn pred(&self) -> (r: &String) {
        &self.predicate
    }

    fn obj(&self) -> (r: &Object) {
        &self.object
    }

    fn into_components(self) -> (r: (IriOrBlankNode, String, Object)) {
        (self.subject, self.predicate, self.object)
    }
}

/// A triple held as its three owned components.
pub struct ConcreteTriple {
    subj: IriOrBlankNode,
    pred: String,
    obj: Object,
}

impl View for ConcreteTriple {
    type V = TripleV;

    closed spec fn view(&self) -> TripleV {
        TripleV { subject: self.subj@, predicate: self.pred@, object: self.obj@ }
    }
}

/// The display form `<subject,predicate,object>`.
pub open spec fn show_triple(t: TripleV) -> Seq<char> {
    "<"@ + show_subject(t.subject) + ","@ + t.predicate + ","@ + show_object(t.object) + ">"@
}

impl ConcreteTriple {
    /// A triple from owned components.
    pub fn new(subj: IriOrBlankNode, pred: String, obj: Object) -> (r: ConcreteTriple)
        ensures
            r@ == (TripleV { subject: subj@, predicate: pred@, object: obj@ }),
    {
        ConcreteTriple { subj, pred, obj }
    }

    /// The subject.
    pub fn subj(&self) -> (r: &IriOrBlankNode)
        ensures
            r@ == self@.subject,
    {
        &self.subj
    }

    /// The predicate.
    pub fn pred(&self) -> (r: &String)
        ensures
            r@ == self@.predicate,
    {
        &self.pred
    }

    /// The object.
    pub fn obj(&self) -> (r: &Object)
        ensures
            r@ == self@.object,
    {
        &self.obj
    }

    /// The same triple as a graph triple.
    pub fn cnv(self) -> (r: GraphTriple)
        ensures
            r@ == self@,
    {
        GraphTriple::new(self.subj, self.pred, self.obj)
    }

    /// The display form.
    pub fn to_display(&self) -> (r: String)
        ensures
            r@ == show_triple(self@),
    {
        let mut r = String::new();
        push_str(&mut r, "<");
        push_str(&mut r, self.subj.to_display().as_str());
        push_str(&mut r, ",");
        push_str(&mut r, self.pred.as_str());
        push_str(&mut r, ",");
        push_str(&mut r, self.obj.to_display().as_str());
        push_str(&mut r, ">");
        r
    }
}

} // verus!
