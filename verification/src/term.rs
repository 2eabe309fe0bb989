//! RDF terms: IRIs, blank nodes, literals and RDF-star quoted triples, with
//! their mathematical views and the exact operations the engine needs on them.
use vstd::prelude::*;
use vstd::utf8::encode_utf8;
use crate::text::{concat2, decimal, i64_decimal, owned, push_str};
use crate::vocab;

verus! {

/// The kind of an RDF term.
#[derive(Clone, Copy, PartialEq, Eq, Structural, Debug)]
pub enum TermKind {
    Iri,
    BlankNode,
    Literal,
    Triple,
}

/// A literal value: a lexical form with a language tag or a datatype, or a
/// natively typed integer or boolean.
#[derive(Debug)]
pub enum Literal {
    StringLiteral { lexical_form: String, lang: Option<String> },
    DatatypeLiteral { lexical_form: String, datatype: String },
    IntegerLiteral(i64),
    BooleanLiteral(bool),
}

/// Mathematical view of a [`Literal`].
pub enum LiteralV {
    Str { lexical: Seq<char>, lang: Option<Seq<char>> },
    Typed { lexical: Seq<char>, datatype: Seq<char> },
    Int(int),
    Bool(bool),
}

/// An IRI or a blank node: what may stand in the subject position of a triple.
#[derive(Debug)]
pub enum IriOrBlankNode {
    Iri(String),
    BlankNode(String),
}

/// Mathematical view of an [`IriOrBlankNode`].
pub enum SubjectV {
    Iri(Seq<char>),
    BlankNode(Seq<char>),
}

/// An RDF term in the object position of a triple.
#[derive(Debug)]
pub enum Object {
    Iri(String),
    BlankNode(String),
    Literal(Literal),
    Triple { subject: Box<IriOrBlankNode>, predicate: String, object: Box<Object> },
}

/// Mathematical view of an [`Object`].
pub enum ObjectV {
    Iri(Seq<char>),
    BlankNode(Seq<char>),
    Literal(LiteralV),
    Triple { subject: SubjectV, predicate: Seq<char>, object: Box<ObjectV> },
}

/// The view of an optional string.
pub open spec fn opt_view(o: Option<String>) -> Option<Seq<char>> {
    match o {
        Some(s) => Some(s@),
        None => None,
    }
}

impl View for Literal {
    type V = LiteralV;

    open spec fn view(&self) -> LiteralV {
        match self {
            Literal::StringLiteral { lexical_form, lang } => LiteralV::Str {
                lexical: lexical_form@,
                lang: opt_view(*lang),
            },
            Literal::DatatypeLiteral { lexical_form, datatype } => LiteralV::Typed {
                lexical: lexical_form@,
                datatype: datatype@,
            },
            Literal::IntegerLiteral(n) => LiteralV::Int(*n as int),
            Literal::BooleanLiteral(b) => LiteralV::Bool(*b),
        }
    }
}

impl View for IriOrBlankNode {
    type V = SubjectV;

    open spec fn view(&self) -> SubjectV {
        match self {
            IriOrBlankNode::Iri(s) => SubjectV::Iri(s@),
            IriOrBlankNode::BlankNode(s) => SubjectV::BlankNode(s@),
        }
    }
}

impl Object {
    /// The view of an object, structurally.
    pub open spec fn view_of(&self) -> ObjectV
        decreases self,
    {
        match self {
            Object::Iri(s) => ObjectV::Iri(s@),
            Object::BlankNode(s) => ObjectV::BlankNode(s@),
            Object::Literal(l) => ObjectV::Literal(l@),
            Object::Triple { subject, predicate, object } => ObjectV::Triple {
                subject: (**subject)@,
                predicate: predicate@,
                object: Box::new((**object).view_of()),
            },
        }
    }
}

impl View for Object {
    type V = ObjectV;

    open spec fn view(&self) -> ObjectV {
        self.view_of()
    }
}

// ---------------------------------------------------------------------------
// Literals
// ---------------------------------------------------------------------------

/// Lexical form of a literal view.
pub open spec fn literal_lexical(l: LiteralV) -> Seq<char> {
    match l {
        LiteralV::Str { lexical, .. } => lexical,
        LiteralV::Typed { lexical, .. } => lexical,
        LiteralV::Int(n) => decimal(n),
        LiteralV::Bool(b) => if b { "true"@ } else { "false"@ },
    }
}

/// Datatype IRI of a literal view (`rdf:langString` for tagged strings,
/// `xsd:string` for plain ones).
pub open spec fn literal_datatype(l: LiteralV) -> Seq<char> {
    match l {
        LiteralV::Str { lang, .. } => if lang is Some {
            vocab::rdf_lang_string_iri()
        } else {
            vocab::xsd_string_iri()
        },
        LiteralV::Typed { datatype, .. } => datatype,
        LiteralV::Int(_) => vocab::xsd_integer_iri(),
        LiteralV::Bool(_) => vocab::xsd_boolean_iri(),
    }
}

/// Language tag of a literal view, if it is a tagged string.
pub open spec fn literal_lang(l: LiteralV) -> Option<Seq<char>> {
    match l {
        LiteralV::Str { lang, .. } => lang,
        _ => None,
    }
}

/// The display form of a literal: quoted lexical form with `@lang` or
/// `^^<datatype>`, or the bare integer / boolean.
pub open spec fn show_literal(l: LiteralV) -> Seq<char> {
    match l {
        LiteralV::Str { lexical, lang } => match lang {
            Some(t) => "\""@ + lexical + "\"@"@ + t,
            None => "\""@ + lexical + "\""@,
        },
        LiteralV::Typed { lexical, datatype } => "\""@ + lexical + "\"^^<"@ + datatype + ">"@,
        LiteralV::Int(n) => decimal(n),
        LiteralV::Bool(b) => if b { "true"@ } else { "false"@ },
    }
}

/// A copy of an optional string.
pub fn clone_opt_string(o: &Option<String>) -> (r: Option<String>)
    ensures
        opt_view(r) == opt_view(*o),
{
    match o {
        Some(s) => Some(s.clone()),
        None => None,
    }
}

impl Clone for Literal {
    fn clone(&self) -> (r: Self)
        ensures
            r@ == self@,
    {
        match self {
            Literal::StringLiteral { lexical_form, lang } => Literal::StringLiteral {
                lexical_form: lexical_form.clone(),
                lang: clone_opt_string(lang),
            },
            Literal::DatatypeLiteral { lexical_form, datatype } => Literal::DatatypeLiteral {
                lexical_form: lexical_form.clone(),
                datatype: datatype.clone(),
            },
            Literal::IntegerLiteral(n) => Literal::IntegerLiteral(*n),
            Literal::BooleanLiteral(b) => Literal::BooleanLiteral(*b),
        }
    }
}

/// Equality of optional strings by their views.
pub fn opt_string_eq(a: &Option<String>, b: &Option<String>) -> (r: bool)
    ensures
        r == (opt_view(*a) == opt_view(*b)),
{
    match (a, b) {
        (Some(x), Some(y)) => x.eq(y),
        (None, None) => true,
        _ => false,
    }
}

impl Literal {
    /// A plain string literal.
    pub fn str(s: &str) -> (r: Literal)
        ensures
            r@ == (LiteralV::Str { lexical: s@, lang: None }),
    {
        Literal::StringLiteral { lexical_form: s.to_string(), lang: None }
    }

    /// A boolean literal.
    pub fn boolean(b: bool) -> (r: Literal)
        ensures
            r@ == LiteralV::Bool(b),
    {
        Literal::BooleanLiteral(b)
    }

    /// The lexical form.
    pub fn lexical_form(&self) -> (r: String)
        ensures
            r@ == literal_lexical(self@),
    {
        match self {
            Literal::StringLiteral { lexical_form, .. } => lexical_form.clone(),
            Literal::DatatypeLiteral { lexical_form, .. } => lexical_form.clone(),
            Literal::IntegerLiteral(n) => i64_decimal(*n),
            Literal::BooleanLiteral(b) => if *b {
                owned("true")
            } else {
                owned("false")
            },
        }
    }

    /// The datatype IRI.
    pub fn datatype(&self) -> (r: String)
        ensures
            r@ == literal_datatype(self@),
    {
        match self {
            Literal::StringLiteral { lang, .. } => match lang {
                Some(_) => vocab::rdf_lang_string(),
                None => vocab::xsd_string(),
            },
            Literal::DatatypeLiteral { datatype, .. } => datatype.clone(),
            Literal::IntegerLiteral(_) => vocab::xsd_integer(),
            Literal::BooleanLiteral(_) => vocab::xsd_boolean(),
        }
    }

    /// The language tag of a tagged string literal.
    pub fn lang(&self) -> (r: Option<String>)
        ensures
            opt_view(r) == literal_lang(self@),
    {
        match self {
            Literal::StringLiteral { lang, .. } => clone_opt_string(lang),
            _ => None,
        }
    }

    /// Equality by view.
    pub fn equals(&self, other: &Literal) -> (r: bool)
        ensures
            r == (self@ == other@),
    {
        match (self, other) {
            (
                Literal::StringLiteral { lexical_form: a, lang: la },
                Literal::StringLiteral { lexical_form: b, lang: lb },
            ) => a.eq(b) && opt_string_eq(la, lb),
            (
                Literal::DatatypeLiteral { lexical_form: a, datatype: da },
                Literal::DatatypeLiteral { lexical_form: b, datatype: db },
            ) => a.eq(b) && da.eq(db),
            (Literal::IntegerLiteral(a), Literal::IntegerLiteral(b)) => *a == *b,
            (Literal::BooleanLiteral(a), Literal::BooleanLiteral(b)) => *a == *b,
            _ => false,
        }
    }

    /// The display form.
    pub fn to_display(&self) -> (r: String)
        ensures
            r@ == show_literal(self@),
    {
        match self {
            Literal::StringLiteral { lexical_form, lang } => {
                let mut r = owned("\"");
                push_str(&mut r, lexical_form.as_str());
                match lang {
                    Some(t) => {
                        push_str(&mut r, "\"@");
                        push_str(&mut r, t.as_str());
                    },
                    None => {
                        push_str(&mut r, "\"");
                    },
                }
                r
            },
            Literal::DatatypeLiteral { lexical_form, datatype } => {
                let mut r = owned("\"");
                push_str(&mut r, lexical_form.as_str());
                push_str(&mut r, "\"^^<");
                push_str(&mut r, datatype.as_str());
                push_str(&mut r, ">");
                r
            },
            Literal::IntegerLiteral(n) => i64_decimal(*n),
            Literal::BooleanLiteral(b) => if *b {
                owned("true")
            } else {
                owned("false")
            },
        }
    }
}

// ---------------------------------------------------------------------------
// Subjects
// ---------------------------------------------------------------------------

impl Clone for IriOrBlankNode {
    fn clone(&self) -> (r: Self)
        ensures
            r@ == self@,
    {
        match self {
            IriOrBlankNode::Iri(s) => IriOrBlankNode::Iri(s.clone()),
            IriOrBlankNode::BlankNode(s) => IriOrBlankNode::BlankNode(s.clone()),
        }
    }
}

/// The object view of a subject view.
pub open spec fn subject_as_object(s: SubjectV) -> ObjectV {
    match s {
        SubjectV::Iri(i) => ObjectV::Iri(i),
        SubjectV::BlankNode(b) => ObjectV::BlankNode(b),
    }
}

/// The subject view of an object view, when it is an IRI or a blank node.
pub open spec fn object_as_subject(o: ObjectV) -> Option<SubjectV> {
    match o {
        ObjectV::Iri(i) => Some(SubjectV::Iri(i)),
        ObjectV::BlankNode(b) => Some(SubjectV::BlankNode(b)),
        _ => None,
    }
}

/// Display form of a subject: the IRI, or `_:` and the label.
pub open spec fn show_subject(s: SubjectV) -> Seq<char> {
    match s {
        SubjectV::Iri(i) => i,
        SubjectV::BlankNode(b) => "_:"@ + b,
    }
}

/// UTF-8 length of a subject's text.
pub open spec fn subject_length(s: SubjectV) -> nat {
    match s {
        SubjectV::Iri(i) => encode_utf8(i).len(),
        SubjectV::BlankNode(b) => encode_utf8(b).len(),
    }
}

impl IriOrBlankNode {
    /// Equality by view.
    pub fn equals(&self, other: &IriOrBlankNode) -> (r: bool)
        ensures
            r == (self@ == other@),
    {
        match (self, other) {
            (IriOrBlankNode::Iri(a), IriOrBlankNode::Iri(b)) => a.eq(b),
            (IriOrBlankNode::BlankNode(a), IriOrBlankNode::BlankNode(b)) => a.eq(b),
            _ => false,
        }
    }

    /// The same node in object position.
    pub fn to_object(&self) -> (r: Object)
        ensures
            r@ == subject_as_object(self@),
    {
        match self {
            IriOrBlankNode::Iri(s) => Object::Iri(s.clone()),
            IriOrBlankNode::BlankNode(s) => Object::BlankNode(s.clone()),
        }
    }

    /// UTF-8 length of the IRI or the blank node label.
    pub fn length(&self) -> (r: usize)
        requires
            subject_length(self@) <= usize::MAX,
        ensures
            r == subject_length(self@),
    {
        match self {
            IriOrBlankNode::Iri(s) => s.as_str().len(),
            IriOrBlankNode::BlankNode(s) => s.as_str().len(),
        }
    }

    /// The display form.
    pub fn to_display(&self) -> (r: String)
        ensures
            r@ == show_subject(self@),
    {
        match self {
            IriOrBlankNode::Iri(s) => s.clone(),
            IriOrBlankNode::BlankNode(b) => concat2("_:", b.as_str()),
        }
    }
}

// ---------------------------------------------------------------------------
// Objects
// ---------------------------------------------------------------------------

/// The kind of an object view.
pub open spec fn object_kind(o: ObjectV) -> TermKind {
    match o {
        ObjectV::Iri(_) => TermKind::Iri,
        ObjectV::BlankNode(_) => TermKind::BlankNode,
        ObjectV::Literal(_) => TermKind::Literal,
        ObjectV::Triple { .. } => TermKind::Triple,
    }
}

/// UTF-8 length of an object's text: the IRI, the label, the lexical form, or
/// the sum over the components of a quoted triple.
pub open spec fn object_length(o: ObjectV) -> nat
    decreases o,
{
    match o {
        ObjectV::Iri(i) => encode_utf8(i).len(),
        ObjectV::BlankNode(b) => encode_utf8(b).len(),
        ObjectV::Literal(l) => encode_utf8(literal_lexical(l)).len(),
        ObjectV::Triple { subject, predicate, object } => subject_length(subject)
            + encode_utf8(predicate).len() + object_length(*object),
    }
}

/// Display form of an object.
pub open spec fn show_object(o: ObjectV) -> Seq<char>
    decreases o,
{
    match o {
        ObjectV::Iri(i) => i,
        ObjectV::BlankNode(b) => "_:"@ + b,
        ObjectV::Literal(l) => show_literal(l),
        ObjectV::Triple { subject, predicate, object } => "<< "@ + show_subject(subject) + " "@
            + predicate + " "@ + show_object(*object) + " >>"@,
    }
}

impl Clone for Object {
    fn clone(&self) -> (r: Self)
        ensures
            r@ == self@,
        decreases self,
    {
        match self {
            Object::Iri(s) => Object::Iri(s.clone()),
            Object::BlankNode(s) => Object::BlankNode(s.clone()),
            Object::Literal(l) => Object::Literal(l.clone()),
            Object::Triple { subject, predicate, object } => {
                let s: &IriOrBlankNode = subject;
                let o: &Object = object;
                let o2 = o.clone();
                Object::Triple {
                    subject: Box::new(s.clone()),
                    predicate: predicate.clone(),
                    object: Box::new(o2),
                }
            },
        }
    }
}

impl Object {
    /// An IRI term.
    pub fn iri(iri: String) -> (r: Object)
        ensures
            r@ == ObjectV::Iri(iri@),
    {
        Object::Iri(iri)
    }

    /// A blank node term.
    pub fn bnode(label: String) -> (r: Object)
        ensures
            r@ == ObjectV::BlankNode(label@),
    {
        Object::BlankNode(label)
    }

    /// A literal term.
    pub fn literal(lit: Literal) -> (r: Object)
        ensures
            r@ == ObjectV::Literal(lit@),
    {
        Object::Literal(lit)
    }

    /// A plain string literal term.
    pub fn str(s: &str) -> (r: Object)
        ensures
            r@ == ObjectV::Literal(LiteralV::Str { lexical: s@, lang: None }),
    {
        Object::Literal(Literal::str(s))
    }

    /// A boolean literal term.
    pub fn boolean(b: bool) -> (r: Object)
        ensures
            r@ == ObjectV::Literal(LiteralV::Bool(b)),
    {
        Object::Literal(Literal::boolean(b))
    }

    /// The kind of this term.
    pub fn kind(&self) -> (r: TermKind)
        ensures
            r == object_kind(self@),
    {
        match self {
            Object::Iri(_) => TermKind::Iri,
            Object::BlankNode(_) => TermKind::BlankNode,
            Object::Literal(_) => TermKind::Literal,
            Object::Triple { .. } => TermKind::Triple,
        }
    }

    /// Equality by view.
    pub fn equals(&self, other: &Object) -> (r: bool)
        ensures
            r == (self@ == other@),
        decreases self,
    {
        match (self, other) {
            (Object::Iri(a), Object::Iri(b)) => a.eq(b),
            (Object::BlankNode(a), Object::BlankNode(b)) => a.eq(b),
            (Object::Literal(a), Object::Literal(b)) => a.equals(b),
            (
                Object::Triple { subject: s1, predicate: p1, object: o1 },
                Object::Triple { subject: s2, predicate: p2, object: o2 },
            ) => {
                let a1: &Object = o1;
                let a2: &Object = o2;
                let b1: &IriOrBlankNode = s1;
                let b2: &IriOrBlankNode = s2;
                b1.equals(b2) && p1.eq(p2) && a1.equals(a2)
            },
            _ => false,
        }
    }

    /// UTF-8 length of the term's text (see [`object_length`]).
    pub fn length(&self) -> (r: usize)
        requires
            object_length(self@) <= usize::MAX,
        ensures
            r == object_length(self@),
        decreases self,
    {
        match self {
            Object::Iri(s) => s.as_str().len(),
            Object::BlankNode(s) => s.as_str().len(),
            Object::Literal(l) => l.lexical_form().as_str().len(),
            Object::Triple { subject, predicate, object } => {
                let s: &IriOrBlankNode = subject;
                let o: &Object = object;
                s.length() + predicate.as_str().len() + o.length()
            },
        }
    }

    /// The integer value of a numeric literal.
    pub fn numeric_value(&self) -> (r: Option<i64>)
        ensures
            r == (match self@ {
                ObjectV::Literal(LiteralV::Int(n)) => Some(n as i64),
                _ => None::<i64>,
            }),
    {
        match self {
            Object::Literal(Literal::IntegerLiteral(n)) => Some(*n),
            _ => None,
        }
    }

    /// The datatype IRI of a literal.
    pub fn datatype(&self) -> (r: Option<String>)
        ensures
            opt_view(r) == (match self@ {
                ObjectV::Literal(l) => Some(literal_datatype(l)),
                _ => None,
            }),
    {
        match self {
            Object::Literal(l) => Some(l.datatype()),
            _ => None,
        }
    }

    /// The language tag of a tagged string literal.
    pub fn lang(&self) -> (r: Option<String>)
        ensures
            opt_view(r) == (match self@ {
                ObjectV::Literal(l) => literal_lang(l),
                _ => None,
            }),
    {
        match self {
            Object::Literal(l) => l.lang(),
            _ => None,
        }
    }

    /// The display form.
    pub fn to_display(&self) -> (r: String)
        ensures
            r@ == show_object(self@),
        decreases self,
    {
        match self {
            Object::Iri(s) => s.clone(),
            Object::BlankNode(b) => concat2("_:", b.as_str()),
            Object::Literal(l) => l.to_display(),
            Object::Triple { subject, predicate, object } => {
                let s: &IriOrBlankNode = subject;
                let o: &Object = object;
                let mut r = owned("<< ");
                push_str(&mut r, s.to_display().as_str());
                push_str(&mut r, " ");
                push_str(&mut r, predicate.as_str());
                push_str(&mut r, " ");
                push_str(&mut r, o.to_display().as_str());
                push_str(&mut r, " >>");
                r
            },
        }
    }

    /// The term as a subject, when it is an IRI or a blank node.
    pub fn as_subject(&self) -> (r: Option<IriOrBlankNode>)
        ensures
            match r {
                Some(s) => object_as_subject(self@) == Some(s@),
                None => object_as_subject(self@) is None,
            },
    {
        match self {
            Object::Iri(s) => Some(IriOrBlankNode::Iri(s.clone())),
            Object::BlankNode(s) => Some(IriOrBlankNode::BlankNode(s.clone())),
            _ => None,
        }
    }

    /// The IRI, when the term is one.
    pub fn iri_str(&self) -> (r: Option<String>)
        ensures
            opt_view(r) == (match self@ {
                ObjectV::Iri(i) => Some(i),
                _ => None,
            }),
    {
        match self {
            Object::Iri(s) => Some(s.clone()),
            _ => None,
        }
    }

    /// Is this an IRI or a blank node?
    pub fn is_resource(&self) -> (r: bool)
        ensures
            r == (object_as_subject(self@) is Some),
    {
        match self {
            Object::Iri(_) | Object::BlankNode(_) => true,
            _ => false,
        }
    }
}

} // verus!
