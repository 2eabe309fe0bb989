//! The records that cross the form boundary: terms as plain strings, the
//! shape model, projected forms and validation reports. Numbers that the
//! boundary carries as floating point are held here by their lexical form.
use vstd::prelude::*;
use crate::term::{
    IriOrBlankNode, Literal, LiteralV, Object, ObjectV, SubjectV, literal_datatype, literal_lang,
    literal_lexical, opt_string_eq, opt_view,
};
use crate::text::owned;
use crate::path::PathV;
use crate::vocab;

verus! {

/// A term as plain strings: its kind (`NamedNode`, `BlankNode`, `Literal`),
/// its value, and a literal's datatype or language.
pub struct TermValue {
    pub term_type: String,
    pub value: String,
    pub datatype: Option<String>,
    pub language: Option<String>,
}

/// Mathematical view of a [`TermValue`].
pub struct TermValueV {
    pub term_type: Seq<char>,
    pub value: Seq<char>,
    pub datatype: Option<Seq<char>>,
    pub language: Option<Seq<char>>,
}

impl View for TermValue {
    type V = TermValueV;

    open spec fn view(&self) -> TermValueV {
        TermValueV {
            term_type: self.term_type@,
            value: self.value@,
            datatype: opt_view(self.datatype),
            language: opt_view(self.language),
        }
    }
}

/// A named node.
pub open spec fn named_value(v: Seq<char>) -> TermValueV {
    TermValueV { term_type: "NamedNode"@, value: v, datatype: None, language: None }
}

/// A blank node.
pub open spec fn blank_value(v: Seq<char>) -> TermValueV {
    TermValueV { term_type: "BlankNode"@, value: v, datatype: None, language: None }
}

/// A literal.
pub open spec fn literal_value_of(v: Seq<char>, datatype: Option<Seq<char>>, language: Option<Seq<char>>) -> TermValueV {
    TermValueV { term_type: "Literal"@, value: v, datatype, language }
}

impl TermValue {
    /// A named node.
    pub fn named(v: &str) -> (r: TermValue)
        ensures
            r@ == named_value(v@),
    {
        TermValue { term_type: owned("NamedNode"), value: owned(v), datatype: None, language: None }
    }

    /// A blank node.
    pub fn blank(v: &str) -> (r: TermValue)
        ensures
            r@ == blank_value(v@),
    {
        TermValue { term_type: owned("BlankNode"), value: owned(v), datatype: None, language: None }
    }

    /// A literal with an optional datatype and language.
    pub fn literal(v: &str, datatype: Option<String>, language: Option<String>) -> (r: TermValue)
        ensures
            r@ == literal_value_of(v@, opt_view(datatype), opt_view(language)),
    {
        TermValue { term_type: owned("Literal"), value: owned(v), datatype, language }
    }

    /// A copy.
    pub fn duplicate(&self) -> (r: TermValue)
        ensures
            r@ == self@,
    {
        TermValue {
            term_type: self.term_type.clone(),
            value: self.value.clone(),
            datatype: crate::term::clone_opt_string(&self.datatype),
            language: crate::term::clone_opt_string(&self.language),
        }
    }

    /// Equality of all four fields.
    pub fn equals(&self, other: &TermValue) -> (r: bool)
        ensures
            r == (self@ == other@),
    {
        self.term_type.eq(&other.term_type) && self.value.eq(&other.value) && opt_string_eq(
            &self.datatype,
            &other.datatype,
        ) && opt_string_eq(&self.language, &other.language)
    }
}

/// A string with its language tag (empty when untagged).
pub struct LangString {
    pub value: String,
    pub language: String,
}

/// A property path as the boundary carries it.
pub enum PathExpr {
    Predicate { iri: String },
    Inverse { of: Box<PathExpr> },
    Sequence { steps: Vec<PathExpr> },
    Alternative { options: Vec<PathExpr> },
    ZeroOrMore { path: Box<PathExpr> },
    OneOrMore { path: Box<PathExpr> },
    ZeroOrOne { path: Box<PathExpr> },
}

impl PathExpr {
    /// The path this expression describes.
    pub open spec fn view_of(&self) -> PathV
        decreases self,
    {
        match self {
            PathExpr::Predicate { iri } => PathV::Predicate(iri@),
            PathExpr::Inverse { of } => PathV::Inverse(Box::new((**of).view_of())),
            PathExpr::Sequence { steps } => PathV::Sequence(
                Seq::new(
                    steps.len() as nat,
                    |i: int|
                        if 0 <= i < steps.len() {
                            steps@[i].view_of()
                        } else {
                            PathV::Predicate(Seq::empty())
                        },
                ),
            ),
            PathExpr::Alternative { options } => PathV::Alternative(
                Seq::new(
                    options.len() as nat,
                    |i: int|
                        if 0 <= i < options.len() {
                            options@[i].view_of()
                        } else {
                            PathV::Predicate(Seq::empty())
                        },
                ),
            ),
            PathExpr::ZeroOrMore { path } => PathV::ZeroOrMore(Box::new((**path).view_of())),
            PathExpr::OneOrMore { path } => PathV::OneOrMore(Box::new((**path).view_of())),
            PathExpr::ZeroOrOne { path } => PathV::ZeroOrOne(Box::new((**path).view_of())),
        }
    }
}

impl View for PathExpr {
    type V = PathV;

    open spec fn view(&self) -> PathV {
        self.view_of()
    }
}

/// The view of an expression built from an inner expression.
pub proof fn lemma_expr_wrapped_view(b: Box<PathExpr>)
    ensures
        (PathExpr::Inverse { of: b })@ == PathV::Inverse(Box::new((*b)@)),
        (PathExpr::ZeroOrMore { path: b })@ == PathV::ZeroOrMore(Box::new((*b)@)),
        (PathExpr::OneOrMore { path: b })@ == PathV::OneOrMore(Box::new((*b)@)),
        (PathExpr::ZeroOrOne { path: b })@ == PathV::ZeroOrOne(Box::new((*b)@)),
{
    let a = (PathExpr::Inverse { of: b })@;
    assert(*(a->Inverse_0) == (*b)@);
    let z = (PathExpr::ZeroOrMore { path: b })@;
    assert(*(z->ZeroOrMore_0) == (*b)@);
    let o = (PathExpr::OneOrMore { path: b })@;
    assert(*(o->OneOrMore_0) == (*b)@);
    let q = (PathExpr::ZeroOrOne { path: b })@;
    assert(*(q->ZeroOrOne_0) == (*b)@);
}

/// The view of an expression built from a list of expressions.
pub proof fn lemma_expr_list_view(v: Vec<PathExpr>)
    ensures
        (PathExpr::Sequence { steps: v })@ == PathV::Sequence(v@.map_values(|p: PathExpr| p@)),
        (PathExpr::Alternative { options: v })@ == PathV::Alternative(v@.map_values(|p: PathExpr| p@)),
{
    let s = (PathExpr::Sequence { steps: v })@;
    assert(s->Sequence_0 =~= v@.map_values(|p: PathExpr| p@));
    let a = (PathExpr::Alternative { options: v })@;
    assert(a->Alternative_0 =~= v@.map_values(|p: PathExpr| p@));
}

/// The cardinality bounds of a property.
pub struct Cardinality {
    pub min: Option<i64>,
    pub max: Option<i64>,
}

/// The value constraints of a property. Numeric bounds are held by the
/// lexical form of their literal.
pub struct ValueConstraints {
    pub datatype: Option<String>,
    pub node_kind: Option<String>,
    pub class_iri: Option<String>,
    pub pattern: Option<String>,
    pub flags: Option<String>,
    pub min_length: Option<i64>,
    pub max_length: Option<i64>,
    pub min_inclusive: Option<String>,
    pub max_inclusive: Option<String>,
    pub min_exclusive: Option<String>,
    pub max_exclusive: Option<String>,
    pub in_values: Option<Vec<TermValue>>,
    pub has_value: Option<TermValue>,
    pub default_value: Option<TermValue>,
    pub unique_lang: Option<bool>,
    pub language_in: Option<Vec<String>>,
}

impl ValueConstraints {
    /// No constraint.
    pub fn new() -> (r: ValueConstraints)
        ensures
            r.datatype is None && r.node_kind is None && r.class_iri is None && r.pattern is None
                && r.flags is None && r.min_length is None && r.max_length is None && r.min_inclusive is None
                && r.max_inclusive is None && r.min_exclusive is None && r.max_exclusive is None
                && r.in_values is None && r.has_value is None && r.default_value is None
                && r.unique_lang is None && r.language_in is None,
    {
        ValueConstraints {
            datatype: None,
            node_kind: None,
            class_iri: None,
            pattern: None,
            flags: None,
            min_length: None,
            max_length: None,
            min_inclusive: None,
            max_inclusive: None,
            min_exclusive: None,
            max_exclusive: None,
            in_values: None,
            has_value: None,
            default_value: None,
            unique_lang: None,
            language_in: None,
        }
    }
}

/// The logical constraints of a property: its `sh:or` / `sh:xone` / `sh:and`
/// branches and its `sh:not` shape.
pub struct LogicalConstraints {
    pub or: Option<Vec<PropertyShapeIR>>,
    pub xone: Option<Vec<PropertyShapeIR>>,
    pub and: Option<Vec<PropertyShapeIR>>,
    pub not: Option<Box<PropertyShapeIR>>,
}

/// Form annotations of a property. `order` is held by its lexical form.
pub struct PresentationHints {
    pub names: Vec<LangString>,
    pub descriptions: Vec<LangString>,
    pub order: Option<String>,
    pub group_id: Option<String>,
    pub editor: Option<String>,
    pub viewer: Option<String>,
    pub single_line: Option<bool>,
}

/// A component as an IRI with named parameter values.
pub struct ComponentIR {
    pub iri: String,
    pub params: Vec<(String, Vec<TermValue>)>,
}

/// A property shape as the boundary carries it.
pub struct PropertyShapeIR {
    pub id: Option<String>,
    pub path: PathExpr,
    pub path_key: String,
    pub cardinality: Cardinality,
    pub value: ValueConstraints,
    pub logical: LogicalConstraints,
    pub node: Option<String>,
    pub presentation: PresentationHints,
    pub components: Vec<ComponentIR>,
}

/// A node shape as the boundary carries it.
pub struct NodeShapeIR {
    pub id: String,
    pub target_classes: Vec<String>,
    pub instance_class: Option<String>,
    pub properties: Vec<PropertyShapeIR>,
    pub closed: Option<bool>,
}

/// A property group with its labels and order (held by its lexical form).
pub struct PropertyGroupIR {
    pub id: String,
    pub labels: Vec<LangString>,
    pub order: Option<String>,
}

/// The whole shape model: node shapes, groups, and (target class, shape id) pairs.
pub struct ShapeModelJson {
    pub node_shapes: Vec<NodeShapeIR>,
    pub groups: Vec<PropertyGroupIR>,
    pub by_target_class: Vec<(String, String)>,
}

/// A value reached by a property path; `nested` is the value again when the
/// property refers to a node shape and the value is a resource.
pub struct ProjectedValue {
    pub value: TermValue,
    pub nested: Option<TermValue>,
}

/// The values of one property, keyed by its path.
pub struct ProjectedProperty {
    pub path_key: String,
    pub values: Vec<ProjectedValue>,
}

/// A focus node with the values of each property of a node shape.
pub struct ProjectedForm {
    pub focus: TermValue,
    pub properties: Vec<ProjectedProperty>,
}

/// A triple as plain terms.
pub struct RudofQuad {
    pub subject: TermValue,
    pub predicate: TermValue,
    pub object: TermValue,
}

/// One validation result.
pub struct RudofResult {
    pub focus_node: TermValue,
    pub path: Option<TermValue>,
    pub value: Option<TermValue>,
    pub message: Vec<String>,
    pub severity: Option<String>,
    pub source_constraint_component: Option<String>,
}

/// A validation report.
pub struct RudofReport {
    pub conforms: bool,
    pub results: Vec<RudofResult>,
}

// ---------------------------------------------------------------------------
// Terms to plain values and back
// ---------------------------------------------------------------------------

/// The plain form of a term: a literal carries its language when tagged and
/// its datatype otherwise; a quoted triple is not modelled and becomes the
/// blank node `rdfstar`.
pub open spec fn object_value(o: ObjectV) -> TermValueV {
    match o {
        ObjectV::Iri(i) => named_value(i),
        ObjectV::BlankNode(b) => blank_value(b),
        ObjectV::Literal(l) => literal_value_of(
            literal_lexical(l),
            if literal_lang(l) is None {
                Some(literal_datatype(l))
            } else {
                None
            },
            literal_lang(l),
        ),
        ObjectV::Triple { .. } => blank_value("rdfstar"@),
    }
}

/// The plain form of a subject.
pub open spec fn subject_value(s: SubjectV) -> TermValueV {
    match s {
        SubjectV::Iri(i) => named_value(i),
        SubjectV::BlankNode(b) => blank_value(b),
    }
}

/// The plain form of a term.
pub fn object_to_value(o: &Object) -> (r: TermValue)
    ensures
        r@ == object_value(o@),
{
    match o {
        Object::Iri(i) => TermValue::named(i.as_str()),
        Object::BlankNode(b) => TermValue::blank(b.as_str()),
        Object::Literal(l) => {
            let lang = l.lang();
            let dt = if lang.is_none() {
                Some(l.datatype())
            } else {
                None
            };
            TermValue::literal(l.lexical_form().as_str(), dt, lang)
        },
        Object::Triple { .. } => TermValue::blank("rdfstar"),
    }
}

/// The plain form of a subject.
pub fn subject_to_value(s: &IriOrBlankNode) -> (r: TermValue)
    ensures
        r@ == subject_value(s@),
{
    match s {
        IriOrBlankNode::Iri(i) => TermValue::named(i.as_str()),
        IriOrBlankNode::BlankNode(b) => TermValue::blank(b.as_str()),
    }
}

/// The literal a plain literal value stands for: tagged when it has a
/// language, typed when it has a datatype other than `xsd:string`, plain otherwise.
pub open spec fn value_literal(t: TermValueV) -> LiteralV {
    match t.language {
        Some(lang) => LiteralV::Str { lexical: t.value, lang: Some(lang) },
        None => match t.datatype {
            Some(dt) => if dt == vocab::xsd_string_iri() {
                LiteralV::Str { lexical: t.value, lang: None }
            } else {
                LiteralV::Typed { lexical: t.value, datatype: dt }
            },
            None => LiteralV::Str { lexical: t.value, lang: None },
        },
    }
}

/// The term a plain value stands for: by its kind, any unknown kind read as a literal.
pub open spec fn value_object(t: TermValueV) -> ObjectV {
    if t.term_type == "NamedNode"@ {
        ObjectV::Iri(t.value)
    } else if t.term_type == "BlankNode"@ {
        ObjectV::BlankNode(t.value)
    } else {
        ObjectV::Literal(value_literal(t))
    }
}

/// The literal a plain literal value stands for.
pub fn literal_of(t: &TermValue) -> (r: Literal)
    ensures
        r@ == value_literal(t@),
{
    match &t.language {
        Some(lang) => Literal::StringLiteral { lexical_form: t.value.clone(), lang: Some(lang.clone()) },
        None => match &t.datatype {
            Some(dt) => {
                let xsd = vocab::xsd_string();
                if dt.eq(&xsd) {
                    Literal::StringLiteral { lexical_form: t.value.clone(), lang: None }
                } else {
                    Literal::DatatypeLiteral { lexical_form: t.value.clone(), datatype: dt.clone() }
                }
            },
            None => Literal::StringLiteral { lexical_form: t.value.clone(), lang: None },
        },
    }
}

/// The term a plain value stands for.
pub fn term_to_object(t: &TermValue) -> (r: Object)
    ensures
        r@ == value_object(t@),
{
    let named = owned("NamedNode");
    let blank = owned("BlankNode");
    if t.term_type.eq(&named) {
        Object::Iri(t.value.clone())
    } else if t.term_type.eq(&blank) {
        Object::BlankNode(t.value.clone())
    } else {
        Object::Literal(literal_of(t))
    }
}

/// The subject a plain value stands for; a literal cannot be one.
pub fn term_to_subject(t: &TermValue) -> (r: Result<IriOrBlankNode, String>)
    ensures
        t@.term_type == "NamedNode"@ ==> (r matches Ok(s) && s@ == SubjectV::Iri(t@.value)),
        t@.term_type == "BlankNode"@ ==> (r matches Ok(s) && s@ == SubjectV::BlankNode(t@.value)),
        t@.term_type != "NamedNode"@ && t@.term_type != "BlankNode"@ ==> r is Err,
{
    proof {
        reveal_strlit("NamedNode");
        reveal_strlit("BlankNode");
        assert("NamedNode"@[0] != "BlankNode"@[0]);
        assert("NamedNode"@ != "BlankNode"@);
    }
    let named = owned("NamedNode");
    let blank = owned("BlankNode");
    if t.term_type.eq(&named) {
        Ok(IriOrBlankNode::Iri(t.value.clone()))
    } else if t.term_type.eq(&blank) {
        Ok(IriOrBlankNode::BlankNode(t.value.clone()))
    } else {
        Err(owned("subject must be a NamedNode or BlankNode"))
    }
}

/// The media type's RDF syntax.
pub enum RDFFormat {
    Turtle,
    NTriples,
    JsonLd,
}

/// The RDF syntax for a media type: JSON-LD, N-Triples, or Turtle for anything else.
pub fn format_of(media_type: &str) -> (r: RDFFormat)
    ensures
        (media_type@ == "application/ld+json"@ || media_type@ == "application/json"@) ==> r is JsonLd,
        (media_type@ == "application/n-triples"@ || media_type@ == "text/plain"@) ==> r is NTriples,
        !(media_type@ == "application/ld+json"@ || media_type@ == "application/json"@ || media_type@
            == "application/n-triples"@ || media_type@ == "text/plain"@) ==> r is Turtle,
{
    proof {
        reveal_strlit("application/ld+json");
        reveal_strlit("application/json");
        reveal_strlit("application/n-triples");
        reveal_strlit("text/plain");
        assert("application/ld+json"@.len() != "application/n-triples"@.len());
        assert("application/ld+json"@.len() != "text/plain"@.len());
        assert("application/json"@.len() != "application/n-triples"@.len());
        assert("application/json"@.len() != "text/plain"@.len());
    }
    let s = owned(media_type);
    if s.eq(&owned("application/ld+json")) || s.eq(&owned("application/json")) {
        RDFFormat::JsonLd
    } else if s.eq(&owned("application/n-triples")) || s.eq(&owned("text/plain")) {
        RDFFormat::NTriples
    } else {
        RDFFormat::Turtle
    }
}

} // verus!
