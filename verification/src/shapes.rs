//! The shape model that a form is built from: node and property shapes with
//! their typed constraints, form annotations read from the shapes graph, and
//! the default editor each property gets.
use vstd::prelude::*;
use crate::dto::{
    LogicalConstraints, PathExpr, PropertyShapeIR, ValueConstraints, lemma_expr_list_view, lemma_expr_wrapped_view,
};
use crate::path::{PathV, SHACLPath};
use crate::term::{Literal, LiteralV, Object, ObjectV, literal_lang, literal_lexical, object_as_subject, opt_view};
use crate::types::{IriRef, NodeKind, Value, node_kind_iri, show_iri_ref};
use crate::dto::{
    ComponentIR, LangString, PresentationHints, PropertyGroupIR, TermValue, TermValueV, blank_value, literal_value_of,
    named_value, object_to_value, object_value,
};
use crate::graph::{Graph, TripleV, object_views, objects_of, subjects_of};
use crate::ast::{ASTComponent, ASTPropertyShape, ASTSchema, ASTShape, shape_id, shape_ids};
use crate::dto::{Cardinality, NodeShapeIR};
use crate::parse::{values_for, values_of};
use crate::text::{concat2, has_prefix, owned, push_str, seq_join, strip_prefix, views};
use crate::vocab;

verus! {

// ---------------------------------------------------------------------------
// Default editors
// ---------------------------------------------------------------------------

/// The XML Schema namespace.
pub open spec fn xsd_ns() -> Seq<char> {
    "http://www.w3.org/2001/XMLSchema#"@
}

/// The XML Schema local names of numeric datatypes.
pub open spec fn numeric_local(s: Seq<char>) -> bool {
    ||| s == "integer"@
    ||| s == "decimal"@
    ||| s == "float"@
    ||| s == "double"@
    ||| s == "long"@
    ||| s == "int"@
    ||| s == "short"@
    ||| s == "byte"@
    ||| s == "nonNegativeInteger"@
    ||| s == "positiveInteger"@
    ||| s == "nonPositiveInteger"@
    ||| s == "negativeInteger"@
    ||| s == "unsignedLong"@
    ||| s == "unsignedInt"@
    ||| s == "unsignedShort"@
    ||| s == "unsignedByte"@
}

/// Is `s` the local name of a numeric XML Schema datatype?
fn is_numeric_local(s: &str) -> (r: bool)
    ensures
        r == numeric_local(s@),
{
    let t = owned(s);
    t.eq(&owned("integer")) || t.eq(&owned("decimal")) || t.eq(&owned("float")) || t.eq(&owned("double"))
        || t.eq(&owned("long")) || t.eq(&owned("int")) || t.eq(&owned("short")) || t.eq(&owned("byte"))
        || t.eq(&owned("nonNegativeInteger")) || t.eq(&owned("positiveInteger")) || t.eq(
        &owned("nonPositiveInteger"),
    ) || t.eq(&owned("negativeInteger")) || t.eq(&owned("unsignedLong")) || t.eq(&owned("unsignedInt"))
        || t.eq(&owned("unsignedShort")) || t.eq(&owned("unsignedByte"))
}

/// The editor a datatype calls for, if any: rich text for `rdf:HTML`, a
/// language-tagged text field for `rdf:langString`, and for XML Schema types a
/// boolean select, date picker, date-time picker or number field.
pub open spec fn datatype_editor(dt: Seq<char>) -> Option<Seq<char>> {
    if dt == vocab::rdf_html_iri() {
        Some(vocab::shui_rich_text_editor_iri())
    } else if dt == vocab::rdf_lang_string_iri() {
        Some(vocab::shui_text_field_with_lang_editor_iri())
    } else if has_prefix(dt, xsd_ns()) {
        let local = dt.skip(xsd_ns().len() as int);
        if local == "boolean"@ {
            Some(vocab::shui_boolean_select_editor_iri())
        } else if local == "date"@ {
            Some(vocab::shui_date_picker_editor_iri())
        } else if local == "dateTime"@ {
            Some(vocab::shui_date_time_picker_editor_iri())
        } else if numeric_local(local) {
            Some(vocab::shui_number_field_editor_iri())
        } else {
            None
        }
    } else {
        None
    }
}

/// The editor that a property's own facts call for, if any, in this order: a
/// node shape reference, a non-empty `sh:in`, the datatype, a class, an IRI
/// node kind or `xsd:anyURI`.
pub open spec fn facts_editor(v: ValueConstraints, node: Option<String>) -> Option<Seq<char>> {
    if node is Some {
        Some(vocab::shui_details_editor_iri())
    } else if v.in_values matches Some(l) && l.len() > 0 {
        Some(vocab::shui_enum_select_editor_iri())
    } else if v.datatype is Some && datatype_editor(v.datatype->0@) is Some {
        datatype_editor(v.datatype->0@)
    } else if v.class_iri is Some {
        Some(vocab::shui_auto_complete_editor_iri())
    } else if opt_view(v.node_kind) == Some(vocab::sh_iri_iri()) || opt_view(v.datatype) == Some(
        vocab::xsd_any_uri_iri(),
    ) {
        Some(vocab::shui_iri_editor_iri())
    } else {
        None
    }
}

/// The editor a datatype calls for.
fn datatype_editor_of(dt: &String) -> (r: Option<String>)
    ensures
        opt_view(r) == datatype_editor(dt@),
{
    if dt.eq(&vocab::rdf_html()) {
        return Some(vocab::shui_rich_text_editor());
    }
    if dt.eq(&vocab::rdf_lang_string()) {
        return Some(vocab::shui_text_field_with_lang_editor());
    }
    match strip_prefix(dt.as_str(), "http://www.w3.org/2001/XMLSchema#") {
        Some(local) => {
            let l = owned(local);
            if l.eq(&owned("boolean")) {
                Some(vocab::shui_boolean_select_editor())
            } else if l.eq(&owned("date")) {
                Some(vocab::shui_date_picker_editor())
            } else if l.eq(&owned("dateTime")) {
                Some(vocab::shui_date_time_picker_editor())
            } else if is_numeric_local(local) {
                Some(vocab::shui_number_field_editor())
            } else {
                None
            }
        },
        None => None,
    }
}

/// The editor that a property's own facts call for, if any.
pub fn editor_from_facts(value: &ValueConstraints, node: &Option<String>) -> (r: Option<String>)
    ensures
        opt_view(r) == facts_editor(*value, *node),
{
    if node.is_some() {
        return Some(vocab::shui_details_editor());
    }
    match &value.in_values {
        Some(l) => {
            if l.len() > 0 {
                return Some(vocab::shui_enum_select_editor());
            }
        },
        None => {},
    }
    match &value.datatype {
        Some(dt) => match datatype_editor_of(dt) {
            Some(e) => {
                return Some(e);
            },
            None => {},
        },
        None => {},
    }
    if value.class_iri.is_some() {
        return Some(vocab::shui_auto_complete_editor());
    }
    let iri_kind = match &value.node_kind {
        Some(k) => k.eq(&vocab::sh_iri()),
        None => false,
    };
    let any_uri = match &value.datatype {
        Some(dt) => dt.eq(&vocab::xsd_any_uri()),
        None => false,
    };
    if iri_kind || any_uri {
        Some(vocab::shui_iri_editor())
    } else {
        None
    }
}

/// The first branch of `sh:or`, else of `sh:xone` (only when there is no `sh:or`).
pub open spec fn first_branch(logical: LogicalConstraints) -> Option<PropertyShapeIR> {
    match logical.or {
        Some(v) => if v.len() > 0 {
            Some(v@[0])
        } else {
            None
        },
        None => match logical.xone {
            Some(v) => if v.len() > 0 {
                Some(v@[0])
            } else {
                None
            },
            None => None,
        },
    }
}

/// The default editor: the property's own facts, else (for a property with
/// neither datatype nor node kind) the facts of its first `sh:or`/`sh:xone`
/// branch, else a plain text field.
pub open spec fn default_editor(v: ValueConstraints, node: Option<String>, logical: LogicalConstraints) -> Seq<char> {
    match facts_editor(v, node) {
        Some(e) => e,
        None => if v.datatype is None && v.node_kind is None && first_branch(logical) is Some && facts_editor(
            first_branch(logical)->0.value,
            first_branch(logical)->0.node,
        ) is Some {
            facts_editor(first_branch(logical)->0.value, first_branch(logical)->0.node)->0
        } else {
            vocab::shui_text_field_editor_iri()
        },
    }
}

/// The default editor of a property.
pub fn resolve_default_editor(value: &ValueConstraints, node: &Option<String>, logical: &LogicalConstraints) -> (r:
    String)
    ensures
        r@ == default_editor(*value, *node, *logical),
{
    match editor_from_facts(value, node) {
        Some(e) => {
            return e;
        },
        None => {},
    }
    if value.datatype.is_none() && value.node_kind.is_none() {
        let branch: Option<&PropertyShapeIR> = match &logical.or {
            Some(v) => if v.len() > 0 {
                Some(&v[0])
            } else {
                None
            },
            None => match &logical.xone {
                Some(v) => if v.len() > 0 {
                    Some(&v[0])
                } else {
                    None
                },
                None => None,
            },
        };
        match branch {
            Some(b) => match editor_from_facts(&b.value, &b.node) {
                Some(e) => {
                    return e;
                },
                None => {},
            },
            None => {},
        }
    }
    vocab::shui_text_field_editor()
}

// ---------------------------------------------------------------------------
// Paths
// ---------------------------------------------------------------------------

/// The path key of a path, in SPARQL property-path syntax: `p`, `^p`,
/// `(a/b)`, `(a|b)`, `p*`, `p+`, `p?`.
pub open spec fn key_of(p: PathV) -> Seq<char>
    decreases p,
{
    match p {
        PathV::Predicate(i) => i,
        PathV::Inverse(inner) => "^"@ + key_of(*inner),
        PathV::Sequence(ps) => "("@ + seq_join(keys_seq(ps), "/"@) + ")"@,
        PathV::Alternative(ps) => "("@ + seq_join(keys_seq(ps), "|"@) + ")"@,
        PathV::ZeroOrMore(inner) => key_of(*inner) + "*"@,
        PathV::OneOrMore(inner) => key_of(*inner) + "+"@,
        PathV::ZeroOrOne(inner) => key_of(*inner) + "?"@,
    }
}

/// The keys of a list of paths.
pub open spec fn keys_seq(ps: Seq<PathV>) -> Seq<Seq<char>>
    decreases ps,
{
    if ps.len() == 0 {
        Seq::empty()
    } else {
        keys_seq(ps.drop_last()).push(key_of(ps.last()))
    }
}

/// The views of a list of paths.
pub open spec fn path_views(v: Seq<SHACLPath>) -> Seq<PathV> {
    v.map_values(|p: SHACLPath| p@)
}

/// The keys of the paths of a sequence or alternative path.
fn keys_of(whole: &SHACLPath) -> (r: Vec<String>)
    requires
        whole is Sequence || whole is Alternative,
    ensures
        views(r@) == keys_seq(match whole@ {
            PathV::Sequence(ps) => ps,
            PathV::Alternative(ps) => ps,
            _ => Seq::empty(),
        }),
    decreases whole@, 0nat,
{
    let paths = match whole {
        SHACLPath::Sequence { paths } => paths,
        SHACLPath::Alternative { paths } => paths,
        _ => {
            return Vec::new();
        },
    };
    proof {
        crate::path::lemma_list_view(*paths);
    }
    let ghost ps = path_views(paths@);
    assert(ps == match whole@ {
        PathV::Sequence(ps) => ps,
        PathV::Alternative(ps) => ps,
        _ => Seq::empty(),
    });
    let mut r: Vec<String> = Vec::new();
    let mut i: usize = 0;
    assert(ps.take(0) =~= Seq::<PathV>::empty());
    assert(views(r@) =~= Seq::<Seq<char>>::empty());
    while i < paths.len()
        invariant
            i <= paths.len(),
            ps == path_views(paths@),
            whole@ == PathV::Sequence(ps) || whole@ == PathV::Alternative(ps),
            views(r@) == keys_seq(ps.take(i as int)),
        decreases paths.len() - i,
    {
        proof {
            let pv = whole@;
            assert(ps[i as int] == paths@[i as int]@);
            assert(decreases_to!(pv => ps[i as int])) by {
                match pv {
                    PathV::Sequence(qs) => {
                        assert(decreases_to!(pv => qs));
                        assert(decreases_to!(qs => qs[i as int]));
                    },
                    PathV::Alternative(qs) => {
                        assert(decreases_to!(pv => qs));
                        assert(decreases_to!(qs => qs[i as int]));
                    },
                    _ => {},
                }
            }
        }
        let k = path_key(&paths[i]);
        let ghost before = r@;
        r.push(k);
        proof {
            assert(views(r@) =~= views(before).push(k@));
            assert(ps.take(i as int + 1).drop_last() =~= ps.take(i as int));
            assert(ps.take(i as int + 1).last() == ps[i as int]);
        }
        i = i + 1;
    }
    assert(ps.take(paths.len() as int) =~= ps);
    r
}

/// The expressions of the paths of a sequence or alternative path.
fn exprs_of(whole: &SHACLPath) -> (r: Vec<PathExpr>)
    requires
        whole is Sequence || whole is Alternative,
    ensures
        r@.map_values(|p: PathExpr| p@) == match whole@ {
            PathV::Sequence(ps) => ps,
            PathV::Alternative(ps) => ps,
            _ => Seq::empty(),
        },
    decreases whole@, 0nat,
{
    let paths = match whole {
        SHACLPath::Sequence { paths } => paths,
        SHACLPath::Alternative { paths } => paths,
        _ => {
            return Vec::new();
        },
    };
    proof {
        crate::path::lemma_list_view(*paths);
    }
    let ghost ps = path_views(paths@);
    let mut r: Vec<PathExpr> = Vec::new();
    let mut i: usize = 0;
    assert(ps.take(0) =~= Seq::<PathV>::empty());
    assert(r@.map_values(|p: PathExpr| p@) =~= Seq::<PathV>::empty());
    while i < paths.len()
        invariant
            i <= paths.len(),
            ps == path_views(paths@),
            whole@ == PathV::Sequence(ps) || whole@ == PathV::Alternative(ps),
            r@.map_values(|p: PathExpr| p@) == ps.take(i as int),
        decreases paths.len() - i,
    {
        proof {
            let pv = whole@;
            assert(ps[i as int] == paths@[i as int]@);
            assert(decreases_to!(pv => ps[i as int])) by {
                match pv {
                    PathV::Sequence(qs) => {
                        assert(decreases_to!(pv => qs));
                        assert(decreases_to!(qs => qs[i as int]));
                    },
                    PathV::Alternative(qs) => {
                        assert(decreases_to!(pv => qs));
                        assert(decreases_to!(qs => qs[i as int]));
                    },
                    _ => {},
                }
            }
        }
        let e = path_to_ir(&paths[i]);
        let ghost before = r@;
        r.push(e);
        proof {
            assert(r@.map_values(|p: PathExpr| p@) =~= before.map_values(|p: PathExpr| p@).push(e@));
            assert(ps.take(i as int + 1) =~= ps.take(i as int).push(ps[i as int]));
        }
        i = i + 1;
    }
    assert(ps.take(paths.len() as int) =~= ps);
    r
}

/// The boundary form of a path; it describes the same path.
pub fn path_to_ir(path: &SHACLPath) -> (r: PathExpr)
    ensures
        r@ == path@,
    decreases path@, 1nat,
{
    match path {
        SHACLPath::Predicate { pred } => {
            let r = PathExpr::Predicate { iri: pred.clone() };
            assert(path@ == PathV::Predicate(pred@));
            assert(r@ == PathV::Predicate(pred@));
            r
        },
        SHACLPath::Sequence { paths } => {
            proof {
                crate::path::lemma_list_view(*paths);
            }
            let steps = exprs_of(path);
            proof {
                lemma_expr_list_view(steps);
            }
            PathExpr::Sequence { steps }
        },
        SHACLPath::Alternative { paths } => {
            proof {
                crate::path::lemma_list_view(*paths);
            }
            let options = exprs_of(path);
            proof {
                lemma_expr_list_view(options);
            }
            PathExpr::Alternative { options }
        },
        SHACLPath::Inverse { path: inner } => {
            proof {
                let pv = path@;
                assert(*(pv->Inverse_0) == (**inner)@);
                assert(decreases_to!(pv => *(pv->Inverse_0)));
                crate::path::lemma_wrapped_view(*inner);
            }
            let b = Box::new(path_to_ir(inner));
            proof {
                lemma_expr_wrapped_view(b);
            }
            PathExpr::Inverse { of: b }
        },
        SHACLPath::ZeroOrMore { path: inner } => {
            proof {
                let pv = path@;
                assert(*(pv->ZeroOrMore_0) == (**inner)@);
                assert(decreases_to!(pv => *(pv->ZeroOrMore_0)));
                crate::path::lemma_wrapped_view(*inner);
            }
            let b = Box::new(path_to_ir(inner));
            proof {
                lemma_expr_wrapped_view(b);
            }
            PathExpr::ZeroOrMore { path: b }
        },
        SHACLPath::OneOrMore { path: inner } => {
            proof {
                let pv = path@;
                assert(*(pv->OneOrMore_0) == (**inner)@);
                assert(decreases_to!(pv => *(pv->OneOrMore_0)));
                crate::path::lemma_wrapped_view(*inner);
            }
            let b = Box::new(path_to_ir(inner));
            proof {
                lemma_expr_wrapped_view(b);
            }
            PathExpr::OneOrMore { path: b }
        },
        SHACLPath::ZeroOrOne { path: inner } => {
            proof {
                let pv = path@;
                assert(*(pv->ZeroOrOne_0) == (**inner)@);
                assert(decreases_to!(pv => *(pv->ZeroOrOne_0)));
                crate::path::lemma_wrapped_view(*inner);
            }
            let b = Box::new(path_to_ir(inner));
            proof {
                lemma_expr_wrapped_view(b);
            }
            PathExpr::ZeroOrOne { path: b }
        },
    }
}

/// The path key of a path.
pub fn path_key(path: &SHACLPath) -> (r: String)
    ensures
        r@ == key_of(path@),
    decreases path@, 1nat,
{
    match path {
        SHACLPath::Predicate { pred } => {
            assert(path@ == PathV::Predicate(pred@));
            pred.clone()
        },
        SHACLPath::Sequence { paths } => {
            proof {
                crate::path::lemma_list_view(*paths);
            }
            let keys = keys_of(path);
            let joined = crate::text::join(&keys, "/");
            let mut r = owned("(");
            push_str(&mut r, joined.as_str());
            push_str(&mut r, ")");
            r
        },
        SHACLPath::Alternative { paths } => {
            proof {
                crate::path::lemma_list_view(*paths);
            }
            let keys = keys_of(path);
            let joined = crate::text::join(&keys, "|");
            let mut r = owned("(");
            push_str(&mut r, joined.as_str());
            push_str(&mut r, ")");
            r
        },
        SHACLPath::Inverse { path: inner } => {
            proof {
                let pv = path@;
                assert(*(pv->Inverse_0) == (**inner)@);
                assert(decreases_to!(pv => *(pv->Inverse_0)));
            }
            concat2("^", path_key(inner).as_str())
        },
        SHACLPath::ZeroOrMore { path: inner } => {
            proof {
                let pv = path@;
                assert(*(pv->ZeroOrMore_0) == (**inner)@);
                assert(decreases_to!(pv => *(pv->ZeroOrMore_0)));
            }
            concat2(path_key(inner).as_str(), "*")
        },
        SHACLPath::OneOrMore { path: inner } => {
            proof {
                let pv = path@;
                assert(*(pv->OneOrMore_0) == (**inner)@);
                assert(decreases_to!(pv => *(pv->OneOrMore_0)));
            }
            concat2(path_key(inner).as_str(), "+")
        },
        SHACLPath::ZeroOrOne { path: inner } => {
            proof {
                let pv = path@;
                assert(*(pv->ZeroOrOne_0) == (**inner)@);
                assert(decreases_to!(pv => *(pv->ZeroOrOne_0)));
            }
            concat2(path_key(inner).as_str(), "?")
        },
    }
}

// ---------------------------------------------------------------------------
// Terms and values as plain strings
// ---------------------------------------------------------------------------

/// The text of an IRI reference.
pub fn iriref_str(iri: &IriRef) -> (r: String)
    ensures
        r@ == show_iri_ref(iri@),
{
    iri.to_display()
}

/// The SHACL IRI of a node kind.
pub fn nodekind_iri(nk: &NodeKind) -> (r: String)
    ensures
        r@ == node_kind_iri(*nk),
{
    nk.iri()
}

/// The IRI of a term, when it is one.
pub open spec fn iri_of(o: ObjectV) -> Option<Seq<char>> {
    match o {
        ObjectV::Iri(i) => Some(i),
        _ => None,
    }
}

/// The IRI of a term, when it is one.
pub fn object_iri(o: &Object) -> (r: Option<String>)
    ensures
        opt_view(r) == iri_of(o@),
{
    match o {
        Object::Iri(i) => Some(i.clone()),
        _ => None,
    }
}

/// The text of a term: an IRI, `_:label`, a literal's lexical form; nothing for a quoted triple.
pub open spec fn term_text(o: ObjectV) -> Seq<char> {
    match o {
        ObjectV::Iri(i) => i,
        ObjectV::BlankNode(b) => "_:"@ + b,
        ObjectV::Literal(l) => literal_lexical(l),
        ObjectV::Triple { .. } => Seq::empty(),
    }
}

/// The text of a term.
pub fn object_str(o: &Object) -> (r: String)
    ensures
        r@ == term_text(o@),
{
    match o {
        Object::Iri(i) => i.clone(),
        Object::BlankNode(b) => concat2("_:", b.as_str()),
        Object::Literal(l) => concrete_lexical(l),
        Object::Triple { .. } => String::new(),
    }
}

/// The lexical form of a literal.
pub fn concrete_lexical(l: &Literal) -> (r: String)
    ensures
        r@ == literal_lexical(l@),
{
    l.lexical_form()
}

/// The plain form of a literal of the shapes model: a string keeps its
/// language, a typed literal its datatype; an integer has neither, a boolean
/// is typed `xsd:boolean`.
pub open spec fn literal_term(l: LiteralV) -> TermValueV {
    match l {
        LiteralV::Str { lexical, lang } => literal_value_of(lexical, None, lang),
        LiteralV::Typed { lexical, datatype } => literal_value_of(lexical, Some(datatype), None),
        LiteralV::Int(_) => literal_value_of(literal_lexical(l), None, None),
        LiteralV::Bool(_) => literal_value_of(literal_lexical(l), Some(vocab::xsd_boolean_iri()), None),
    }
}

/// The plain form of a literal of the shapes model.
pub fn concrete_to_term(l: &Literal) -> (r: TermValue)
    ensures
        r@ == literal_term(l@),
{
    match l {
        Literal::StringLiteral { lexical_form, lang } => TermValue::literal(
            lexical_form.as_str(),
            None,
            crate::term::clone_opt_string(lang),
        ),
        Literal::DatatypeLiteral { lexical_form, datatype } => TermValue::literal(
            lexical_form.as_str(),
            Some(datatype.clone()),
            None,
        ),
        Literal::IntegerLiteral(_) => TermValue::literal(l.lexical_form().as_str(), None, None),
        Literal::BooleanLiteral(_) => TermValue::literal(
            l.lexical_form().as_str(),
            Some(vocab::xsd_boolean()),
            None,
        ),
    }
}

/// The plain form of a value: an IRI reference as a named node.
pub open spec fn value_term_value(v: Value) -> TermValueV {
    match v {
        Value::Iri(i) => named_value(show_iri_ref(i@)),
        Value::Literal(l) => literal_term(l@),
    }
}

/// The plain form of a value.
pub fn value_to_term(v: &Value) -> (r: TermValue)
    ensures
        r@ == value_term_value(*v),
{
    match v {
        Value::Iri(i) => TermValue::named(iriref_str(i).as_str()),
        Value::Literal(l) => concrete_to_term(l),
    }
}

// ---------------------------------------------------------------------------
// Annotations read from the shapes graph
// ---------------------------------------------------------------------------

/// A literal as a language string (empty language when untagged); other terms are none.
pub open spec fn lang_string_of(o: ObjectV) -> Option<(Seq<char>, Seq<char>)> {
    match o {
        ObjectV::Literal(l) => Some((literal_lexical(l), match literal_lang(l) {
            Some(t) => t,
            None => Seq::empty(),
        })),
        _ => None,
    }
}

/// A literal as a language string.
pub fn lang_string(o: &Object) -> (r: Option<LangString>)
    ensures
        match lang_string_of(o@) {
            Some(p) => r matches Some(ls) && ls.value@ == p.0 && ls.language@ == p.1,
            None => r is None,
        },
{
    match o {
        Object::Literal(l) => {
            let language = match l.lang() {
                Some(t) => t,
                None => String::new(),
            };
            Some(LangString { value: l.lexical_form(), language })
        },
        _ => None,
    }
}

/// A literal's lexical form; other terms are none.
pub open spec fn literal_text(o: ObjectV) -> Option<Seq<char>> {
    match o {
        ObjectV::Literal(l) => Some(literal_lexical(l)),
        _ => None,
    }
}

/// A literal's lexical form.
pub fn literal_value(o: &Object) -> (r: Option<String>)
    ensures
        opt_view(r) == literal_text(o@),
{
    match o {
        Object::Literal(l) => Some(l.lexical_form()),
        _ => None,
    }
}

/// An IRI's text; other terms are none.
pub fn iri_value(o: &Object) -> (r: Option<String>)
    ensures
        opt_view(r) == iri_of(o@),
{
    object_iri(o)
}

/// The first `sh:defaultValue` of a shape node, as a plain value.
pub open spec fn default_of(g: Seq<TripleV>, node: ObjectV) -> Option<TermValueV> {
    let vs = values_of(g, node, vocab::sh_default_value_iri());
    if vs.len() > 0 {
        Some(object_value(vs[0]))
    } else {
        None
    }
}

/// The first `sh:defaultValue` of a shape node.
pub fn default_value(graph: &Graph, node: &Object) -> (r: Option<TermValue>)
    ensures
        match default_of(graph@, node@) {
            Some(v) => r matches Some(t) && t@ == v,
            None => r is None,
        },
{
    let vs = values_for(graph, node, &vocab::sh_default_value());
    if vs.len() > 0 {
        assert(object_views(vs@)[0] == vs@[0]@);
        Some(object_to_value(&vs[0]))
    } else {
        None
    }
}

/// The last value of `(node, p, ?)`, if any.
pub open spec fn last_value(g: Seq<TripleV>, node: ObjectV, p: Seq<char>) -> Option<ObjectV> {
    let vs = values_of(g, node, p);
    if vs.len() > 0 {
        Some(vs.last())
    } else {
        None
    }
}

/// The language strings among the values of `(node, p, ?)`, in graph order.
pub open spec fn lang_strings(g: Seq<TripleV>, node: ObjectV, p: Seq<char>) -> Seq<(Seq<char>, Seq<char>)> {
    values_of(g, node, p).filter(|o: ObjectV| lang_string_of(o) is Some).map_values(
        |o: ObjectV| lang_string_of(o)->0,
    )
}

/// The views of language strings.
pub open spec fn lang_views(v: Seq<LangString>) -> Seq<(Seq<char>, Seq<char>)> {
    v.map_values(|ls: LangString| (ls.value@, ls.language@))
}

/// The language strings among a list of terms, in order.
fn lang_strings_of(vs: &Vec<Object>) -> (r: Vec<LangString>)
    ensures
        lang_views(r@) == object_views(vs@).filter(|o: ObjectV| lang_string_of(o) is Some).map_values(
            |o: ObjectV| lang_string_of(o)->0,
        ),
{
    let ghost ov = object_views(vs@);
    let ghost keep = |o: ObjectV| lang_string_of(o) is Some;
    let ghost proj = |o: ObjectV| lang_string_of(o)->0;
    let mut r: Vec<LangString> = Vec::new();
    let mut i: usize = 0;
    assert(ov.take(0).filter(keep) =~= Seq::<ObjectV>::empty()) by {
        reveal(Seq::filter);
    }
    assert(lang_views(r@) =~= Seq::<(Seq<char>, Seq<char>)>::empty());
    while i < vs.len()
        invariant
            i <= vs.len(),
            ov == object_views(vs@),
            keep == (|o: ObjectV| lang_string_of(o) is Some),
            proj == (|o: ObjectV| lang_string_of(o)->0),
            lang_views(r@) == ov.take(i as int).filter(keep).map_values(proj),
        decreases vs.len() - i,
    {
        proof {
            crate::graph::lemma_filter_take_step(ov, keep, i as int);
            assert(ov[i as int] == vs@[i as int]@);
        }
        match lang_string(&vs[i]) {
            Some(ls) => {
                let ghost before = r@;
                r.push(ls);
                assert(lang_views(r@) =~= lang_views(before).push((ls.value@, ls.language@)));
                assert(ov.take(i as int).filter(keep).push(ov[i as int]).map_values(proj) =~= ov.take(
                    i as int,
                ).filter(keep).map_values(proj).push(proj(ov[i as int])));
            },
            None => {},
        }
        i = i + 1;
    }
    assert(ov.take(vs.len() as int) =~= ov);
    r
}

/// The last value of `(node, p, ?)`.
fn last_value_for(graph: &Graph, node: &Object, p: String) -> (r: Option<Object>)
    ensures
        match last_value(graph@, node@, p@) {
            Some(v) => r matches Some(x) && x@ == v,
            None => r is None,
        },
{
    let vs = values_for(graph, node, &p);
    if vs.len() > 0 {
        let n = vs.len() - 1;
        assert(object_views(vs@)[n as int] == vs@[n as int]@);
        Some(vs[n].clone())
    } else {
        None
    }
}

/// The form annotations of a shape node: `sh:name` and `sh:description`
/// language strings, and the last `sh:order` (a literal's lexical form),
/// `sh:group`, `shui:editor` and `shui:viewer` (IRIs).
pub open spec fn hints_of(g: Seq<TripleV>, node: ObjectV, p: PresentationHints) -> bool {
    &&& hints_but_editor(g, node, p)
    &&& opt_view(p.editor) == explicit_editor(g, node)
}

/// The editor that `shui:editor` names for a shape node (its last value, when an IRI).
pub open spec fn explicit_editor(g: Seq<TripleV>, node: ObjectV) -> Option<Seq<char>> {
    match last_value(g, node, vocab::shui_editor_iri()) {
        Some(o) => iri_of(o),
        None => None,
    }
}

/// The form annotations of a shape node other than its editor.
pub open spec fn hints_but_editor(g: Seq<TripleV>, node: ObjectV, p: PresentationHints) -> bool {
    &&& lang_views(p.names@) == lang_strings(g, node, vocab::sh_name_iri())
    &&& lang_views(p.descriptions@) == lang_strings(g, node, vocab::sh_description_iri())
    &&& opt_view(p.order) == match last_value(g, node, vocab::sh_order_iri()) {
        Some(o) => literal_text(o),
        None => None,
    }
    &&& opt_view(p.group_id) == match last_value(g, node, vocab::sh_group_iri()) {
        Some(o) => iri_of(o),
        None => None,
    }
    &&& opt_view(p.viewer) == match last_value(g, node, vocab::shui_viewer_iri()) {
        Some(o) => iri_of(o),
        None => None,
    }
    &&& p.single_line is None
}

/// The form annotations of a shape node.
pub fn presentation(graph: &Graph, node: &Object) -> (r: PresentationHints)
    ensures
        hints_of(graph@, node@, r),
{
    let names = lang_strings_of(&values_for(graph, node, &vocab::sh_name()));
    let descriptions = lang_strings_of(&values_for(graph, node, &vocab::sh_description()));
    let order = match last_value_for(graph, node, vocab::sh_order()) {
        Some(o) => literal_value(&o),
        None => None,
    };
    let group_id = match last_value_for(graph, node, vocab::sh_group()) {
        Some(o) => iri_value(&o),
        None => None,
    };
    let editor = match last_value_for(graph, node, vocab::shui_editor()) {
        Some(o) => iri_value(&o),
        None => None,
    };
    let viewer = match last_value_for(graph, node, vocab::shui_viewer()) {
        Some(o) => iri_value(&o),
        None => None,
    };
    PresentationHints { names, descriptions, order, group_id, editor, viewer, single_line: None }
}

/// The id of a property group: its IRI, or `_:label`.
pub open spec fn group_id_of(s: crate::term::SubjectV) -> Seq<char> {
    match s {
        crate::term::SubjectV::Iri(i) => i,
        crate::term::SubjectV::BlankNode(b) => "_:"@ + b,
    }
}

/// What the group record for subject `s` holds: its id, its `rdfs:label`
/// language strings and its last `sh:order` (a literal's lexical form).
pub open spec fn group_of(g: Seq<TripleV>, s: crate::term::SubjectV, r: PropertyGroupIR) -> bool {
    let node = crate::term::subject_as_object(s);
    &&& r.id@ == group_id_of(s)
    &&& lang_views(r.labels@) == lang_strings(g, node, vocab::rdfs_label_iri())
    &&& opt_view(r.order) == match last_value(g, node, vocab::sh_order_iri()) {
        Some(o) => literal_text(o),
        None => None,
    }
}

/// The property groups of the shapes graph: every subject typed
/// `sh:PropertyGroup`, in graph order.
pub fn read_groups(graph: &Graph) -> (r: Vec<PropertyGroupIR>)
    ensures
        r@.len() == subjects_of(graph@, vocab::rdf_type_iri(), ObjectV::Iri(vocab::sh_property_group_iri())).len(),
        forall|i: int|
            0 <= i < r@.len() ==> group_of(
                graph@,
                subjects_of(graph@, vocab::rdf_type_iri(), ObjectV::Iri(vocab::sh_property_group_iri()))[i],
                #[trigger] r@[i],
            ),
{
    let subjects = graph.subjects_for(&vocab::rdf_type(), &Object::Iri(vocab::sh_property_group()));
    let ghost ss = subjects_of(graph@, vocab::rdf_type_iri(), ObjectV::Iri(vocab::sh_property_group_iri()));
    let mut groups: Vec<PropertyGroupIR> = Vec::new();
    let mut i: usize = 0;
    while i < subjects.len()
        invariant
            i <= subjects.len(),
            subjects@.map_values(|x: crate::term::IriOrBlankNode| x@) == ss,
            groups@.len() == i,
            forall|j: int| 0 <= j < i ==> group_of(graph@, ss[j], #[trigger] groups@[j]),
        decreases subjects.len() - i,
    {
        let s = &subjects[i];
        assert(ss[i as int] == s@);
        let id = match s {
            crate::term::IriOrBlankNode::Iri(n) => n.clone(),
            crate::term::IriOrBlankNode::BlankNode(b) => concat2("_:", b.as_str()),
        };
        let node = s.to_object();
        let labels = lang_strings_of(&values_for(graph, &node, &vocab::rdfs_label()));
        let order = match last_value_for(graph, &node, vocab::sh_order()) {
            Some(o) => literal_value(&o),
            None => None,
        };
        groups.push(PropertyGroupIR { id, labels, order });
        i = i + 1;
    }
    groups
}

// ---------------------------------------------------------------------------
// The open component bag
// ---------------------------------------------------------------------------

/// The predicates of the triples about `node`, in graph order.
pub open spec fn predicates_of(g: Seq<TripleV>, node: ObjectV) -> Seq<Seq<char>> {
    g.filter(|t: TripleV| object_as_subject(node) == Some(t.subject)).map_values(|t: TripleV| t.predicate)
}

/// The items of `s`, each at its first occurrence.
pub open spec fn first_occurrences(s: Seq<Seq<char>>) -> Seq<Seq<char>>
    decreases s.len(),
{
    if s.len() == 0 {
        Seq::empty()
    } else if first_occurrences(s.drop_last()).contains(s.last()) {
        first_occurrences(s.drop_last())
    } else {
        first_occurrences(s.drop_last()).push(s.last())
    }
}

/// The views of a list of plain values.
pub open spec fn term_views(v: Seq<TermValue>) -> Seq<TermValueV> {
    v.map_values(|t: TermValue| t@)
}

/// The plain forms of a list of terms, in order.
fn values_of_terms(vs: &Vec<Object>) -> (r: Vec<TermValue>)
    ensures
        term_views(r@) == object_views(vs@).map_values(|o: ObjectV| object_value(o)),
{
    let mut r: Vec<TermValue> = Vec::new();
    let mut i: usize = 0;
    while i < vs.len()
        invariant
            i <= vs.len(),
            term_views(r@) == object_views(vs@).take(i as int).map_values(|o: ObjectV| object_value(o)),
        decreases vs.len() - i,
    {
        let t = object_to_value(&vs[i]);
        let ghost before = r@;
        r.push(t);
        assert(term_views(r@) =~= term_views(before).push(t@));
        assert(object_views(vs@).take(i as int + 1) =~= object_views(vs@).take(i as int).push(vs@[i as int]@));
        assert(object_views(vs@).take(i as int + 1).map_values(|o: ObjectV| object_value(o)) =~= object_views(
            vs@,
        ).take(i as int).map_values(|o: ObjectV| object_value(o)).push(object_value(vs@[i as int]@)));
        i = i + 1;
    }
    assert(object_views(vs@).take(vs.len() as int) =~= object_views(vs@));
    r
}

/// What the component record for predicate `iri` on `node` holds: that
/// predicate, and under `value` every object of it, in graph order.
pub open spec fn component_of(g: Seq<TripleV>, node: ObjectV, iri: Seq<char>, c: ComponentIR) -> bool {
    &&& c.iri@ == iri
    &&& c.params@.len() == 1
    &&& c.params@[0].0@ == "value"@
    &&& term_views(c.params@[0].1@) == values_of(g, node, iri).map_values(|o: ObjectV| object_value(o))
}

/// Every (predicate, objects) of a shape node, grouped by predicate in the
/// order the predicates first occur.
pub fn read_components(graph: &Graph, node: &Object) -> (r: Vec<ComponentIR>)
    ensures
        r@.len() == first_occurrences(predicates_of(graph@, node@)).len(),
        forall|i: int|
            0 <= i < r@.len() ==> component_of(
                graph@,
                node@,
                first_occurrences(predicates_of(graph@, node@))[i],
                #[trigger] r@[i],
            ),
{
    let ghost sel = |t: TripleV| object_as_subject(node@) == Some(t.subject);
    let ghost proj = |t: TripleV| t.predicate;
    let mut preds: Vec<String> = Vec::new();
    match node.as_subject() {
        Some(subj) => {
            let triples = graph.triples_matching(&Some(subj), &None, &None);
            let ghost ts = crate::graph::triple_views(triples@);
            proof {
                assert(ts.map_values(proj) =~= predicates_of(graph@, node@)) by {
                    assert(ts =~= graph@.filter(sel)) by {
                        assert(graph@.filter(
                            |t: TripleV| crate::graph::matches_pattern(
                                crate::graph::opt_subject(Some(subj)),
                                crate::graph::opt_predicate(None),
                                crate::graph::opt_object(None),
                                t,
                            ),
                        ) == ts);
                        assert((|t: TripleV| crate::graph::matches_pattern(
                            crate::graph::opt_subject(Some(subj)),
                            crate::graph::opt_predicate(None),
                            crate::graph::opt_object(None),
                            t,
                        )) =~= sel);
                    }
                }
            }
            let mut i: usize = 0;
            assert(ts.map_values(proj).take(0) =~= Seq::<Seq<char>>::empty());
            assert(views(preds@) =~= Seq::<Seq<char>>::empty());
            while i < triples.len()
                invariant
                    i <= triples.len(),
                    ts == crate::graph::triple_views(triples@),
                    proj == (|t: TripleV| t.predicate),
                    views(preds@) == first_occurrences(ts.map_values(proj).take(i as int)),
                decreases triples.len() - i,
            {
                let p = &triples[i].predicate;
                assert(ts.map_values(proj)[i as int] == p@);
                let mut found = false;
                let mut j: usize = 0;
                while j < preds.len()
                    invariant
                        j <= preds.len(),
                        found == exists|k: int| 0 <= k < j && preds@[k]@ == p@,
                    decreases preds.len() - j,
                {
                    if preds[j].eq(p) {
                        found = true;
                    }
                    j = j + 1;
                }
                proof {
                    assert(ts.map_values(proj).take(i as int + 1).drop_last() =~= ts.map_values(proj).take(i as int));
                    assert(found == views(preds@).contains(p@)) by {
                        if found {
                            let k = choose|k: int| 0 <= k < preds@.len() && preds@[k]@ == p@;
                            assert(views(preds@)[k] == p@);
                        }
                        if views(preds@).contains(p@) {
                            let k = choose|k: int| 0 <= k < views(preds@).len() && views(preds@)[k] == p@;
                            assert(preds@[k]@ == p@);
                        }
                    }
                }
                if !found {
                    let ghost before = preds@;
                    preds.push(p.clone());
                    assert(views(preds@) =~= views(before).push(p@));
                }
                i = i + 1;
            }
            assert(ts.map_values(proj).take(triples.len() as int) =~= ts.map_values(proj));
        },
        None => {
            assert(predicates_of(graph@, node@) =~= Seq::<Seq<char>>::empty()) by {
                reveal(Seq::filter);
                assert(graph@.filter(sel) =~= Seq::<TripleV>::empty()) by {
                    assert forall|k: int| 0 <= k < graph@.len() implies !sel(graph@[k]) by {}
                    lemma_filter_none(graph@, sel);
                }
            }
            assert(views(preds@) =~= Seq::<Seq<char>>::empty());
        },
    }
    let mut r: Vec<ComponentIR> = Vec::new();
    let mut i: usize = 0;
    while i < preds.len()
        invariant
            i <= preds.len(),
            views(preds@) == first_occurrences(predicates_of(graph@, node@)),
            r@.len() == i,
            forall|j: int| 0 <= j < i ==> component_of(graph@, node@, views(preds@)[j], #[trigger] r@[j]),
        decreases preds.len() - i,
    {
        let values = values_of_terms(&values_for(graph, node, &preds[i]));
        let mut params: Vec<(String, Vec<TermValue>)> = Vec::new();
        params.push((owned("value"), values));
        assert(views(preds@)[i as int] == preds@[i as int]@);
        r.push(ComponentIR { iri: preds[i].clone(), params });
        i = i + 1;
    }
    r
}

/// A filter that keeps nothing is empty.
proof fn lemma_filter_none<A>(s: Seq<A>, f: spec_fn(A) -> bool)
    requires
        forall|k: int| 0 <= k < s.len() ==> !f(s[k]),
    ensures
        s.filter(f) =~= Seq::<A>::empty(),
    decreases s.len(),
{
    reveal(Seq::filter);
    if s.len() > 0 {
        lemma_filter_none(s.drop_last(), f);
    }
}

// ---------------------------------------------------------------------------
// Property and node shapes
// ---------------------------------------------------------------------------

/// What the last component that `pick` selects yields, if any.
pub open spec fn last_comp<T>(cs: Seq<ASTComponent>, pick: spec_fn(ASTComponent) -> Option<T>) -> Option<T>
    decreases cs.len(),
{
    if cs.len() == 0 {
        None
    } else {
        match pick(cs.last()) {
            Some(x) => Some(x),
            None => last_comp(cs.drop_last(), pick),
        }
    }
}

/// `sh:datatype`, as text.
pub open spec fn pick_datatype(c: ASTComponent) -> Option<Seq<char>> {
    match c {
        ASTComponent::Datatype(i) => Some(show_iri_ref(i@)),
        _ => None,
    }
}

/// `sh:class`: its IRI, none when the class is not an IRI.
pub open spec fn pick_class(c: ASTComponent) -> Option<Option<Seq<char>>> {
    match c {
        ASTComponent::Class(o) => Some(iri_of(o@)),
        _ => None,
    }
}

/// `sh:nodeKind`, as its SHACL IRI.
pub open spec fn pick_node_kind(c: ASTComponent) -> Option<Seq<char>> {
    match c {
        ASTComponent::NodeKind(nk) => Some(node_kind_iri(nk)),
        _ => None,
    }
}

/// `sh:minCount`.
pub open spec fn pick_min_count(c: ASTComponent) -> Option<int> {
    match c {
        ASTComponent::MinCount(n) => Some(n as int),
        _ => None,
    }
}

/// `sh:maxCount`.
pub open spec fn pick_max_count(c: ASTComponent) -> Option<int> {
    match c {
        ASTComponent::MaxCount(n) => Some(n as int),
        _ => None,
    }
}

/// `sh:minLength`.
pub open spec fn pick_min_length(c: ASTComponent) -> Option<int> {
    match c {
        ASTComponent::MinLength(n) => Some(n as int),
        _ => None,
    }
}

/// `sh:maxLength`.
pub open spec fn pick_max_length(c: ASTComponent) -> Option<int> {
    match c {
        ASTComponent::MaxLength(n) => Some(n as int),
        _ => None,
    }
}

/// `sh:minInclusive`, by its lexical form.
pub open spec fn pick_min_inclusive(c: ASTComponent) -> Option<Seq<char>> {
    match c {
        ASTComponent::MinInclusive(l) => Some(literal_lexical(l@)),
        _ => None,
    }
}

/// `sh:maxInclusive`, by its lexical form.
pub open spec fn pick_max_inclusive(c: ASTComponent) -> Option<Seq<char>> {
    match c {
        ASTComponent::MaxInclusive(l) => Some(literal_lexical(l@)),
        _ => None,
    }
}

/// `sh:minExclusive`, by its lexical form.
pub open spec fn pick_min_exclusive(c: ASTComponent) -> Option<Seq<char>> {
    match c {
        ASTComponent::MinExclusive(l) => Some(literal_lexical(l@)),
        _ => None,
    }
}

/// `sh:maxExclusive`, by its lexical form.
pub open spec fn pick_max_exclusive(c: ASTComponent) -> Option<Seq<char>> {
    match c {
        ASTComponent::MaxExclusive(l) => Some(literal_lexical(l@)),
        _ => None,
    }
}

/// `sh:pattern` with its flags.
pub open spec fn pick_pattern(c: ASTComponent) -> Option<(Seq<char>, Option<Seq<char>>)> {
    match c {
        ASTComponent::Pattern { pattern, flags } => Some((pattern@, opt_view(flags))),
        _ => None,
    }
}

/// `sh:uniqueLang`.
pub open spec fn pick_unique_lang(c: ASTComponent) -> Option<bool> {
    match c {
        ASTComponent::UniqueLang(b) => Some(b),
        _ => None,
    }
}

/// `sh:languageIn`.
pub open spec fn pick_language_in(c: ASTComponent) -> Option<Seq<Seq<char>>> {
    match c {
        ASTComponent::LanguageIn(langs) => Some(views(langs@)),
        _ => None,
    }
}

/// `sh:in`, as plain values.
pub open spec fn pick_in(c: ASTComponent) -> Option<Seq<TermValueV>> {
    match c {
        ASTComponent::In(vs) => Some(vs@.map_values(|v: Value| value_term_value(v))),
        _ => None,
    }
}

/// `sh:hasValue`, as a plain value.
pub open spec fn pick_has_value(c: ASTComponent) -> Option<TermValueV> {
    match c {
        ASTComponent::HasValue(v) => Some(value_term_value(v)),
        _ => None,
    }
}

/// `sh:node`: its IRI, none when the shape is not an IRI.
pub open spec fn pick_node(c: ASTComponent) -> Option<Option<Seq<char>>> {
    match c {
        ASTComponent::Node(o) => Some(iri_of(o@)),
        _ => None,
    }
}

/// An optional optional as one option.
pub open spec fn flat<T>(o: Option<Option<T>>) -> Option<T> {
    match o {
        Some(x) => x,
        None => None,
    }
}

/// An optional integer as an optional `int`.
pub open spec fn opt_int(o: Option<i64>) -> Option<int> {
    match o {
        Some(n) => Some(n as int),
        None => None,
    }
}

/// The value constraints that components `cs` state, each from the last
/// component of its kind.
pub open spec fn constraints_of(cs: Seq<ASTComponent>, v: ValueConstraints) -> bool {
    &&& opt_view(v.datatype) == last_comp(cs, |c: ASTComponent| pick_datatype(c))
    &&& opt_view(v.class_iri) == flat(last_comp(cs, |c: ASTComponent| pick_class(c)))
    &&& opt_view(v.node_kind) == last_comp(cs, |c: ASTComponent| pick_node_kind(c))
    &&& opt_int(v.min_length) == last_comp(cs, |c: ASTComponent| pick_min_length(c))
    &&& opt_int(v.max_length) == last_comp(cs, |c: ASTComponent| pick_max_length(c))
    &&& opt_view(v.min_inclusive) == last_comp(cs, |c: ASTComponent| pick_min_inclusive(c))
    &&& opt_view(v.max_inclusive) == last_comp(cs, |c: ASTComponent| pick_max_inclusive(c))
    &&& opt_view(v.min_exclusive) == last_comp(cs, |c: ASTComponent| pick_min_exclusive(c))
    &&& opt_view(v.max_exclusive) == last_comp(cs, |c: ASTComponent| pick_max_exclusive(c))
    &&& match last_comp(cs, |c: ASTComponent| pick_pattern(c)) {
        Some((pat, fl)) => opt_view(v.pattern) == Some(pat) && opt_view(v.flags) == fl,
        None => v.pattern is None && v.flags is None,
    }
    &&& v.unique_lang == last_comp(cs, |c: ASTComponent| pick_unique_lang(c))
    &&& match last_comp(cs, |c: ASTComponent| pick_language_in(c)) {
        Some(l) => v.language_in matches Some(x) && views(x@) == l,
        None => v.language_in is None,
    }
    &&& match last_comp(cs, |c: ASTComponent| pick_in(c)) {
        Some(l) => v.in_values matches Some(x) && term_views(x@) == l,
        None => v.in_values is None,
    }
    &&& match last_comp(cs, |c: ASTComponent| pick_has_value(c)) {
        Some(t) => v.has_value matches Some(x) && x@ == t,
        None => v.has_value is None,
    }
}

/// The plain values of a list of values.
fn values_to_terms(vs: &Vec<Value>) -> (r: Vec<TermValue>)
    ensures
        term_views(r@) == vs@.map_values(|v: Value| value_term_value(v)),
{
    let mut r: Vec<TermValue> = Vec::new();
    let mut i: usize = 0;
    while i < vs.len()
        invariant
            i <= vs.len(),
            term_views(r@) == vs@.take(i as int).map_values(|v: Value| value_term_value(v)),
        decreases vs.len() - i,
    {
        let t = value_to_term(&vs[i]);
        let ghost before = r@;
        r.push(t);
        assert(term_views(r@) =~= term_views(before).push(t@));
        assert(vs@.take(i as int + 1) =~= vs@.take(i as int).push(vs@[i as int]));
        assert(vs@.take(i as int + 1).map_values(|v: Value| value_term_value(v)) =~= vs@.take(i as int).map_values(
            |v: Value| value_term_value(v),
        ).push(value_term_value(vs@[i as int])));
        i = i + 1;
    }
    assert(vs@.take(vs.len() as int) =~= vs@);
    r
}

/// The value constraints, cardinality and node shape reference that a
/// property's components state, each from the last component of its kind.
pub fn collect_constraints(cs: &Vec<ASTComponent>) -> (r: (ValueConstraints, Cardinality, Option<String>))
    ensures
        constraints_of(cs@, r.0),
        r.0.default_value is None,
        opt_int(r.1.min) == last_comp(cs@, |c: ASTComponent| pick_min_count(c)),
        opt_int(r.1.max) == last_comp(cs@, |c: ASTComponent| pick_max_count(c)),
        opt_view(r.2) == flat(last_comp(cs@, |c: ASTComponent| pick_node(c))),
{
    let mut value = ValueConstraints::new();
    let mut card = Cardinality { min: None, max: None };
    let mut node: Option<String> = None;
    let mut i: usize = 0;
    assert(cs@.take(0) =~= Seq::<ASTComponent>::empty());
    while i < cs.len()
        invariant
            i <= cs.len(),
            constraints_of(cs@.take(i as int), value),
            value.default_value is None,
            opt_int(card.min) == last_comp(cs@.take(i as int), |c: ASTComponent| pick_min_count(c)),
            opt_int(card.max) == last_comp(cs@.take(i as int), |c: ASTComponent| pick_max_count(c)),
            opt_view(node) == flat(last_comp(cs@.take(i as int), |c: ASTComponent| pick_node(c))),
        decreases cs.len() - i,
    {
        let ghost pre = cs@.take(i as int);
        proof {
            assert(cs@.take(i as int + 1).drop_last() =~= pre);
            assert(cs@.take(i as int + 1).last() == cs@[i as int]);
        }
        match &cs[i] {
            ASTComponent::Datatype(iri) => {
                value.datatype = Some(iriref_str(iri));
            },
            ASTComponent::Class(o) => {
                value.class_iri = object_iri(o);
            },
            ASTComponent::NodeKind(nk) => {
                value.node_kind = Some(nodekind_iri(nk));
            },
            ASTComponent::MinCount(n) => {
                card.min = Some(*n as i64);
            },
            ASTComponent::MaxCount(n) => {
                card.max = Some(*n as i64);
            },
            ASTComponent::MinLength(n) => {
                value.min_length = Some(*n as i64);
            },
            ASTComponent::MaxLength(n) => {
                value.max_length = Some(*n as i64);
            },
            ASTComponent::MinInclusive(l) => {
                value.min_inclusive = Some(concrete_lexical(l));
            },
            ASTComponent::MaxInclusive(l) => {
                value.max_inclusive = Some(concrete_lexical(l));
            },
            ASTComponent::MinExclusive(l) => {
                value.min_exclusive = Some(concrete_lexical(l));
            },
            ASTComponent::MaxExclusive(l) => {
                value.max_exclusive = Some(concrete_lexical(l));
            },
            ASTComponent::Pattern { pattern, flags } => {
                value.pattern = Some(pattern.clone());
                value.flags = crate::term::clone_opt_string(flags);
            },
            ASTComponent::UniqueLang(b) => {
                value.unique_lang = Some(*b);
            },
            ASTComponent::LanguageIn(langs) => {
                value.language_in = Some(crate::text::clone_strings(langs));
            },
            ASTComponent::In(vals) => {
                value.in_values = Some(values_to_terms(vals));
            },
            ASTComponent::HasValue(v) => {
                value.has_value = Some(value_to_term(v));
            },
            ASTComponent::Node(o) => {
                node = object_iri(o);
            },
            _ => {},
        }
        i = i + 1;
    }
    assert(cs@.take(cs.len() as int) =~= cs@);
    (value, card, node)
}
} // verus!

verus! {

/// The editor of a date or date-time property: with no `sh:node` reference
/// and no non-empty `sh:in`, a property whose datatype is `xsd:dateTime` is
/// edited with the date-time picker and one whose datatype is `xsd:date` with
/// the date picker; the two pickers are different editors.
pub proof fn law_date_and_date_time_editors(v: ValueConstraints, node: Option<String>, logical: LogicalConstraints)
    requires
        node is None,
        !(v.in_values matches Some(l) && l.len() > 0),
        v.datatype is Some,
    ensures
        v.datatype->0@ == "http://www.w3.org/2001/XMLSchema#dateTime"@ ==> facts_editor(v, node) == Some(
            "http://www.w3.org/ns/shacl-ui#DateTimePickerEditor"@,
        ) && default_editor(v, node, logical) == "http://www.w3.org/ns/shacl-ui#DateTimePickerEditor"@,
        v.datatype->0@ == "http://www.w3.org/2001/XMLSchema#date"@ ==> facts_editor(v, node) == Some(
            "http://www.w3.org/ns/shacl-ui#DatePickerEditor"@,
        ) && default_editor(v, node, logical) == "http://www.w3.org/ns/shacl-ui#DatePickerEditor"@,
        "http://www.w3.org/ns/shacl-ui#DateTimePickerEditor"@ != "http://www.w3.org/ns/shacl-ui#DatePickerEditor"@,
{
    reveal_strlit("http://www.w3.org/2001/XMLSchema#dateTime");
    reveal_strlit("http://www.w3.org/2001/XMLSchema#date");
    reveal_strlit("http://www.w3.org/2001/XMLSchema#");
    reveal_strlit("http://www.w3.org/1999/02/22-rdf-syntax-ns#HTML");
    reveal_strlit("http://www.w3.org/1999/02/22-rdf-syntax-ns#langString");
    reveal_strlit("dateTime");
    reveal_strlit("date");
    reveal_strlit("boolean");
    reveal_strlit("http://www.w3.org/ns/shacl-ui#DateTimePickerEditor");
    reveal_strlit("http://www.w3.org/ns/shacl-ui#DatePickerEditor");
    let dt = v.datatype->0@;
    if dt == "http://www.w3.org/2001/XMLSchema#dateTime"@ {
        assert(has_prefix(dt, xsd_ns())) by {
            assert(dt.subrange(0, xsd_ns().len() as int) =~= xsd_ns());
        }
        assert(dt.skip(xsd_ns().len() as int) =~= "dateTime"@);
    }
    if dt == "http://www.w3.org/2001/XMLSchema#date"@ {
        assert(has_prefix(dt, xsd_ns())) by {
            assert(dt.subrange(0, xsd_ns().len() as int) =~= xsd_ns());
        }
        assert(dt.skip(xsd_ns().len() as int) =~= "date"@);
    }
    assert("http://www.w3.org/ns/shacl-ui#DateTimePickerEditor"@.len() != "http://www.w3.org/ns/shacl-ui#DatePickerEditor"@.len());
}


/// The order in which a property's own facts choose its editor: a
/// `sh:node` reference calls for the details editor whatever else holds; a
/// non-empty `sh:in` for the enum select; then an `xsd:boolean` datatype for
/// the boolean select, `xsd:integer` for the number field, `rdf:HTML` for the
/// rich text editor and `rdf:langString` for the language-tagged text field.
pub proof fn law_editor_precedence(v: ValueConstraints, node: Option<String>)
    ensures
        node is Some ==> facts_editor(v, node) == Some("http://www.w3.org/ns/shacl-ui#DetailsEditor"@),
        node is None && (v.in_values matches Some(l) && l.len() > 0) ==> facts_editor(v, node) == Some(
            "http://www.w3.org/ns/shacl-ui#EnumSelectEditor"@,
        ),
        node is None && !(v.in_values matches Some(l) && l.len() > 0) && v.datatype is Some ==> {
            let dt = v.datatype->0@;
            &&& dt == "http://www.w3.org/2001/XMLSchema#boolean"@ ==> facts_editor(v, node) == Some(
                "http://www.w3.org/ns/shacl-ui#BooleanSelectEditor"@,
            )
            &&& dt == "http://www.w3.org/2001/XMLSchema#integer"@ ==> facts_editor(v, node) == Some(
                "http://www.w3.org/ns/shacl-ui#NumberFieldEditor"@,
            )
            &&& dt == "http://www.w3.org/1999/02/22-rdf-syntax-ns#HTML"@ ==> facts_editor(v, node) == Some(
                "http://www.w3.org/ns/shacl-ui#RichTextEditor"@,
            )
            &&& dt == "http://www.w3.org/1999/02/22-rdf-syntax-ns#langString"@ ==> facts_editor(v, node) == Some(
                "http://www.w3.org/ns/shacl-ui#TextFieldWithLangEditor"@,
            )
        },
{
    reveal_strlit("http://www.w3.org/2001/XMLSchema#boolean");
    reveal_strlit("http://www.w3.org/2001/XMLSchema#integer");
    reveal_strlit("http://www.w3.org/2001/XMLSchema#");
    reveal_strlit("http://www.w3.org/1999/02/22-rdf-syntax-ns#HTML");
    reveal_strlit("http://www.w3.org/1999/02/22-rdf-syntax-ns#langString");
    reveal_strlit("boolean");
    reveal_strlit("integer");
    reveal_strlit("date");
    reveal_strlit("dateTime");
    if v.datatype is Some {
        let dt = v.datatype->0@;
        if dt == "http://www.w3.org/2001/XMLSchema#boolean"@ {
            assert(dt.subrange(0, xsd_ns().len() as int) =~= xsd_ns());
            assert(dt.skip(xsd_ns().len() as int) =~= "boolean"@);
            assert(dt.len() != vocab::rdf_html_iri().len());
            assert(dt.len() != vocab::rdf_lang_string_iri().len());
            assert(datatype_editor(dt) == Some(vocab::shui_boolean_select_editor_iri()));
        }
        if dt == "http://www.w3.org/2001/XMLSchema#integer"@ {
            assert(dt.subrange(0, xsd_ns().len() as int) =~= xsd_ns());
            assert(dt.skip(xsd_ns().len() as int) =~= "integer"@);
            assert(dt.len() != vocab::rdf_html_iri().len());
            assert(dt.len() != vocab::rdf_lang_string_iri().len());
            assert("integer"@ != "boolean"@) by { assert("integer"@[0] != "boolean"@[0]); }
            assert("integer"@.len() != "date"@.len());
            assert("integer"@.len() != "dateTime"@.len());
            assert(numeric_local("integer"@));
            assert(datatype_editor(dt) == Some(vocab::shui_number_field_editor_iri()));
        }
        if dt == "http://www.w3.org/1999/02/22-rdf-syntax-ns#langString"@ {
            assert(dt != "http://www.w3.org/1999/02/22-rdf-syntax-ns#HTML"@) by {
                assert(dt.len() != "http://www.w3.org/1999/02/22-rdf-syntax-ns#HTML"@.len());
            }
        }
    }
}

} // verus!
