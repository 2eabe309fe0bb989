//! The SHACL shapes model as read from a shapes graph: constraint components,
//! node and property shapes, and the schema that holds them by id.
use vstd::prelude::*;
use crate::message_map::{MessageMap, show_message_map};
use crate::path::SHACLPath;
use crate::term::{Literal, Object, ObjectV, show_literal, show_object};
use crate::text::{concat2, concat3, decimal, isize_decimal, join, push_str, seq_join, views};
use crate::types::{IriRef, NodeKind, Presentation, Target, Value, show_iri_ref, show_node_kind, show_value};
use crate::vocab;

verus! {

/// A SHACL constraint component with its parameters.
pub enum ASTComponent {
    Class(Object),
    Datatype(IriRef),
    NodeKind(NodeKind),
    MinCount(isize),
    MaxCount(isize),
    MinExclusive(Literal),
    MaxExclusive(Literal),
    MinInclusive(Literal),
    MaxInclusive(Literal),
    MinLength(isize),
    MaxLength(isize),
    Pattern { pattern: String, flags: Option<String> },
    UniqueLang(bool),
    LanguageIn(Vec<String>),
    Equals(IriRef),
    Disjoint(IriRef),
    LessThan(IriRef),
    LessThanOrEquals(IriRef),
    Or(Vec<Object>),
    And(Vec<Object>),
    Not(Object),
    Xone(Vec<Object>),
    Closed { is_closed: bool, ignored_properties: Vec<String> },
    Node(Object),
    HasValue(Value),
    In(Vec<Value>),
    QualifiedValueShape {
        shape: Object,
        q_min_count: Option<isize>,
        q_max_count: Option<isize>,
        disjoint: Option<bool>,
        siblings: Vec<Object>,
    },
    Deactivated(bool),
    BasicSparql {
        select: String,
        message: Option<MessageMap>,
        deactivated: Option<bool>,
        prefixes: Option<Vec<(String, String)>>,
    },
}

// ---------------------------------------------------------------------------
// Display
// ---------------------------------------------------------------------------

/// `true` / `false`.
pub open spec fn show_bool(b: bool) -> Seq<char> {
    if b {
        "true"@
    } else {
        "false"@
    }
}

/// Debug form of an optional integer: `Some(n)` or `None`.
pub open spec fn show_opt_int(o: Option<isize>) -> Seq<char> {
    match o {
        Some(n) => "Some("@ + decimal(n as int) + ")"@,
        None => "None"@,
    }
}

/// Debug form of an optional flag: `Some(true)`, `Some(false)` or `None`.
pub open spec fn show_opt_bool(o: Option<bool>) -> Seq<char> {
    match o {
        Some(b) => "Some("@ + show_bool(b) + ")"@,
        None => "None"@,
    }
}

/// Terms joined with `, `.
pub open spec fn show_objects(v: Seq<Object>) -> Seq<char> {
    seq_join(v.map_values(|o: Object| show_object(o@)), ", "@)
}

/// Values joined with `, `.
pub open spec fn show_values(v: Seq<Value>) -> Seq<char> {
    seq_join(v.map_values(|x: Value| show_value(x)), ", "@)
}

/// A prefix list as `prefix alias: <namespace>` lines.
pub open spec fn show_prefixes(p: Seq<(String, String)>) -> Seq<char>
    decreases p.len(),
{
    if p.len() == 0 {
        Seq::empty()
    } else {
        show_prefixes(p.drop_last()) + "prefix "@ + p.last().0@ + ": <"@ + p.last().1@ + ">\n"@
    }
}

/// The canonical textual form of a component.
pub open spec fn show_component(c: ASTComponent) -> Seq<char> {
    match c {
        ASTComponent::Class(o) => "class("@ + show_object(o@) + ")"@,
        ASTComponent::Datatype(i) => "datatype("@ + show_iri_ref(i@) + ")"@,
        ASTComponent::NodeKind(nk) => "nodeKind("@ + show_node_kind(nk) + ")"@,
        ASTComponent::MinCount(n) => "minCount("@ + decimal(n as int) + ")"@,
        ASTComponent::MaxCount(n) => "maxCount("@ + decimal(n as int) + ")"@,
        ASTComponent::MinExclusive(l) => "minExclusive("@ + show_literal(l@) + ")"@,
        ASTComponent::MaxExclusive(l) => "maxExclusive("@ + show_literal(l@) + ")"@,
        ASTComponent::MinInclusive(l) => "minInclusive("@ + show_literal(l@) + ")"@,
        ASTComponent::MaxInclusive(l) => "maxInclusive("@ + show_literal(l@) + ")"@,
        ASTComponent::MinLength(n) => "minLength("@ + decimal(n as int) + ")"@,
        ASTComponent::MaxLength(n) => "maxLength("@ + decimal(n as int) + ")"@,
        ASTComponent::Pattern { pattern, flags } => match flags {
            None => "pattern("@ + pattern@ + ")"@,
            Some(f) => "pattern("@ + pattern@ + ", "@ + f@ + ")"@,
        },
        ASTComponent::UniqueLang(b) => "uniqueLang("@ + show_bool(b) + ")"@,
        ASTComponent::LanguageIn(langs) => "languageIn["@ + seq_join(views(langs@), ", "@) + "]"@,
        ASTComponent::Equals(i) => "equals("@ + show_iri_ref(i@) + ")"@,
        ASTComponent::Disjoint(i) => "disjoint("@ + show_iri_ref(i@) + ")"@,
        ASTComponent::LessThan(i) => "lessThan("@ + show_iri_ref(i@) + ")"@,
        ASTComponent::LessThanOrEquals(i) => "lessThanOrEquals("@ + show_iri_ref(i@) + ")"@,
        ASTComponent::Or(v) => "or["@ + show_objects(v@) + "]"@,
        ASTComponent::And(v) => "and["@ + show_objects(v@) + "]"@,
        ASTComponent::Not(o) => "not("@ + show_object(o@) + ")"@,
        ASTComponent::Xone(v) => "xone["@ + show_objects(v@) + "]"@,
        ASTComponent::Closed { is_closed, ignored_properties } => "closed("@ + show_bool(is_closed) + (
        if ignored_properties.len() == 0 {
            Seq::empty()
        } else {
            ", Ignored props: ["@ + seq_join(views(ignored_properties@), ", "@) + "]"@
        }) + ")"@,
        ASTComponent::Node(o) => "node("@ + show_object(o@) + ")"@,
        ASTComponent::HasValue(v) => "hasValue("@ + show_value(v) + ")"@,
        ASTComponent::In(v) => "in["@ + show_values(v@) + "]"@,
        ASTComponent::QualifiedValueShape { shape, q_min_count, q_max_count, disjoint, siblings } =>
            "qualifiedValueShape(shape: "@ + show_object(shape@) + ", qualified_min_count: "@
            + show_opt_int(q_min_count) + ", qualified_max_count: "@ + show_opt_int(q_max_count)
            + ", qualified_value_shape_disjoint: "@ + show_opt_bool(disjoint) + (if siblings.len() == 0 {
            Seq::empty()
        } else {
            ", siblings: ["@ + show_objects(siblings@) + "]"@
        }),
        ASTComponent::Deactivated(b) => "deactivated("@ + show_bool(b) + ")"@,
        ASTComponent::BasicSparql { select, message, deactivated, prefixes } => "basic_sparql: (select: "@
            + select@ + (match deactivated {
            Some(d) => ", deactivated: "@ + show_bool(d),
            None => Seq::empty(),
        }) + (match message {
            Some(m) => ", message: "@ + show_message_map(m.entries_view()),
            None => Seq::empty(),
        }) + (match prefixes {
            Some(p) => ", prefixes: "@ + show_prefixes(p@),
            None => Seq::empty(),
        }) + ")"@,
    }
}

/// `true` / `false`.
pub fn bool_text(b: bool) -> (r: String)
    ensures
        r@ == show_bool(b),
{
    if b {
        "true".to_string()
    } else {
        "false".to_string()
    }
}

pub fn opt_int_text(o: Option<isize>) -> (r: String)
    ensures
        r@ == show_opt_int(o),
{
    match o {
        Some(n) => concat3("Some(", isize_decimal(n).as_str(), ")"),
        None => "None".to_string(),
    }
}

pub fn opt_bool_text(o: Option<bool>) -> (r: String)
    ensures
        r@ == show_opt_bool(o),
{
    match o {
        Some(b) => concat3("Some(", bool_text(b).as_str(), ")"),
        None => "None".to_string(),
    }
}

/// Terms joined with `, `.
pub fn objects_text(v: &Vec<Object>) -> (r: String)
    ensures
        r@ == show_objects(v@),
{
    let mut parts: Vec<String> = Vec::new();
    let mut i: usize = 0;
    while i < v.len()
        invariant
            i <= v.len(),
            views(parts@) == v@.take(i as int).map_values(|o: Object| show_object(o@)),
        decreases v.len() - i,
    {
        let s = v[i].to_display();
        let ghost before = parts@;
        parts.push(s);
        assert(views(parts@) =~= views(before).push(s@));
        assert(v@.take(i as int + 1) =~= v@.take(i as int).push(v@[i as int]));
        assert(v@.take(i as int + 1).map_values(|o: Object| show_object(o@)) =~= v@.take(i as int).map_values(
            |o: Object| show_object(o@),
        ).push(s@));
        i = i + 1;
    }
    assert(v@.take(v.len() as int) =~= v@);
    join(&parts, ", ")
}

/// Values joined with `, `.
fn values_text(v: &Vec<Value>) -> (r: String)
    ensures
        r@ == show_values(v@),
{
    let mut parts: Vec<String> = Vec::new();
    let mut i: usize = 0;
    while i < v.len()
        invariant
            i <= v.len(),
            views(parts@) == v@.take(i as int).map_values(|x: Value| show_value(x)),
        decreases v.len() - i,
    {
        let s = v[i].to_display();
        let ghost before = parts@;
        parts.push(s);
        assert(views(parts@) =~= views(before).push(s@));
        assert(v@.take(i as int + 1) =~= v@.take(i as int).push(v@[i as int]));
        assert(v@.take(i as int + 1).map_values(|x: Value| show_value(x)) =~= v@.take(i as int).map_values(
            |x: Value| show_value(x),
        ).push(s@));
        i = i + 1;
    }
    assert(v@.take(v.len() as int) =~= v@);
    join(&parts, ", ")
}

/// A prefix list as `prefix alias: <namespace>` lines.
fn prefixes_text(p: &Vec<(String, String)>) -> (r: String)
    ensures
        r@ == show_prefixes(p@),
{
    let mut r = String::new();
    let mut i: usize = 0;
    while i < p.len()
        invariant
            i <= p.len(),
            r@ == show_prefixes(p@.take(i as int)),
        decreases p.len() - i,
    {
        push_str(&mut r, "prefix ");
        push_str(&mut r, p[i].0.as_str());
        push_str(&mut r, ": <");
        push_str(&mut r, p[i].1.as_str());
        push_str(&mut r, ">\n");
        assert(p@.take(i as int + 1).drop_last() =~= p@.take(i as int));
        i = i + 1;
    }
    assert(p@.take(p.len() as int) =~= p@);
    r
}

/// The SHACL parameter IRI of a component (`sh:minCount`, `sh:pattern`, ...).
pub open spec fn component_iri(c: ASTComponent) -> Seq<char> {
    match c {
        ASTComponent::Class(_) => vocab::sh_class_iri(),
        ASTComponent::Datatype(_) => vocab::sh_datatype_iri(),
        ASTComponent::NodeKind(_) => vocab::sh_node_kind_iri(),
        ASTComponent::MinCount(_) => vocab::sh_min_count_iri(),
        ASTComponent::MaxCount(_) => vocab::sh_max_count_iri(),
        ASTComponent::MinExclusive(_) => vocab::sh_min_exclusive_iri(),
        ASTComponent::MaxExclusive(_) => vocab::sh_max_exclusive_iri(),
        ASTComponent::MinInclusive(_) => vocab::sh_min_inclusive_iri(),
        ASTComponent::MaxInclusive(_) => vocab::sh_max_inclusive_iri(),
        ASTComponent::MinLength(_) => vocab::sh_min_length_iri(),
        ASTComponent::MaxLength(_) => vocab::sh_max_length_iri(),
        ASTComponent::Pattern { .. } => vocab::sh_pattern_iri(),
        ASTComponent::UniqueLang(_) => vocab::sh_unique_lang_iri(),
        ASTComponent::LanguageIn(_) => vocab::sh_language_in_iri(),
        ASTComponent::Equals(_) => vocab::sh_equals_iri(),
        ASTComponent::Disjoint(_) => vocab::sh_disjoint_iri(),
        ASTComponent::LessThan(_) => vocab::sh_less_than_iri(),
        ASTComponent::LessThanOrEquals(_) => vocab::sh_less_than_or_equals_iri(),
        ASTComponent::Or(_) => vocab::sh_or_iri(),
        ASTComponent::And(_) => vocab::sh_and_iri(),
        ASTComponent::Not(_) => vocab::sh_not_iri(),
        ASTComponent::Xone(_) => vocab::sh_xone_iri(),
        ASTComponent::Closed { .. } => vocab::sh_closed_iri(),
        ASTComponent::Node(_) => vocab::sh_node_iri(),
        ASTComponent::HasValue(_) => vocab::sh_has_value_iri(),
        ASTComponent::In(_) => vocab::sh_in_iri(),
        ASTComponent::QualifiedValueShape { .. } => vocab::sh_qualified_value_shape_iri(),
        ASTComponent::Deactivated(_) => vocab::sh_deactivated_iri(),
        ASTComponent::BasicSparql { .. } => vocab::sh_sparql_iri(),
    }
}

impl ASTComponent {
    /// The canonical textual form.
    pub fn to_display(&self) -> (r: String)
        ensures
            r@ == show_component(*self),
    {
        match self {
            ASTComponent::Class(o) => concat3("class(", o.to_display().as_str(), ")"),
            ASTComponent::Datatype(i) => concat3("datatype(", i.to_display().as_str(), ")"),
            ASTComponent::NodeKind(nk) => concat3("nodeKind(", nk.to_display().as_str(), ")"),
            ASTComponent::MinCount(n) => concat3("minCount(", isize_decimal(*n).as_str(), ")"),
            ASTComponent::MaxCount(n) => concat3("maxCount(", isize_decimal(*n).as_str(), ")"),
            ASTComponent::MinExclusive(l) => concat3("minExclusive(", l.to_display().as_str(), ")"),
            ASTComponent::MaxExclusive(l) => concat3("maxExclusive(", l.to_display().as_str(), ")"),
            ASTComponent::MinInclusive(l) => concat3("minInclusive(", l.to_display().as_str(), ")"),
            ASTComponent::MaxInclusive(l) => concat3("maxInclusive(", l.to_display().as_str(), ")"),
            ASTComponent::MinLength(n) => concat3("minLength(", isize_decimal(*n).as_str(), ")"),
            ASTComponent::MaxLength(n) => concat3("maxLength(", isize_decimal(*n).as_str(), ")"),
            ASTComponent::Pattern { pattern, flags } => {
                let mut r = concat2("pattern(", pattern.as_str());
                match flags {
                    Some(f) => {
                        push_str(&mut r, ", ");
                        push_str(&mut r, f.as_str());
                    },
                    None => {},
                }
                push_str(&mut r, ")");
                r
            },
            ASTComponent::UniqueLang(b) => concat3("uniqueLang(", bool_text(*b).as_str(), ")"),
            ASTComponent::LanguageIn(langs) => concat3("languageIn[", join(langs, ", ").as_str(), "]"),
            ASTComponent::Equals(i) => concat3("equals(", i.to_display().as_str(), ")"),
            ASTComponent::Disjoint(i) => concat3("disjoint(", i.to_display().as_str(), ")"),
            ASTComponent::LessThan(i) => concat3("lessThan(", i.to_display().as_str(), ")"),
            ASTComponent::LessThanOrEquals(i) => concat3("lessThanOrEquals(", i.to_display().as_str(), ")"),
            ASTComponent::Or(v) => concat3("or[", objects_text(v).as_str(), "]"),
            ASTComponent::And(v) => concat3("and[", objects_text(v).as_str(), "]"),
            ASTComponent::Not(o) => concat3("not(", o.to_display().as_str(), ")"),
            ASTComponent::Xone(v) => concat3("xone[", objects_text(v).as_str(), "]"),
            ASTComponent::Closed { is_closed, ignored_properties } => {
                let mut r = concat2("closed(", bool_text(*is_closed).as_str());
                if ignored_properties.len() != 0 {
                    push_str(&mut r, ", Ignored props: [");
                    push_str(&mut r, join(ignored_properties, ", ").as_str());
                    push_str(&mut r, "]");
                }
                push_str(&mut r, ")");
                r
            },
            ASTComponent::Node(o) => concat3("node(", o.to_display().as_str(), ")"),
            ASTComponent::HasValue(v) => concat3("hasValue(", v.to_display().as_str(), ")"),
            ASTComponent::In(v) => concat3("in[", values_text(v).as_str(), "]"),
            ASTComponent::QualifiedValueShape { shape, q_min_count, q_max_count, disjoint, siblings } => {
                let mut r = concat2("qualifiedValueShape(shape: ", shape.to_display().as_str());
                push_str(&mut r, ", qualified_min_count: ");
                push_str(&mut r, opt_int_text(*q_min_count).as_str());
                push_str(&mut r, ", qualified_max_count: ");
                push_str(&mut r, opt_int_text(*q_max_count).as_str());
                push_str(&mut r, ", qualified_value_shape_disjoint: ");
                push_str(&mut r, opt_bool_text(*disjoint).as_str());
                if siblings.len() != 0 {
                    push_str(&mut r, ", siblings: [");
                    push_str(&mut r, objects_text(siblings).as_str());
                    push_str(&mut r, "]");
                }
                r
            },
            ASTComponent::Deactivated(b) => concat3("deactivated(", bool_text(*b).as_str(), ")"),
            ASTComponent::BasicSparql { select, message, deactivated, prefixes } => {
                let mut r = concat2("basic_sparql: (select: ", select.as_str());
                match deactivated {
                    Some(d) => {
                        push_str(&mut r, ", deactivated: ");
                        push_str(&mut r, bool_text(*d).as_str());
                    },
                    None => {},
                }
                match message {
                    Some(m) => {
                        push_str(&mut r, ", message: ");
                        push_str(&mut r, m.to_display().as_str());
                    },
                    None => {},
                }
                match prefixes {
                    Some(p) => {
                        push_str(&mut r, ", prefixes: ");
                        push_str(&mut r, prefixes_text(p).as_str());
                    },
                    None => {},
                }
                push_str(&mut r, ")");
                r
            },
        }
    }

    /// The SHACL parameter IRI that defines this component.
    pub fn constraint_iri(&self) -> (r: String)
        ensures
            r@ == component_iri(*self),
    {
        match self {
            ASTComponent::Class(_) => vocab::sh_class(),
            ASTComponent::Datatype(_) => vocab::sh_datatype(),
            ASTComponent::NodeKind(_) => vocab::sh_node_kind(),
            ASTComponent::MinCount(_) => vocab::sh_min_count(),
            ASTComponent::MaxCount(_) => vocab::sh_max_count(),
            ASTComponent::MinExclusive(_) => vocab::sh_min_exclusive(),
            ASTComponent::MaxExclusive(_) => vocab::sh_max_exclusive(),
            ASTComponent::MinInclusive(_) => vocab::sh_min_inclusive(),
            ASTComponent::MaxInclusive(_) => vocab::sh_max_inclusive(),
            ASTComponent::MinLength(_) => vocab::sh_min_length(),
            ASTComponent::MaxLength(_) => vocab::sh_max_length(),
            ASTComponent::Pattern { .. } => vocab::sh_pattern(),
            ASTComponent::UniqueLang(_) => vocab::sh_unique_lang(),
            ASTComponent::LanguageIn(_) => vocab::sh_language_in(),
            ASTComponent::Equals(_) => vocab::sh_equals(),
            ASTComponent::Disjoint(_) => vocab::sh_disjoint(),
            ASTComponent::LessThan(_) => vocab::sh_less_than(),
            ASTComponent::LessThanOrEquals(_) => vocab::sh_less_than_or_equals(),
            ASTComponent::Or(_) => vocab::sh_or(),
            ASTComponent::And(_) => vocab::sh_and(),
            ASTComponent::Not(_) => vocab::sh_not(),
            ASTComponent::Xone(_) => vocab::sh_xone(),
            ASTComponent::Closed { .. } => vocab::sh_closed(),
            ASTComponent::Node(_) => vocab::sh_node(),
            ASTComponent::HasValue(_) => vocab::sh_has_value(),
            ASTComponent::In(_) => vocab::sh_in(),
            ASTComponent::QualifiedValueShape { .. } => vocab::sh_qualified_value_shape(),
            ASTComponent::Deactivated(_) => vocab::sh_deactivated(),
            ASTComponent::BasicSparql { .. } => vocab::sh_sparql(),
        }
    }
}

// ---------------------------------------------------------------------------
// Shapes and schema
// ---------------------------------------------------------------------------

/// A property shape: a path plus its constraints, targets, nested property
/// shapes and form annotations.
pub struct ASTPropertyShape {
    pub id: Object,
    pub path: SHACLPath,
    pub components: Vec<ASTComponent>,
    pub targets: Vec<Target>,
    pub property_shapes: Vec<Object>,
    pub order: Option<Literal>,
    pub default_value: Option<Value>,
    pub presentation: Presentation,
}

/// A node shape: constraints, targets and the property shapes it references.
pub struct ASTNodeShape {
    pub id: Object,
    pub components: Vec<ASTComponent>,
    pub targets: Vec<Target>,
    pub property_shapes: Vec<Object>,
    pub presentation: Presentation,
}

/// A node shape or a property shape.
pub enum ASTShape {
    NodeShape(Box<ASTNodeShape>),
    PropertyShape(Box<ASTPropertyShape>),
}

/// The id of a shape.
pub open spec fn shape_id(s: ASTShape) -> ObjectV {
    match s {
        ASTShape::NodeShape(ns) => ns.id@,
        ASTShape::PropertyShape(ps) => ps.id@,
    }
}

/// The ids of a sequence of shapes.
pub open spec fn shape_ids(s: Seq<ASTShape>) -> Seq<ObjectV> {
    s.map_values(|x: ASTShape| shape_id(x))
}

impl ASTShape {
    /// A node shape.
    pub fn node_shape(ns: ASTNodeShape) -> (r: ASTShape)
        ensures
            r == ASTShape::NodeShape(Box::new(ns)),
    {
        ASTShape::NodeShape(Box::new(ns))
    }

    /// A property shape.
    pub fn property_shape(ps: ASTPropertyShape) -> (r: ASTShape)
        ensures
            r == ASTShape::PropertyShape(Box::new(ps)),
    {
        ASTShape::PropertyShape(Box::new(ps))
    }

    /// The shape's id.
    pub fn id(&self) -> (r: &Object)
        ensures
            r@ == shape_id(*self),
    {
        match self {
            ASTShape::NodeShape(ns) => &ns.id,
            ASTShape::PropertyShape(ps) => &ps.id,
        }
    }
}

/// The first shape among `shapes` whose id is `id`.
pub open spec fn lookup(shapes: Seq<ASTShape>, id: ObjectV) -> Option<ASTShape>
    decreases shapes.len(),
{
    if shapes.len() == 0 {
        None
    } else if shape_id(shapes[0]) == id {
        Some(shapes[0])
    } else {
        lookup(shapes.drop_first(), id)
    }
}

/// A shapes schema: shapes with distinct ids, and the prefix declarations
/// (alias, namespace) it was read with.
pub struct ASTSchema {
    shapes: Vec<ASTShape>,
    prefixmap: Vec<(String, String)>,
}

impl ASTSchema {
    #[verifier::type_invariant]
    closed spec fn inv(self) -> bool {
        shape_ids(self.shapes@).no_duplicates()
    }

    /// The shapes, in the order they were added.
    pub closed spec fn shapes_view(&self) -> Seq<ASTShape> {
        self.shapes@
    }

    /// The prefix declarations.
    pub closed spec fn prefixes_view(&self) -> Seq<(String, String)> {
        self.prefixmap@
    }

    /// An empty schema.
    pub fn new() -> (r: ASTSchema)
        ensures
            r.shapes_view() == Seq::<ASTShape>::empty(),
            r.prefixes_view() == Seq::<(String, String)>::empty(),
    {
        let r = ASTSchema { shapes: Vec::new(), prefixmap: Vec::new() };
        assert(shape_ids(r.shapes@) =~= Seq::<ObjectV>::empty());
        r
    }

    /// The shapes, each id once.
    pub fn iter(&self) -> (r: &Vec<ASTShape>)
        ensures
            r@ == self.shapes_view(),
            shape_ids(r@).no_duplicates(),
    {
        proof {
            use_type_invariant(self);
        }
        &self.shapes
    }

    /// The prefix declarations.
    pub fn prefixmap(&self) -> (r: &Vec<(String, String)>)
        ensures
            r@ == self.prefixes_view(),
    {
        &self.prefixmap
    }

    /// Number of shapes.
    pub fn len(&self) -> (r: usize)
        ensures
            r == self.shapes_view().len(),
    {
        self.shapes.len()
    }

    /// The shape with the given id.
    pub fn get_shape(&self, id: &Object) -> (r: Option<&ASTShape>)
        ensures
            match r {
                Some(s) => self.shapes_view().contains(*s) && shape_id(*s) == id@,
                None => !shape_ids(self.shapes_view()).contains(id@),
            },
            match r {
                Some(s) => lookup(self.shapes_view(), id@) == Some(*s),
                None => lookup(self.shapes_view(), id@) is None,
            },
    {
        let mut i: usize = 0;
        assert(self.shapes@.skip(0) =~= self.shapes@);
        while i < self.shapes.len()
            invariant
                i <= self.shapes.len(),
                forall|j: int| 0 <= j < i ==> shape_id(self.shapes@[j]) != id@,
                lookup(self.shapes@, id@) == lookup(self.shapes@.skip(i as int), id@),
            decreases self.shapes.len() - i,
        {
            assert(self.shapes@.skip(i as int)[0] == self.shapes@[i as int]);
            assert(self.shapes@.skip(i as int).drop_first() =~= self.shapes@.skip(i as int + 1));
            if self.shapes[i].id().equals(id) {
                return Some(&self.shapes[i]);
            }
            i = i + 1;
        }
        assert(self.shapes@.skip(i as int).len() == 0);
        proof {
            if shape_ids(self.shapes@).contains(id@) {
                let j = choose|j: int| 0 <= j < shape_ids(self.shapes@).len() && shape_ids(self.shapes@)[j] == id@;
                assert(shape_id(self.shapes@[j]) == id@);
            }
        }
        None
    }
}

// ---------------------------------------------------------------------------
// Builders
// ---------------------------------------------------------------------------

/// Errors raised when finishing a builder.
#[derive(Debug)]
pub enum BuildError {
    /// Two shapes of a schema share this id.
    DuplicateShapeId(Object),
}

/// Builds an [`ASTPropertyShape`]; the path is required up front.
pub struct PropertyShapeBuilder {
    pub id: Object,
    pub path: SHACLPath,
    pub components: Vec<ASTComponent>,
    pub targets: Vec<Target>,
    pub property_shapes: Vec<Object>,
    pub order: Option<Literal>,
    pub default_value: Option<Value>,
    pub presentation: Presentation,
}

impl PropertyShapeBuilder {
    /// A property shape with this id and path and nothing else.
    pub fn new(id: Object, path: SHACLPath) -> (r: PropertyShapeBuilder)
        ensures
            r.id == id,
            r.path == path,
            r.components@ == Seq::<ASTComponent>::empty(),
            r.targets@ == Seq::<Target>::empty(),
            r.property_shapes@ == Seq::<Object>::empty(),
            r.order is None,
            r.default_value is None,
            r.presentation.editor_view() is None,
            r.presentation.viewer_view() is None,
    {
        PropertyShapeBuilder {
            id,
            path,
            components: Vec::new(),
            targets: Vec::new(),
            property_shapes: Vec::new(),
            order: None,
            default_value: None,
            presentation: Presentation::new(),
        }
    }

    /// A property shape whose path is the single predicate `pred`.
    pub fn predicate(id: Object, pred: String) -> (r: PropertyShapeBuilder)
        ensures
            r.id == id,
            r.path == (SHACLPath::Predicate { pred }),
            r.components@ == Seq::<ASTComponent>::empty(),
            r.targets@ == Seq::<Target>::empty(),
            r.property_shapes@ == Seq::<Object>::empty(),
            r.order is None,
            r.default_value is None,
            r.presentation.editor_view() is None,
            r.presentation.viewer_view() is None,
    {
        PropertyShapeBuilder::new(id, SHACLPath::Predicate { pred })
    }

    /// Adds a component.
    pub fn component(self, c: ASTComponent) -> (r: PropertyShapeBuilder)
        ensures
            r == (PropertyShapeBuilder { components: r.components, ..self }),
            r.components@ == self.components@.push(c),
    {
        let mut b = self;
        b.components.push(c);
        b
    }

    /// Adds `sh:datatype`.
    pub fn datatype(self, dt: IriRef) -> (r: PropertyShapeBuilder)
        ensures
            r == (PropertyShapeBuilder { components: r.components, ..self }),
            r.components@ == self.components@.push(ASTComponent::Datatype(dt)),
    {
        self.component(ASTComponent::Datatype(dt))
    }

    /// Adds `sh:class`.
    pub fn class(self, class: Object) -> (r: PropertyShapeBuilder)
        ensures
            r == (PropertyShapeBuilder { components: r.components, ..self }),
            r.components@ == self.components@.push(ASTComponent::Class(class)),
    {
        self.component(ASTComponent::Class(class))
    }

    /// Adds `sh:minCount`.
    pub fn min_count(self, n: isize) -> (r: PropertyShapeBuilder)
        ensures
            r == (PropertyShapeBuilder { components: r.components, ..self }),
            r.components@ == self.components@.push(ASTComponent::MinCount(n)),
    {
        self.component(ASTComponent::MinCount(n))
    }

    /// Adds `sh:maxCount`.
    pub fn max_count(self, n: isize) -> (r: PropertyShapeBuilder)
        ensures
            r == (PropertyShapeBuilder { components: r.components, ..self }),
            r.components@ == self.components@.push(ASTComponent::MaxCount(n)),
    {
        self.component(ASTComponent::MaxCount(n))
    }

    /// Adds `sh:nodeKind`.
    pub fn node_kind(self, nk: NodeKind) -> (r: PropertyShapeBuilder)
        ensures
            r == (PropertyShapeBuilder { components: r.components, ..self }),
            r.components@ == self.components@.push(ASTComponent::NodeKind(nk)),
    {
        self.component(ASTComponent::NodeKind(nk))
    }

    /// Adds a target declaration.
    pub fn target(self, target: Target) -> (r: PropertyShapeBuilder)
        ensures
            r == (PropertyShapeBuilder { targets: r.targets, ..self }),
            r.targets@ == self.targets@.push(target),
    {
        let mut b = self;
        b.targets.push(target);
        b
    }

    /// References a nested property shape.
    pub fn property_shape(self, ref_id: Object) -> (r: PropertyShapeBuilder)
        ensures
            r == (PropertyShapeBuilder { property_shapes: r.property_shapes, ..self }),
            r.property_shapes@ == self.property_shapes@.push(ref_id),
    {
        let mut b = self;
        b.property_shapes.push(ref_id);
        b
    }

    /// Sets `sh:order`.
    pub fn order(self, order: Literal) -> (r: PropertyShapeBuilder)
        ensures
            r == (PropertyShapeBuilder { order: Some(order), ..self }),
    {
        PropertyShapeBuilder { order: Some(order), ..self }
    }

    /// Sets `sh:defaultValue`.
    pub fn default_value(self, value: Value) -> (r: PropertyShapeBuilder)
        ensures
            r == (PropertyShapeBuilder { default_value: Some(value), ..self }),
    {
        PropertyShapeBuilder { default_value: Some(value), ..self }
    }

    /// Sets `shui:editor`.
    pub fn editor(self, editor: String) -> (r: PropertyShapeBuilder)
        ensures
            r == (PropertyShapeBuilder { presentation: r.presentation, ..self }),
            r.presentation.editor_view() == Some(editor@),
            r.presentation.viewer_view() == self.presentation.viewer_view(),
    {
        let PropertyShapeBuilder {
            id,
            path,
            components,
            targets,
            property_shapes,
            order,
            default_value,
            presentation,
        } = self;
        PropertyShapeBuilder {
            id,
            path,
            components,
            targets,
            property_shapes,
            order,
            default_value,
            presentation: presentation.with_editor(Some(editor)),
        }
    }

    /// Sets `shui:viewer`.
    pub fn viewer(self, viewer: String) -> (r: PropertyShapeBuilder)
        ensures
            r == (PropertyShapeBuilder { presentation: r.presentation, ..self }),
            r.presentation.viewer_view() == Some(viewer@),
            r.presentation.editor_view() == self.presentation.editor_view(),
    {
        let PropertyShapeBuilder {
            id,
            path,
            components,
            targets,
            property_shapes,
            order,
            default_value,
            presentation,
        } = self;
        PropertyShapeBuilder {
            id,
            path,
            components,
            targets,
            property_shapes,
            order,
            default_value,
            presentation: presentation.with_viewer(Some(viewer)),
        }
    }

    /// The property shape; building never fails.
    pub fn build(self) -> (r: Result<ASTPropertyShape, BuildError>)
        ensures
            r == Ok::<ASTPropertyShape, BuildError>(
                ASTPropertyShape {
                    id: self.id,
                    path: self.path,
                    components: self.components,
                    targets: self.targets,
                    property_shapes: self.property_shapes,
                    order: self.order,
                    default_value: self.default_value,
                    presentation: self.presentation,
                },
            ),
    {
        Ok(
            ASTPropertyShape {
                id: self.id,
                path: self.path,
                components: self.components,
                targets: self.targets,
                property_shapes: self.property_shapes,
                order: self.order,
                default_value: self.default_value,
                presentation: self.presentation,
            },
        )
    }
}

/// Builds an [`ASTNodeShape`].
pub struct NodeShapeBuilder {
    pub id: Object,
    pub components: Vec<ASTComponent>,
    pub targets: Vec<Target>,
    pub property_shapes: Vec<Object>,
    pub presentation: Presentation,
}

impl NodeShapeBuilder {
    /// A node shape with this id and nothing else.
    pub fn new(id: Object) -> (r: NodeShapeBuilder)
        ensures
            r.id == id,
            r.components@ == Seq::<ASTComponent>::empty(),
            r.targets@ == Seq::<Target>::empty(),
            r.property_shapes@ == Seq::<Object>::empty(),
            r.presentation.editor_view() is None,
            r.presentation.viewer_view() is None,
    {
        NodeShapeBuilder {
            id,
            components: Vec::new(),
            targets: Vec::new(),
            property_shapes: Vec::new(),
            presentation: Presentation::new(),
        }
    }

    /// Adds a component.
    pub fn component(self, c: ASTComponent) -> (r: NodeShapeBuilder)
        ensures
            r == (NodeShapeBuilder { components: r.components, ..self }),
            r.components@ == self.components@.push(c),
    {
        let mut b = self;
        b.components.push(c);
        b
    }

    /// Adds `sh:class`.
    pub fn class(self, class: Object) -> (r: NodeShapeBuilder)
        ensures
            r == (NodeShapeBuilder { components: r.components, ..self }),
            r.components@ == self.components@.push(ASTComponent::Class(class)),
    {
        self.component(ASTComponent::Class(class))
    }

    /// Adds a target declaration.
    pub fn target(self, target: Target) -> (r: NodeShapeBuilder)
        ensures
            r == (NodeShapeBuilder { targets: r.targets, ..self }),
            r.targets@ == self.targets@.push(target),
    {
        let mut b = self;
        b.targets.push(target);
        b
    }

    /// Adds `sh:targetClass`.
    pub fn target_class(self, class: Object) -> (r: NodeShapeBuilder)
        ensures
            r == (NodeShapeBuilder { targets: r.targets, ..self }),
            r.targets@ == self.targets@.push(Target::Class(class)),
    {
        self.target(Target::Class(class))
    }

    /// References a property shape.
    pub fn property_shape(self, ref_id: Object) -> (r: NodeShapeBuilder)
        ensures
            r == (NodeShapeBuilder { property_shapes: r.property_shapes, ..self }),
            r.property_shapes@ == self.property_shapes@.push(ref_id),
    {
        let mut b = self;
        b.property_shapes.push(ref_id);
        b
    }

    /// Sets `shui:editor`.
    pub fn editor(self, editor: String) -> (r: NodeShapeBuilder)
        ensures
            r == (NodeShapeBuilder { presentation: r.presentation, ..self }),
            r.presentation.editor_view() == Some(editor@),
            r.presentation.viewer_view() == self.presentation.viewer_view(),
    {
        let NodeShapeBuilder { id, components, targets, property_shapes, presentation } = self;
        NodeShapeBuilder {
            id,
            components,
            targets,
            property_shapes,
            presentation: presentation.with_editor(Some(editor)),
        }
    }

    /// The node shape; building never fails.
    pub fn build(self) -> (r: Result<ASTNodeShape, BuildError>)
        ensures
            r == Ok::<ASTNodeShape, BuildError>(
                ASTNodeShape {
                    id: self.id,
                    components: self.components,
                    targets: self.targets,
                    property_shapes: self.property_shapes,
                    presentation: self.presentation,
                },
            ),
    {
        Ok(
            ASTNodeShape {
                id: self.id,
                components: self.components,
                targets: self.targets,
                property_shapes: self.property_shapes,
                presentation: self.presentation,
            },
        )
    }
}

/// The first position at which an id repeats an earlier one, if any.
pub open spec fn first_repeat(ids: Seq<ObjectV>, j: int) -> bool {
    &&& 0 <= j < ids.len()
    &&& ids.take(j).contains(ids[j])
    &&& ids.take(j).no_duplicates()
}

/// The position of the first shape with the given id.
fn position_of_id(shapes: &Vec<ASTShape>, id: &Object) -> (r: Option<usize>)
    ensures
        match r {
            Some(j) => j < shapes@.len() && shape_id(shapes@[j as int]) == id@,
            None => forall|k: int| 0 <= k < shapes@.len() ==> shape_id(#[trigger] shapes@[k]) != id@,
        },
{
    let mut j: usize = 0;
    while j < shapes.len()
        invariant
            j <= shapes.len(),
            forall|k: int| 0 <= k < j ==> shape_id(#[trigger] shapes@[k]) != id@,
        decreases shapes.len() - j,
    {
        if shapes[j].id().equals(id) {
            return Some(j);
        }
        j = j + 1;
    }
    None
}

/// Builds an [`ASTSchema`], refusing two shapes with one id.
pub struct SchemaBuilder {
    pub shapes: Vec<ASTShape>,
    pub prefixmap: Vec<(String, String)>,
}

impl SchemaBuilder {
    /// No shapes, no prefixes.
    pub fn new() -> (r: SchemaBuilder)
        ensures
            r.shapes@ == Seq::<ASTShape>::empty(),
            r.prefixmap@ == Seq::<(String, String)>::empty(),
    {
        SchemaBuilder { shapes: Vec::new(), prefixmap: Vec::new() }
    }

    /// Sets the prefix declarations.
    pub fn prefixmap(self, prefixmap: Vec<(String, String)>) -> (r: SchemaBuilder)
        ensures
            r.shapes == self.shapes,
            r.prefixmap == prefixmap,
    {
        SchemaBuilder { shapes: self.shapes, prefixmap }
    }

    /// Adds a shape.
    pub fn shape(self, shape: ASTShape) -> (r: SchemaBuilder)
        ensures
            r.shapes@ == self.shapes@.push(shape),
            r.prefixmap == self.prefixmap,
    {
        let mut b = self;
        b.shapes.push(shape);
        b
    }

    /// Adds a node shape.
    pub fn node_shape(self, ns: ASTNodeShape) -> (r: SchemaBuilder)
        ensures
            r.shapes@ == self.shapes@.push(ASTShape::NodeShape(Box::new(ns))),
            r.prefixmap == self.prefixmap,
    {
        self.shape(ASTShape::node_shape(ns))
    }

    /// Adds a property shape.
    pub fn property_shape(self, ps: ASTPropertyShape) -> (r: SchemaBuilder)
        ensures
            r.shapes@ == self.shapes@.push(ASTShape::PropertyShape(Box::new(ps))),
            r.prefixmap == self.prefixmap,
    {
        self.shape(ASTShape::property_shape(ps))
    }

    /// The schema. Fails on the first shape whose id an earlier shape already
    /// has, naming that id; otherwise holds every shape, in order.
    pub fn build(self) -> (r: Result<ASTSchema, BuildError>)
        ensures
            shape_ids(self.shapes@).no_duplicates() ==> (r matches Ok(s) && s.shapes_view()
                == self.shapes@ && s.prefixes_view() == self.prefixmap@),
            !shape_ids(self.shapes@).no_duplicates() ==> (r matches Err(BuildError::DuplicateShapeId(id))
                && exists|j: int| first_repeat(shape_ids(self.shapes@), j) && id@ == shape_ids(self.shapes@)[j]),
    {
        let ghost all = shape_ids(self.shapes@);
        let mut kept: Vec<ASTShape> = Vec::new();
        let mut rest = self.shapes;
        let ghost total = rest@;
        let total_len = rest.len();
        let mut i: usize = 0;
        assert(total.take(0) =~= Seq::<ASTShape>::empty());
        assert(total.skip(0) =~= total);
        assert(shape_ids(kept@) =~= Seq::<ObjectV>::empty());
        while rest.len() > 0
            invariant
                all == shape_ids(total),
                total == self.shapes@,
                total.len() == total_len,
                i + rest.len() == total.len(),
                kept@ == total.take(i as int),
                rest@ == total.skip(i as int),
                shape_ids(kept@).no_duplicates(),
            decreases rest.len(),
        {
            let shape = rest.remove(0);
            proof {
                assert(shape == total[i as int]);
            }
            match position_of_id(&kept, shape.id()) {
                Some(j) => {
                    let id = shape.id().clone();
                    proof {
                        assert(all.take(i as int) =~= shape_ids(kept@));
                        assert(all.take(i as int)[j as int] == all[i as int]);
                        assert(all.take(i as int).contains(all[i as int]));
                        assert(first_repeat(all, i as int));
                        assert(id@ == all[i as int]);
                        assert(!all.no_duplicates()) by {
                            assert(all[j as int] == all[i as int]);
                            assert(j < i);
                        }
                        assert(all == shape_ids(self.shapes@));
                    }
                    return Err(BuildError::DuplicateShapeId(id));
                },
                None => {},
            }
            let ghost before = kept@;
            kept.push(shape);
            proof {
                assert(total.take(i as int + 1) =~= total.take(i as int).push(total[i as int]));
                assert(shape_ids(kept@) =~= shape_ids(before).push(shape_id(shape)));
                let s = shape_ids(kept@);
                assert forall|a: int, b: int| 0 <= a < s.len() && 0 <= b < s.len() && a != b implies s[a] != s[b] by {
                    if a < s.len() - 1 && b < s.len() - 1 {
                        assert(s[a] == shape_ids(before)[a] && s[b] == shape_ids(before)[b]);
                    } else if a < s.len() - 1 {
                        assert(s[a] == shape_id(before[a]));
                        assert(shape_id(before[a]) != shape_id(shape));
                    } else {
                        assert(s[b] == shape_id(before[b]));
                        assert(shape_id(before[b]) != shape_id(shape));
                    }
                }
                assert(total.skip(i as int + 1) =~= total.skip(i as int).remove(0));
            }
            i = i + 1;
        }
        assert(total.take(total.len() as int) =~= total);
        assert(kept@ == total);
        let schema = ASTSchema { shapes: kept, prefixmap: self.prefixmap };
        Ok(schema)
    }
}

} // verus!
