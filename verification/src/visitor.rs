//! Visitors over components: one method per kind of component, each with a
//! spec function by which the implementor says what a visit of that kind
//! does, and `accept`, which hands a component, with its parameters, to the
//! method of its kind and returns what that method returns.
use vstd::prelude::*;
use crate::ast::ASTComponent;
use crate::ir::{BasicSparql, Closed, IRComponent, Pattern, QualifiedValueShape};
use crate::message_map::MessageMap;
use crate::term::{Literal, Object};
use crate::types::{IriRef, NodeKind, Value};
use crate::parse::opt_str_view;
use crate::term::opt_view;

verus! {

/// The string inside an optional string.
fn opt_str(o: &Option<String>) -> (r: Option<&str>)
    ensures
        match r {
            Some(s) => o matches Some(t) && s@ == t@,
            None => o is None,
        },
{
    match o {
        Some(s) => Some(s.as_str()),
        None => None,
    }
}

/// The value an optional reference refers to.
pub open spec fn opt_deref<T>(o: Option<&T>) -> Option<T> {
    match o {
        Some(x) => Some(*x),
        None => None,
    }
}

/// A reference to the value inside an option.
fn opt_ref<T>(o: &Option<T>) -> (r: Option<&T>)
    ensures
        opt_deref(r) == *o,
{
    match o {
        Some(x) => Some(x),
        None => None,
    }
}

/// A fold over one SHACL component of a schema. Each kind of component has
/// its own method, and with it a spec function by which the implementor says
/// what a visit of that kind does; an arm that has nothing of its own to do
/// may hand over to `default_component`.
pub trait ComponentVisitor {
    /// What a visit yields.
    type Output;
    /// What a visit fails with.
    type Error;

    /// The fallback that arms without work of their own may return.
    fn default_component(&mut self) -> Result<Self::Output, Self::Error>;

    /// What visiting the `class` component from `self` leaves the visitor
    /// as (`after`) and yields (`r`); an implementor verified with Verus states
    /// its own, and otherwise nothing is claimed.
    open spec fn class_visited(&self, after: &Self, class: Object, r: Result<Self::Output, Self::Error>) -> bool {
        true
    }

    /// Visits the `class` component.
    fn visit_class(&mut self, class: &Object) -> (r: Result<Self::Output, Self::Error>)
        ensures
            old(self).class_visited(&*final(self), *class, r),
    ;

    /// What visiting the `datatype` component from `self` leaves the visitor
    /// as (`after`) and yields (`r`); an implementor verified with Verus states
    /// its own, and otherwise nothing is claimed.
    open spec fn datatype_visited(&self, after: &Self, datatype: IriRef, r: Result<Self::Output, Self::Error>) -> bool {
        true
    }

    /// Visits the `datatype` component.
    fn visit_datatype(&mut self, datatype: &IriRef) -> (r: Result<Self::Output, Self::Error>)
        ensures
            old(self).datatype_visited(&*final(self), *datatype, r),
    ;

    /// What visiting the `node_kind` component from `self` leaves the visitor
    /// as (`after`) and yields (`r`); an implementor verified with Verus states
    /// its own, and otherwise nothing is claimed.
    open spec fn node_kind_visited(&self, after: &Self, node_kind: NodeKind, r: Result<Self::Output, Self::Error>) -> bool {
        true
    }

    /// Visits the `node_kind` component.
    fn visit_node_kind(&mut self, node_kind: &NodeKind) -> (r: Result<Self::Output, Self::Error>)
        ensures
            old(self).node_kind_visited(&*final(self), *node_kind, r),
    ;

    /// What visiting the `min_count` component from `self` leaves the visitor
    /// as (`after`) and yields (`r`); an implementor verified with Verus states
    /// its own, and otherwise nothing is claimed.
    open spec fn min_count_visited(&self, after: &Self, count: isize, r: Result<Self::Output, Self::Error>) -> bool {
        true
    }

    /// Visits the `min_count` component.
    fn visit_min_count(&mut self, count: isize) -> (r: Result<Self::Output, Self::Error>)
        ensures
            old(self).min_count_visited(&*final(self), count, r),
    ;

    /// What visiting the `max_count` component from `self` leaves the visitor
    /// as (`after`) and yields (`r`); an implementor verified with Verus states
    /// its own, and otherwise nothing is claimed.
    open spec fn max_count_visited(&self, after: &Self, count: isize, r: Result<Self::Output, Self::Error>) -> bool {
        true
    }

    /// Visits the `max_count` component.
    fn visit_max_count(&mut self, count: isize) -> (r: Result<Self::Output, Self::Error>)
        ensures
            old(self).max_count_visited(&*final(self), count, r),
    ;

    /// What visiting the `min_exclusive` component from `self` leaves the visitor
    /// as (`after`) and yields (`r`); an implementor verified with Verus states
    /// its own, and otherwise nothing is claimed.
    open spec fn min_exclusive_visited(&self, after: &Self, lit: Literal, r: Result<Self::Output, Self::Error>) -> bool {
        true
    }

    /// Visits the `min_exclusive` component.
    fn visit_min_exclusive(&mut self, lit: &Literal) -> (r: Result<Self::Output, Self::Error>)
        ensures
            old(self).min_exclusive_visited(&*final(self), *lit, r),
    ;

    /// What visiting the `max_exclusive` component from `self` leaves the visitor
    /// as (`after`) and yields (`r`); an implementor verified with Verus states
    /// its own, and otherwise nothing is claimed.
    open spec fn max_exclusive_visited(&self, after: &Self, lit: Literal, r: Result<Self::Output, Self::Error>) -> bool {
        true
    }

    /// Visits the `max_exclusive` component.
    fn visit_max_exclusive(&mut self, lit: &Literal) -> (r: Result<Self::Output, Self::Error>)
        ensures
            old(self).max_exclusive_visited(&*final(self), *lit, r),
    ;

    /// What visiting the `min_inclusive` component from `self` leaves the visitor
    /// as (`after`) and yields (`r`); an implementor verified with Verus states
    /// its own, and otherwise nothing is claimed.
    open spec fn min_inclusive_visited(&self, after: &Self, lit: Literal, r: Result<Self::Output, Self::Error>) -> bool {
        true
    }

    /// Visits the `min_inclusive` component.
    fn visit_min_inclusive(&mut self, lit: &Literal) -> (r: Result<Self::Output, Self::Error>)
        ensures
            old(self).min_inclusive_visited(&*final(self), *lit, r),
    ;

    /// What visiting the `max_inclusive` component from `self` leaves the visitor
    /// as (`after`) and yields (`r`); an implementor verified with Verus states
    /// its own, and otherwise nothing is claimed.
    open spec fn max_inclusive_visited(&self, after: &Self, lit: Literal, r: Result<Self::Output, Self::Error>) -> bool {
        true
    }

    /// Visits the `max_inclusive` component.
    fn visit_max_inclusive(&mut self, lit: &Literal) -> (r: Result<Self::Output, Self::Error>)
        ensures
            old(self).max_inclusive_visited(&*final(self), *lit, r),
    ;

    /// What visiting the `min_length` component from `self` leaves the visitor
    /// as (`after`) and yields (`r`); an implementor verified with Verus states
    /// its own, and otherwise nothing is claimed.
    open spec fn min_length_visited(&self, after: &Self, len: isize, r: Result<Self::Output, Self::Error>) -> bool {
        true
    }

    /// Visits the `min_length` component.
    fn visit_min_length(&mut self, len: isize) -> (r: Result<Self::Output, Self::Error>)
        ensures
            old(self).min_length_visited(&*final(self), len, r),
    ;

    /// What visiting the `max_length` component from `self` leaves the visitor
    /// as (`after`) and yields (`r`); an implementor verified with Verus states
    /// its own, and otherwise nothing is claimed.
    open spec fn max_length_visited(&self, after: &Self, len: isize, r: Result<Self::Output, Self::Error>) -> bool {
        true
    }

    /// Visits the `max_length` component.
    fn visit_max_length(&mut self, len: isize) -> (r: Result<Self::Output, Self::Error>)
        ensures
            old(self).max_length_visited(&*final(self), len, r),
    ;

    /// What visiting the `pattern` component from `self` leaves the visitor
    /// as (`after`) and yields (`r`); an implementor verified with Verus states
    /// its own, and otherwise nothing is claimed.
    open spec fn pattern_visited(&self, after: &Self, pattern: Seq<char>, flags: Option<Seq<char>>, r: Result<Self::Output, Self::Error>) -> bool {
        true
    }

    /// Visits the `pattern` component.
    fn visit_pattern(&mut self, pattern: &str, flags: Option<&str>) -> (r: Result<Self::Output, Self::Error>)
        ensures
            old(self).pattern_visited(&*final(self), pattern@, opt_str_view(flags), r),
    ;

    /// What visiting the `unique_lang` component from `self` leaves the visitor
    /// as (`after`) and yields (`r`); an implementor verified with Verus states
    /// its own, and otherwise nothing is claimed.
    open spec fn unique_lang_visited(&self, after: &Self, unique: bool, r: Result<Self::Output, Self::Error>) -> bool {
        true
    }

    /// Visits the `unique_lang` component.
    fn visit_unique_lang(&mut self, unique: bool) -> (r: Result<Self::Output, Self::Error>)
        ensures
            old(self).unique_lang_visited(&*final(self), unique, r),
    ;

    /// What visiting the `language_in` component from `self` leaves the visitor
    /// as (`after`) and yields (`r`); an implementor verified with Verus states
    /// its own, and otherwise nothing is claimed.
    open spec fn language_in_visited(&self, after: &Self, langs: Seq<String>, r: Result<Self::Output, Self::Error>) -> bool {
        true
    }

    /// Visits the `language_in` component.
    fn visit_language_in(&mut self, langs: &[String]) -> (r: Result<Self::Output, Self::Error>)
        ensures
            old(self).language_in_visited(&*final(self), langs@, r),
    ;

    /// What visiting the `equals` component from `self` leaves the visitor
    /// as (`after`) and yields (`r`); an implementor verified with Verus states
    /// its own, and otherwise nothing is claimed.
    open spec fn equals_visited(&self, after: &Self, iri: IriRef, r: Result<Self::Output, Self::Error>) -> bool {
        true
    }

    /// Visits the `equals` component.
    fn visit_equals(&mut self, iri: &IriRef) -> (r: Result<Self::Output, Self::Error>)
        ensures
            old(self).equals_visited(&*final(self), *iri, r),
    ;

    /// What visiting the `disjoint` component from `self` leaves the visitor
    /// as (`after`) and yields (`r`); an implementor verified with Verus states
    /// its own, and otherwise nothing is claimed.
    open spec fn disjoint_visited(&self, after: &Self, iri: IriRef, r: Result<Self::Output, Self::Error>) -> bool {
        true
    }

    /// Visits the `disjoint` component.
    fn visit_disjoint(&mut self, iri: &IriRef) -> (r: Result<Self::Output, Self::Error>)
        ensures
            old(self).disjoint_visited(&*final(self), *iri, r),
    ;

    /// What visiting the `less_than` component from `self` leaves the visitor
    /// as (`after`) and yields (`r`); an implementor verified with Verus states
    /// its own, and otherwise nothing is claimed.
    open spec fn less_than_visited(&self, after: &Self, iri: IriRef, r: Result<Self::Output, Self::Error>) -> bool {
        true
    }

    /// Visits the `less_than` component.
    fn visit_less_than(&mut self, iri: &IriRef) -> (r: Result<Self::Output, Self::Error>)
        ensures
            old(self).less_than_visited(&*final(self), *iri, r),
    ;

    /// What visiting the `less_than_or_equals` component from `self` leaves the visitor
    /// as (`after`) and yields (`r`); an implementor verified with Verus states
    /// its own, and otherwise nothing is claimed.
    open spec fn less_than_or_equals_visited(&self, after: &Self, iri: IriRef, r: Result<Self::Output, Self::Error>) -> bool {
        true
    }

    /// Visits the `less_than_or_equals` component.
    fn visit_less_than_or_equals(&mut self, iri: &IriRef) -> (r: Result<Self::Output, Self::Error>)
        ensures
            old(self).less_than_or_equals_visited(&*final(self), *iri, r),
    ;

    /// What visiting the `or` component from `self` leaves the visitor
    /// as (`after`) and yields (`r`); an implementor verified with Verus states
    /// its own, and otherwise nothing is claimed.
    open spec fn or_visited(&self, after: &Self, shapes: Seq<Object>, r: Result<Self::Output, Self::Error>) -> bool {
        true
    }

    /// Visits the `or` component.
    fn visit_or(&mut self, shapes: &[Object]) -> (r: Result<Self::Output, Self::Error>)
        ensures
            old(self).or_visited(&*final(self), shapes@, r),
    ;

    /// What visiting the `and` component from `self` leaves the visitor
    /// as (`after`) and yields (`r`); an implementor verified with Verus states
    /// its own, and otherwise nothing is claimed.
    open spec fn and_visited(&self, after: &Self, shapes: Seq<Object>, r: Result<Self::Output, Self::Error>) -> bool {
        true
    }

    /// Visits the `and` component.
    fn visit_and(&mut self, shapes: &[Object]) -> (r: Result<Self::Output, Self::Error>)
        ensures
            old(self).and_visited(&*final(self), shapes@, r),
    ;

    /// What visiting the `not` component from `self` leaves the visitor
    /// as (`after`) and yields (`r`); an implementor verified with Verus states
    /// its own, and otherwise nothing is claimed.
    open spec fn not_visited(&self, after: &Self, shape: Object, r: Result<Self::Output, Self::Error>) -> bool {
        true
    }

    /// Visits the `not` component.
    fn visit_not(&mut self, shape: &Object) -> (r: Result<Self::Output, Self::Error>)
        ensures
            old(self).not_visited(&*final(self), *shape, r),
    ;

    /// What visiting the `xone` component from `self` leaves the visitor
    /// as (`after`) and yields (`r`); an implementor verified with Verus states
    /// its own, and otherwise nothing is claimed.
    open spec fn xone_visited(&self, after: &Self, shapes: Seq<Object>, r: Result<Self::Output, Self::Error>) -> bool {
        true
    }

    /// Visits the `xone` component.
    fn visit_xone(&mut self, shapes: &[Object]) -> (r: Result<Self::Output, Self::Error>)
        ensures
            old(self).xone_visited(&*final(self), shapes@, r),
    ;

    /// What visiting the `closed` component from `self` leaves the visitor
    /// as (`after`) and yields (`r`); an implementor verified with Verus states
    /// its own, and otherwise nothing is claimed.
    open spec fn closed_visited(&self, after: &Self, is_closed: bool, ignored: Seq<String>, r: Result<Self::Output, Self::Error>) -> bool {
        true
    }

    /// Visits the `closed` component.
    fn visit_closed(&mut self, is_closed: bool, ignored: &[String]) -> (r: Result<Self::Output, Self::Error>)
        ensures
            old(self).closed_visited(&*final(self), is_closed, ignored@, r),
    ;

    /// What visiting the `node` component from `self` leaves the visitor
    /// as (`after`) and yields (`r`); an implementor verified with Verus states
    /// its own, and otherwise nothing is claimed.
    open spec fn node_visited(&self, after: &Self, shape: Object, r: Result<Self::Output, Self::Error>) -> bool {
        true
    }

    /// Visits the `node` component.
    fn visit_node(&mut self, shape: &Object) -> (r: Result<Self::Output, Self::Error>)
        ensures
            old(self).node_visited(&*final(self), *shape, r),
    ;

    /// What visiting the `has_value` component from `self` leaves the visitor
    /// as (`after`) and yields (`r`); an implementor verified with Verus states
    /// its own, and otherwise nothing is claimed.
    open spec fn has_value_visited(&self, after: &Self, value: Value, r: Result<Self::Output, Self::Error>) -> bool {
        true
    }

    /// Visits the `has_value` component.
    fn visit_has_value(&mut self, value: &Value) -> (r: Result<Self::Output, Self::Error>)
        ensures
            old(self).has_value_visited(&*final(self), *value, r),
    ;

    /// What visiting the `in` component from `self` leaves the visitor
    /// as (`after`) and yields (`r`); an implementor verified with Verus states
    /// its own, and otherwise nothing is claimed.
    open spec fn in_visited(&self, after: &Self, values: Seq<Value>, r: Result<Self::Output, Self::Error>) -> bool {
        true
    }

    /// Visits the `in` component.
    fn visit_in(&mut self, values: &[Value]) -> (r: Result<Self::Output, Self::Error>)
        ensures
            old(self).in_visited(&*final(self), values@, r),
    ;

    /// What visiting the `qualified_value_shape` component from `self` leaves the visitor
    /// as (`after`) and yields (`r`); an implementor verified with Verus states
    /// its own, and otherwise nothing is claimed.
    open spec fn qualified_value_shape_visited(&self, after: &Self, shape: Object, q_min_count: Option<isize>, q_max_count: Option<isize>, disjoint: Option<bool>, siblings: Seq<Object>, r: Result<Self::Output, Self::Error>) -> bool {
        true
    }

    /// Visits the `qualified_value_shape` component.
    fn visit_qualified_value_shape(&mut self, shape: &Object, q_min_count: Option<isize>, q_max_count: Option<isize>, disjoint: Option<bool>, siblings: &[Object]) -> (r: Result<Self::Output, Self::Error>)
        ensures
            old(self).qualified_value_shape_visited(&*final(self), *shape, q_min_count, q_max_count, disjoint, siblings@, r),
    ;

    /// What visiting the `deactivated` component from `self` leaves the visitor
    /// as (`after`) and yields (`r`); an implementor verified with Verus states
    /// its own, and otherwise nothing is claimed.
    open spec fn deactivated_visited(&self, after: &Self, deactivated: bool, r: Result<Self::Output, Self::Error>) -> bool {
        true
    }

    /// Visits the `deactivated` component.
    fn visit_deactivated(&mut self, deactivated: bool) -> (r: Result<Self::Output, Self::Error>)
        ensures
            old(self).deactivated_visited(&*final(self), deactivated, r),
    ;

    /// What visiting the `basic_sparql` component from `self` leaves the visitor
    /// as (`after`) and yields (`r`); an implementor verified with Verus states
    /// its own, and otherwise nothing is claimed.
    open spec fn basic_sparql_visited(&self, after: &Self, select: Seq<char>, message: Option<MessageMap>, deactivated: Option<bool>, prefixes: Option<Vec<(String, String)>>, r: Result<Self::Output, Self::Error>) -> bool {
        true
    }

    /// Visits the `basic_sparql` component.
    fn visit_basic_sparql(&mut self, select: &str, message: Option<&MessageMap>, deactivated: Option<bool>, prefixes: Option<&Vec<(String, String)>>) -> (r: Result<Self::Output, Self::Error>)
        ensures
            old(self).basic_sparql_visited(&*final(self), select@, opt_deref(message), deactivated, opt_deref(prefixes), r),
    ;
}

impl ASTComponent {
    /// Hands this component, with its parameters, to the visitor's method
    /// for its kind.
    pub fn accept<V: ComponentVisitor>(&self, visitor: &mut V) -> (r: Result<V::Output, V::Error>)
        ensures
            match *self {
                ASTComponent::Class(c) => old(visitor).class_visited(&*final(visitor), c, r),
                ASTComponent::Datatype(d) => old(visitor).datatype_visited(&*final(visitor), d, r),
                ASTComponent::NodeKind(k) => old(visitor).node_kind_visited(&*final(visitor), k, r),
                ASTComponent::MinCount(n) => old(visitor).min_count_visited(&*final(visitor), n, r),
                ASTComponent::MaxCount(n) => old(visitor).max_count_visited(&*final(visitor), n, r),
                ASTComponent::MinExclusive(l) => old(visitor).min_exclusive_visited(&*final(visitor), l, r),
                ASTComponent::MaxExclusive(l) => old(visitor).max_exclusive_visited(&*final(visitor), l, r),
                ASTComponent::MinInclusive(l) => old(visitor).min_inclusive_visited(&*final(visitor), l, r),
                ASTComponent::MaxInclusive(l) => old(visitor).max_inclusive_visited(&*final(visitor), l, r),
                ASTComponent::MinLength(n) => old(visitor).min_length_visited(&*final(visitor), n, r),
                ASTComponent::MaxLength(n) => old(visitor).max_length_visited(&*final(visitor), n, r),
                ASTComponent::Pattern { pattern, flags } => old(visitor).pattern_visited(&*final(visitor), pattern@, opt_view(flags), r),
                ASTComponent::UniqueLang(b) => old(visitor).unique_lang_visited(&*final(visitor), b, r),
                ASTComponent::LanguageIn(langs) => old(visitor).language_in_visited(&*final(visitor), langs@, r),
                ASTComponent::Equals(i) => old(visitor).equals_visited(&*final(visitor), i, r),
                ASTComponent::Disjoint(i) => old(visitor).disjoint_visited(&*final(visitor), i, r),
                ASTComponent::LessThan(i) => old(visitor).less_than_visited(&*final(visitor), i, r),
                ASTComponent::LessThanOrEquals(i) => old(visitor).less_than_or_equals_visited(&*final(visitor), i, r),
                ASTComponent::Or(v) => old(visitor).or_visited(&*final(visitor), v@, r),
                ASTComponent::And(v) => old(visitor).and_visited(&*final(visitor), v@, r),
                ASTComponent::Not(s) => old(visitor).not_visited(&*final(visitor), s, r),
                ASTComponent::Xone(v) => old(visitor).xone_visited(&*final(visitor), v@, r),
                ASTComponent::Closed { is_closed, ignored_properties } => old(visitor).closed_visited(&*final(visitor), is_closed, ignored_properties@, r),
                ASTComponent::Node(s) => old(visitor).node_visited(&*final(visitor), s, r),
                ASTComponent::HasValue(v) => old(visitor).has_value_visited(&*final(visitor), v, r),
                ASTComponent::In(v) => old(visitor).in_visited(&*final(visitor), v@, r),
                ASTComponent::QualifiedValueShape { shape, q_min_count, q_max_count, disjoint, siblings } => old(visitor).qualified_value_shape_visited(&*final(visitor), shape, q_min_count, q_max_count, disjoint, siblings@, r),
                ASTComponent::Deactivated(b) => old(visitor).deactivated_visited(&*final(visitor), b, r),
                ASTComponent::BasicSparql { select, message, deactivated, prefixes } => old(visitor).basic_sparql_visited(&*final(visitor), select@, message, deactivated, prefixes, r),
            },
    {
        match self {
            ASTComponent::Class(class) => visitor.visit_class(class),
            ASTComponent::Datatype(dt) => visitor.visit_datatype(dt),
            ASTComponent::NodeKind(nk) => visitor.visit_node_kind(nk),
            ASTComponent::MinCount(n) => visitor.visit_min_count(*n),
            ASTComponent::MaxCount(n) => visitor.visit_max_count(*n),
            ASTComponent::MinExclusive(lit) => visitor.visit_min_exclusive(lit),
            ASTComponent::MaxExclusive(lit) => visitor.visit_max_exclusive(lit),
            ASTComponent::MinInclusive(lit) => visitor.visit_min_inclusive(lit),
            ASTComponent::MaxInclusive(lit) => visitor.visit_max_inclusive(lit),
            ASTComponent::MinLength(n) => visitor.visit_min_length(*n),
            ASTComponent::MaxLength(n) => visitor.visit_max_length(*n),
            ASTComponent::Pattern { pattern, flags } => visitor.visit_pattern(pattern.as_str(), opt_str(flags)),
            ASTComponent::UniqueLang(b) => visitor.visit_unique_lang(*b),
            ASTComponent::LanguageIn(langs) => visitor.visit_language_in(langs.as_slice()),
            ASTComponent::Equals(iri) => visitor.visit_equals(iri),
            ASTComponent::Disjoint(iri) => visitor.visit_disjoint(iri),
            ASTComponent::LessThan(iri) => visitor.visit_less_than(iri),
            ASTComponent::LessThanOrEquals(iri) => visitor.visit_less_than_or_equals(iri),
            ASTComponent::Or(shapes) => visitor.visit_or(shapes.as_slice()),
            ASTComponent::And(shapes) => visitor.visit_and(shapes.as_slice()),
            ASTComponent::Not(shape) => visitor.visit_not(shape),
            ASTComponent::Xone(shapes) => visitor.visit_xone(shapes.as_slice()),
            ASTComponent::Closed { is_closed, ignored_properties } => visitor.visit_closed(*is_closed, ignored_properties.as_slice()),
            ASTComponent::Node(shape) => visitor.visit_node(shape),
            ASTComponent::HasValue(value) => visitor.visit_has_value(value),
            ASTComponent::In(values) => visitor.visit_in(values.as_slice()),
            ASTComponent::QualifiedValueShape { shape, q_min_count, q_max_count, disjoint, siblings } => visitor.visit_qualified_value_shape(shape, *q_min_count, *q_max_count, *disjoint, siblings.as_slice()),
            ASTComponent::Deactivated(b) => visitor.visit_deactivated(*b),
            ASTComponent::BasicSparql { select, message, deactivated, prefixes } => visitor.visit_basic_sparql(select.as_str(), opt_ref(message), *deactivated, opt_ref(prefixes)),
        }
    }
}

/// A fold over one compiled SHACL component. Each kind of component has its
/// own method, and with it a spec function by which the implementor says what
/// a visit of that kind does; an arm that has nothing of its own to do may
/// hand over to `default_component`.
pub trait IRComponentVisitor {
    /// What a visit yields.
    type Output;
    /// What a visit fails with.
    type Error;

    /// The fallback that arms without work of their own may return.
    fn default_component(&mut self) -> Result<Self::Output, Self::Error>;

    /// What visiting the `class` component from `self` leaves the visitor
    /// as (`after`) and yields (`r`); an implementor verified with Verus states
    /// its own, and otherwise nothing is claimed.
    open spec fn class_visited(&self, after: &Self, class: Object, r: Result<Self::Output, Self::Error>) -> bool {
        true
    }

    /// Visits the `class` component.
    fn visit_class(&mut self, class: &Object) -> (r: Result<Self::Output, Self::Error>)
        ensures
            old(self).class_visited(&*final(self), *class, r),
    ;

    /// What visiting the `datatype` component from `self` leaves the visitor
    /// as (`after`) and yields (`r`); an implementor verified with Verus states
    /// its own, and otherwise nothing is claimed.
    open spec fn datatype_visited(&self, after: &Self, datatype: Seq<char>, r: Result<Self::Output, Self::Error>) -> bool {
        true
    }

    /// Visits the `datatype` component.
    fn visit_datatype(&mut self, datatype: &str) -> (r: Result<Self::Output, Self::Error>)
        ensures
            old(self).datatype_visited(&*final(self), datatype@, r),
    ;

    /// What visiting the `node_kind` component from `self` leaves the visitor
    /// as (`after`) and yields (`r`); an implementor verified with Verus states
    /// its own, and otherwise nothing is claimed.
    open spec fn node_kind_visited(&self, after: &Self, node_kind: NodeKind, r: Result<Self::Output, Self::Error>) -> bool {
        true
    }

    /// Visits the `node_kind` component.
    fn visit_node_kind(&mut self, node_kind: &NodeKind) -> (r: Result<Self::Output, Self::Error>)
        ensures
            old(self).node_kind_visited(&*final(self), *node_kind, r),
    ;

    /// What visiting the `min_count` component from `self` leaves the visitor
    /// as (`after`) and yields (`r`); an implementor verified with Verus states
    /// its own, and otherwise nothing is claimed.
    open spec fn min_count_visited(&self, after: &Self, count: isize, r: Result<Self::Output, Self::Error>) -> bool {
        true
    }

    /// Visits the `min_count` component.
    fn visit_min_count(&mut self, count: isize) -> (r: Result<Self::Output, Self::Error>)
        ensures
            old(self).min_count_visited(&*final(self), count, r),
    ;

    /// What visiting the `max_count` component from `self` leaves the visitor
    /// as (`after`) and yields (`r`); an implementor verified with Verus states
    /// its own, and otherwise nothing is claimed.
    open spec fn max_count_visited(&self, after: &Self, count: isize, r: Result<Self::Output, Self::Error>) -> bool {
        true
    }

    /// Visits the `max_count` component.
    fn visit_max_count(&mut self, count: isize) -> (r: Result<Self::Output, Self::Error>)
        ensures
            old(self).max_count_visited(&*final(self), count, r),
    ;

    /// What visiting the `min_exclusive` component from `self` leaves the visitor
    /// as (`after`) and yields (`r`); an implementor verified with Verus states
    /// its own, and otherwise nothing is claimed.
    open spec fn min_exclusive_visited(&self, after: &Self, lit: Literal, r: Result<Self::Output, Self::Error>) -> bool {
        true
    }

    /// Visits the `min_exclusive` component.
    fn visit_min_exclusive(&mut self, lit: &Literal) -> (r: Result<Self::Output, Self::Error>)
        ensures
            old(self).min_exclusive_visited(&*final(self), *lit, r),
    ;

    /// What visiting the `max_exclusive` component from `self` leaves the visitor
    /// as (`after`) and yields (`r`); an implementor verified with Verus states
    /// its own, and otherwise nothing is claimed.
    open spec fn max_exclusive_visited(&self, after: &Self, lit: Literal, r: Result<Self::Output, Self::Error>) -> bool {
        true
    }

    /// Visits the `max_exclusive` component.
    fn visit_max_exclusive(&mut self, lit: &Literal) -> (r: Result<Self::Output, Self::Error>)
        ensures
            old(self).max_exclusive_visited(&*final(self), *lit, r),
    ;

    /// What visiting the `min_inclusive` component from `self` leaves the visitor
    /// as (`after`) and yields (`r`); an implementor verified with Verus states
    /// its own, and otherwise nothing is claimed.
    open spec fn min_inclusive_visited(&self, after: &Self, lit: Literal, r: Result<Self::Output, Self::Error>) -> bool {
        true
    }

    /// Visits the `min_inclusive` component.
    fn visit_min_inclusive(&mut self, lit: &Literal) -> (r: Result<Self::Output, Self::Error>)
        ensures
            old(self).min_inclusive_visited(&*final(self), *lit, r),
    ;

    /// What visiting the `max_inclusive` component from `self` leaves the visitor
    /// as (`after`) and yields (`r`); an implementor verified with Verus states
    /// its own, and otherwise nothing is claimed.
    open spec fn max_inclusive_visited(&self, after: &Self, lit: Literal, r: Result<Self::Output, Self::Error>) -> bool {
        true
    }

    /// Visits the `max_inclusive` component.
    fn visit_max_inclusive(&mut self, lit: &Literal) -> (r: Result<Self::Output, Self::Error>)
        ensures
            old(self).max_inclusive_visited(&*final(self), *lit, r),
    ;

    /// What visiting the `min_length` component from `self` leaves the visitor
    /// as (`after`) and yields (`r`); an implementor verified with Verus states
    /// its own, and otherwise nothing is claimed.
    open spec fn min_length_visited(&self, after: &Self, len: isize, r: Result<Self::Output, Self::Error>) -> bool {
        true
    }

    /// Visits the `min_length` component.
    fn visit_min_length(&mut self, len: isize) -> (r: Result<Self::Output, Self::Error>)
        ensures
            old(self).min_length_visited(&*final(self), len, r),
    ;

    /// What visiting the `max_length` component from `self` leaves the visitor
    /// as (`after`) and yields (`r`); an implementor verified with Verus states
    /// its own, and otherwise nothing is claimed.
    open spec fn max_length_visited(&self, after: &Self, len: isize, r: Result<Self::Output, Self::Error>) -> bool {
        true
    }

    /// Visits the `max_length` component.
    fn visit_max_length(&mut self, len: isize) -> (r: Result<Self::Output, Self::Error>)
        ensures
            old(self).max_length_visited(&*final(self), len, r),
    ;

    /// What visiting the `pattern` component from `self` leaves the visitor
    /// as (`after`) and yields (`r`); an implementor verified with Verus states
    /// its own, and otherwise nothing is claimed.
    open spec fn pattern_visited(&self, after: &Self, pattern: Pattern, r: Result<Self::Output, Self::Error>) -> bool {
        true
    }

    /// Visits the `pattern` component.
    fn visit_pattern(&mut self, pattern: &Pattern) -> (r: Result<Self::Output, Self::Error>)
        ensures
            old(self).pattern_visited(&*final(self), *pattern, r),
    ;

    /// What visiting the `unique_lang` component from `self` leaves the visitor
    /// as (`after`) and yields (`r`); an implementor verified with Verus states
    /// its own, and otherwise nothing is claimed.
    open spec fn unique_lang_visited(&self, after: &Self, unique: bool, r: Result<Self::Output, Self::Error>) -> bool {
        true
    }

    /// Visits the `unique_lang` component.
    fn visit_unique_lang(&mut self, unique: bool) -> (r: Result<Self::Output, Self::Error>)
        ensures
            old(self).unique_lang_visited(&*final(self), unique, r),
    ;

    /// What visiting the `language_in` component from `self` leaves the visitor
    /// as (`after`) and yields (`r`); an implementor verified with Verus states
    /// its own, and otherwise nothing is claimed.
    open spec fn language_in_visited(&self, after: &Self, langs: Seq<String>, r: Result<Self::Output, Self::Error>) -> bool {
        true
    }

    /// Visits the `language_in` component.
    fn visit_language_in(&mut self, langs: &[String]) -> (r: Result<Self::Output, Self::Error>)
        ensures
            old(self).language_in_visited(&*final(self), langs@, r),
    ;

    /// What visiting the `equals` component from `self` leaves the visitor
    /// as (`after`) and yields (`r`); an implementor verified with Verus states
    /// its own, and otherwise nothing is claimed.
    open spec fn equals_visited(&self, after: &Self, iri: Seq<char>, r: Result<Self::Output, Self::Error>) -> bool {
        true
    }

    /// Visits the `equals` component.
    fn visit_equals(&mut self, iri: &str) -> (r: Result<Self::Output, Self::Error>)
        ensures
            old(self).equals_visited(&*final(self), iri@, r),
    ;

    /// What visiting the `disjoint` component from `self` leaves the visitor
    /// as (`after`) and yields (`r`); an implementor verified with Verus states
    /// its own, and otherwise nothing is claimed.
    open spec fn disjoint_visited(&self, after: &Self, iri: Seq<char>, r: Result<Self::Output, Self::Error>) -> bool {
        true
    }

    /// Visits the `disjoint` component.
    fn visit_disjoint(&mut self, iri: &str) -> (r: Result<Self::Output, Self::Error>)
        ensures
            old(self).disjoint_visited(&*final(self), iri@, r),
    ;

    /// What visiting the `less_than` component from `self` leaves the visitor
    /// as (`after`) and yields (`r`); an implementor verified with Verus states
    /// its own, and otherwise nothing is claimed.
    open spec fn less_than_visited(&self, after: &Self, iri: Seq<char>, r: Result<Self::Output, Self::Error>) -> bool {
        true
    }

    /// Visits the `less_than` component.
    fn visit_less_than(&mut self, iri: &str) -> (r: Result<Self::Output, Self::Error>)
        ensures
            old(self).less_than_visited(&*final(self), iri@, r),
    ;

    /// What visiting the `less_than_or_equals` component from `self` leaves the visitor
    /// as (`after`) and yields (`r`); an implementor verified with Verus states
    /// its own, and otherwise nothing is claimed.
    open spec fn less_than_or_equals_visited(&self, after: &Self, iri: Seq<char>, r: Result<Self::Output, Self::Error>) -> bool {
        true
    }

    /// Visits the `less_than_or_equals` component.
    fn visit_less_than_or_equals(&mut self, iri: &str) -> (r: Result<Self::Output, Self::Error>)
        ensures
            old(self).less_than_or_equals_visited(&*final(self), iri@, r),
    ;

    /// What visiting the `or` component from `self` leaves the visitor
    /// as (`after`) and yields (`r`); an implementor verified with Verus states
    /// its own, and otherwise nothing is claimed.
    open spec fn or_visited(&self, after: &Self, shapes: Seq<usize>, r: Result<Self::Output, Self::Error>) -> bool {
        true
    }

    /// Visits the `or` component.
    fn visit_or(&mut self, shapes: &[usize]) -> (r: Result<Self::Output, Self::Error>)
        ensures
            old(self).or_visited(&*final(self), shapes@, r),
    ;

    /// What visiting the `and` component from `self` leaves the visitor
    /// as (`after`) and yields (`r`); an implementor verified with Verus states
    /// its own, and otherwise nothing is claimed.
    open spec fn and_visited(&self, after: &Self, shapes: Seq<usize>, r: Result<Self::Output, Self::Error>) -> bool {
        true
    }

    /// Visits the `and` component.
    fn visit_and(&mut self, shapes: &[usize]) -> (r: Result<Self::Output, Self::Error>)
        ensures
            old(self).and_visited(&*final(self), shapes@, r),
    ;

    /// What visiting the `not` component from `self` leaves the visitor
    /// as (`after`) and yields (`r`); an implementor verified with Verus states
    /// its own, and otherwise nothing is claimed.
    open spec fn not_visited(&self, after: &Self, shape: usize, r: Result<Self::Output, Self::Error>) -> bool {
        true
    }

    /// Visits the `not` component.
    fn visit_not(&mut self, shape: usize) -> (r: Result<Self::Output, Self::Error>)
        ensures
            old(self).not_visited(&*final(self), shape, r),
    ;

    /// What visiting the `xone` component from `self` leaves the visitor
    /// as (`after`) and yields (`r`); an implementor verified with Verus states
    /// its own, and otherwise nothing is claimed.
    open spec fn xone_visited(&self, after: &Self, shapes: Seq<usize>, r: Result<Self::Output, Self::Error>) -> bool {
        true
    }

    /// Visits the `xone` component.
    fn visit_xone(&mut self, shapes: &[usize]) -> (r: Result<Self::Output, Self::Error>)
        ensures
            old(self).xone_visited(&*final(self), shapes@, r),
    ;

    /// What visiting the `node` component from `self` leaves the visitor
    /// as (`after`) and yields (`r`); an implementor verified with Verus states
    /// its own, and otherwise nothing is claimed.
    open spec fn node_visited(&self, after: &Self, shape: usize, r: Result<Self::Output, Self::Error>) -> bool {
        true
    }

    /// Visits the `node` component.
    fn visit_node(&mut self, shape: usize) -> (r: Result<Self::Output, Self::Error>)
        ensures
            old(self).node_visited(&*final(self), shape, r),
    ;

    /// What visiting the `qualified_value_shape` component from `self` leaves the visitor
    /// as (`after`) and yields (`r`); an implementor verified with Verus states
    /// its own, and otherwise nothing is claimed.
    open spec fn qualified_value_shape_visited(&self, after: &Self, qvs: QualifiedValueShape, r: Result<Self::Output, Self::Error>) -> bool {
        true
    }

    /// Visits the `qualified_value_shape` component.
    fn visit_qualified_value_shape(&mut self, qvs: &QualifiedValueShape) -> (r: Result<Self::Output, Self::Error>)
        ensures
            old(self).qualified_value_shape_visited(&*final(self), *qvs, r),
    ;

    /// What visiting the `closed` component from `self` leaves the visitor
    /// as (`after`) and yields (`r`); an implementor verified with Verus states
    /// its own, and otherwise nothing is claimed.
    open spec fn closed_visited(&self, after: &Self, closed: Closed, r: Result<Self::Output, Self::Error>) -> bool {
        true
    }

    /// Visits the `closed` component.
    fn visit_closed(&mut self, closed: &Closed) -> (r: Result<Self::Output, Self::Error>)
        ensures
            old(self).closed_visited(&*final(self), *closed, r),
    ;

    /// What visiting the `has_value` component from `self` leaves the visitor
    /// as (`after`) and yields (`r`); an implementor verified with Verus states
    /// its own, and otherwise nothing is claimed.
    open spec fn has_value_visited(&self, after: &Self, value: Object, r: Result<Self::Output, Self::Error>) -> bool {
        true
    }

    /// Visits the `has_value` component.
    fn visit_has_value(&mut self, value: &Object) -> (r: Result<Self::Output, Self::Error>)
        ensures
            old(self).has_value_visited(&*final(self), *value, r),
    ;

    /// What visiting the `in` component from `self` leaves the visitor
    /// as (`after`) and yields (`r`); an implementor verified with Verus states
    /// its own, and otherwise nothing is claimed.
    open spec fn in_visited(&self, after: &Self, values: Seq<Object>, r: Result<Self::Output, Self::Error>) -> bool {
        true
    }

    /// Visits the `in` component.
    fn visit_in(&mut self, values: &[Object]) -> (r: Result<Self::Output, Self::Error>)
        ensures
            old(self).in_visited(&*final(self), values@, r),
    ;

    /// What visiting the `deactivated` component from `self` leaves the visitor
    /// as (`after`) and yields (`r`); an implementor verified with Verus states
    /// its own, and otherwise nothing is claimed.
    open spec fn deactivated_visited(&self, after: &Self, deactivated: bool, r: Result<Self::Output, Self::Error>) -> bool {
        true
    }

    /// Visits the `deactivated` component.
    fn visit_deactivated(&mut self, deactivated: bool) -> (r: Result<Self::Output, Self::Error>)
        ensures
            old(self).deactivated_visited(&*final(self), deactivated, r),
    ;

    /// What visiting the `basic_sparql` component from `self` leaves the visitor
    /// as (`after`) and yields (`r`); an implementor verified with Verus states
    /// its own, and otherwise nothing is claimed.
    open spec fn basic_sparql_visited(&self, after: &Self, sparql: BasicSparql, r: Result<Self::Output, Self::Error>) -> bool {
        true
    }

    /// Visits the `basic_sparql` component.
    fn visit_basic_sparql(&mut self, sparql: &BasicSparql) -> (r: Result<Self::Output, Self::Error>)
        ensures
            old(self).basic_sparql_visited(&*final(self), *sparql, r),
    ;
}

impl IRComponent {
    /// Hands this compiled component, with its parameters, to the visitor's
    /// method for its kind.
    pub fn accept<V: IRComponentVisitor>(&self, visitor: &mut V) -> (r: Result<V::Output, V::Error>)
        ensures
            match *self {
                IRComponent::Class(c) => old(visitor).class_visited(&*final(visitor), c, r),
                IRComponent::Datatype(d) => old(visitor).datatype_visited(&*final(visitor), d@, r),
                IRComponent::NodeKind(k) => old(visitor).node_kind_visited(&*final(visitor), k, r),
                IRComponent::MinCount(n) => old(visitor).min_count_visited(&*final(visitor), n, r),
                IRComponent::MaxCount(n) => old(visitor).max_count_visited(&*final(visitor), n, r),
                IRComponent::MinExclusive(l) => old(visitor).min_exclusive_visited(&*final(visitor), l, r),
                IRComponent::MaxExclusive(l) => old(visitor).max_exclusive_visited(&*final(visitor), l, r),
                IRComponent::MinInclusive(l) => old(visitor).min_inclusive_visited(&*final(visitor), l, r),
                IRComponent::MaxInclusive(l) => old(visitor).max_inclusive_visited(&*final(visitor), l, r),
                IRComponent::MinLength(n) => old(visitor).min_length_visited(&*final(visitor), n, r),
                IRComponent::MaxLength(n) => old(visitor).max_length_visited(&*final(visitor), n, r),
                IRComponent::Pattern(p) => old(visitor).pattern_visited(&*final(visitor), p, r),
                IRComponent::UniqueLang(b) => old(visitor).unique_lang_visited(&*final(visitor), b, r),
                IRComponent::LanguageIn(langs) => old(visitor).language_in_visited(&*final(visitor), langs@, r),
                IRComponent::Equals(i) => old(visitor).equals_visited(&*final(visitor), i@, r),
                IRComponent::Disjoint(i) => old(visitor).disjoint_visited(&*final(visitor), i@, r),
                IRComponent::LessThan(i) => old(visitor).less_than_visited(&*final(visitor), i@, r),
                IRComponent::LessThanOrEquals(i) => old(visitor).less_than_or_equals_visited(&*final(visitor), i@, r),
                IRComponent::Or(v) => old(visitor).or_visited(&*final(visitor), v@, r),
                IRComponent::And(v) => old(visitor).and_visited(&*final(visitor), v@, r),
                IRComponent::Not(s) => old(visitor).not_visited(&*final(visitor), s, r),
                IRComponent::Xone(v) => old(visitor).xone_visited(&*final(visitor), v@, r),
                IRComponent::Node(s) => old(visitor).node_visited(&*final(visitor), s, r),
                IRComponent::QualifiedValueShape(q) => old(visitor).qualified_value_shape_visited(&*final(visitor), q, r),
                IRComponent::Closed(c) => old(visitor).closed_visited(&*final(visitor), c, r),
                IRComponent::HasValue(o) => old(visitor).has_value_visited(&*final(visitor), o, r),
                IRComponent::In(v) => old(visitor).in_visited(&*final(visitor), v@, r),
                IRComponent::Deactivated(b) => old(visitor).deactivated_visited(&*final(visitor), b, r),
                IRComponent::BasicSparql(s) => old(visitor).basic_sparql_visited(&*final(visitor), s, r),
            },
    {
        match self {
            IRComponent::Class(class) => visitor.visit_class(class),
            IRComponent::Datatype(dt) => visitor.visit_datatype(dt.as_str()),
            IRComponent::NodeKind(nk) => visitor.visit_node_kind(nk),
            IRComponent::MinCount(n) => visitor.visit_min_count(*n),
            IRComponent::MaxCount(n) => visitor.visit_max_count(*n),
            IRComponent::MinExclusive(lit) => visitor.visit_min_exclusive(lit),
            IRComponent::MaxExclusive(lit) => visitor.visit_max_exclusive(lit),
            IRComponent::MinInclusive(lit) => visitor.visit_min_inclusive(lit),
            IRComponent::MaxInclusive(lit) => visitor.visit_max_inclusive(lit),
            IRComponent::MinLength(n) => visitor.visit_min_length(*n),
            IRComponent::MaxLength(n) => visitor.visit_max_length(*n),
            IRComponent::Pattern(p) => visitor.visit_pattern(p),
            IRComponent::UniqueLang(b) => visitor.visit_unique_lang(*b),
            IRComponent::LanguageIn(langs) => visitor.visit_language_in(langs.as_slice()),
            IRComponent::Equals(iri) => visitor.visit_equals(iri.as_str()),
            IRComponent::Disjoint(iri) => visitor.visit_disjoint(iri.as_str()),
            IRComponent::LessThan(iri) => visitor.visit_less_than(iri.as_str()),
            IRComponent::LessThanOrEquals(iri) => visitor.visit_less_than_or_equals(iri.as_str()),
            IRComponent::Or(shapes) => visitor.visit_or(shapes.as_slice()),
            IRComponent::And(shapes) => visitor.visit_and(shapes.as_slice()),
            IRComponent::Not(shape) => visitor.visit_not(*shape),
            IRComponent::Xone(shapes) => visitor.visit_xone(shapes.as_slice()),
            IRComponent::Node(shape) => visitor.visit_node(*shape),
            IRComponent::QualifiedValueShape(q) => visitor.visit_qualified_value_shape(q),
            IRComponent::Closed(c) => visitor.visit_closed(c),
            IRComponent::HasValue(v) => visitor.visit_has_value(v),
            IRComponent::In(values) => visitor.visit_in(values.as_slice()),
            IRComponent::Deactivated(b) => visitor.visit_deactivated(*b),
            IRComponent::BasicSparql(s) => visitor.visit_basic_sparql(s),
        }
    }
}

} // verus!
