//! The textual form of compiled components.
use vstd::prelude::*;
use crate::ast::{bool_text, objects_text, opt_bool_text, opt_int_text, show_bool, show_objects, show_opt_bool, show_opt_int};
use crate::ir::IRComponent;
use crate::term::{show_literal, show_object};
use crate::text::{concat2, concat3, decimal, isize_decimal, join, push_str, seq_join, u64_digits, views};
use crate::types::NodeKind;

verus! {

/// The name of a node kind's variant.
pub open spec fn node_kind_name(nk: NodeKind) -> Seq<char> {
    match nk {
        NodeKind::Iri => "Iri"@,
        NodeKind::Lit => "Lit"@,
        NodeKind::BNode => "BNode"@,
        NodeKind::BNodeOrIri => "BNodeOrIri"@,
        NodeKind::BNodeOrLit => "BNodeOrLit"@,
        NodeKind::IriOrLit => "IriOrLit"@,
    }
}

/// Shape indexes joined with `, `.
pub open spec fn show_indexes(v: Seq<usize>) -> Seq<char> {
    seq_join(v.map_values(|i: usize| decimal(i as int)), ", "@)
}

/// The textual form of a compiled component: a leading space, the
/// component's name, `: ` and its parameters. A component that holds a
/// compiled structure (pattern, closed, qualified value shape, SPARQL) shows
/// that structure's fields, and shape references show their indexes.
pub open spec fn show_ir_component(c: IRComponent) -> Seq<char> {
    match c {
        IRComponent::Class(o) => " Class: "@ + show_object(o@),
        IRComponent::Datatype(d) => " Datatype: "@ + d@,
        IRComponent::NodeKind(nk) => " NodeKind: "@ + node_kind_name(nk),
        IRComponent::MinCount(n) => " MinCount: "@ + decimal(n as int),
        IRComponent::MaxCount(n) => " MaxCount: "@ + decimal(n as int),
        IRComponent::MinExclusive(l) => " MinExclusive: "@ + show_literal(l@),
        IRComponent::MaxExclusive(l) => " MaxExclusive: "@ + show_literal(l@),
        IRComponent::MinInclusive(l) => " MinInclusive: "@ + show_literal(l@),
        IRComponent::MaxInclusive(l) => " MaxInclusive: "@ + show_literal(l@),
        IRComponent::MinLength(n) => " MinLength: "@ + decimal(n as int),
        IRComponent::MaxLength(n) => " MaxLength: "@ + decimal(n as int),
        IRComponent::Pattern(p) => " Pattern: "@ + p.pattern@ + match p.flags {
            Some(f) => ", flags: "@ + f@,
            None => Seq::empty(),
        },
        IRComponent::UniqueLang(b) => " UniqueLang: "@ + show_bool(b),
        IRComponent::LanguageIn(ls) => " LanguageIn: ["@ + seq_join(views(ls@), ", "@) + "]"@,
        IRComponent::Equals(p) => " Equals: "@ + p@,
        IRComponent::Disjoint(p) => " Disjoint: "@ + p@,
        IRComponent::LessThan(p) => " LessThan: "@ + p@,
        IRComponent::LessThanOrEquals(p) => " LessThanOrEquals: "@ + p@,
        IRComponent::Or(v) => " Or: ["@ + show_indexes(v@) + "]"@,
        IRComponent::And(v) => " And: ["@ + show_indexes(v@) + "]"@,
        IRComponent::Not(i) => " Not: "@ + decimal(i as int),
        IRComponent::Xone(v) => " Xone: ["@ + show_indexes(v@) + "]"@,
        IRComponent::Node(i) => " Node: "@ + decimal(i as int),
        IRComponent::HasValue(o) => " HasValue(HasValue: "@ + show_object(o@) + ")"@,
        IRComponent::In(v) => " In["@ + show_objects(v@) + "]"@,
        IRComponent::QualifiedValueShape(q) => " QualifiedValueShape: shape: "@ + decimal(q.shape as int)
            + ", qualified_min_count: "@ + show_opt_int(q.qualified_min_count) + ", qualified_max_count: "@
            + show_opt_int(q.qualified_max_count) + ", qualified_value_shapes_disjoint: "@ + show_opt_bool(
            q.qualified_value_shapes_disjoint,
        ) + ", siblings: ["@ + show_indexes(q.siblings@) + "]"@,
        IRComponent::Closed(c) => "Closed: "@ + show_bool(c.is_closed) + ", ignored: ["@ + seq_join(
            views(c.ignored_properties@),
            ", "@,
        ) + "]"@,
        IRComponent::Deactivated(b) => "Deactivated: "@ + show_bool(b),
        IRComponent::BasicSparql(s) => " BasicSparql: "@ + s.select@,
    }
}

fn node_kind_text(nk: &NodeKind) -> (r: String)
    ensures
        r@ == node_kind_name(*nk),
{
    match nk {
        NodeKind::Iri => "Iri".to_string(),
        NodeKind::Lit => "Lit".to_string(),
        NodeKind::BNode => "BNode".to_string(),
        NodeKind::BNodeOrIri => "BNodeOrIri".to_string(),
        NodeKind::BNodeOrLit => "BNodeOrLit".to_string(),
        NodeKind::IriOrLit => "IriOrLit".to_string(),
    }
}

fn index_text(i: usize) -> (r: String)
    ensures
        r@ == decimal(i as int),
{
    u64_digits(i as u64)
}

fn indexes_text(v: &Vec<usize>) -> (r: String)
    ensures
        r@ == show_indexes(v@),
{
    let mut parts: Vec<String> = Vec::new();
    let mut i: usize = 0;
    while i < v.len()
        invariant
            i <= v.len(),
            views(parts@) == v@.take(i as int).map_values(|x: usize| decimal(x as int)),
        decreases v.len() - i,
    {
        let s = index_text(v[i]);
        let ghost before = parts@;
        parts.push(s);
        assert(views(parts@) =~= views(before).push(s@));
        assert(v@.take(i as int + 1) =~= v@.take(i as int).push(v@[i as int]));
        assert(v@.take(i as int + 1).map_values(|x: usize| decimal(x as int)) =~= v@.take(i as int).map_values(
            |x: usize| decimal(x as int),
        ).push(s@));
        i = i + 1;
    }
    assert(v@.take(v.len() as int) =~= v@);
    join(&parts, ", ")
}

impl IRComponent {
    /// The textual form of this component.
    pub fn to_display(&self) -> (r: String)
        ensures
            r@ == show_ir_component(*self),
    {
        match self {
            IRComponent::Class(o) => concat2(" Class: ", o.to_display().as_str()),
            IRComponent::Datatype(d) => concat2(" Datatype: ", d.as_str()),
            IRComponent::NodeKind(nk) => concat2(" NodeKind: ", node_kind_text(nk).as_str()),
            IRComponent::MinCount(n) => concat2(" MinCount: ", isize_decimal(*n).as_str()),
            IRComponent::MaxCount(n) => concat2(" MaxCount: ", isize_decimal(*n).as_str()),
            IRComponent::MinExclusive(l) => concat2(" MinExclusive: ", l.to_display().as_str()),
            IRComponent::MaxExclusive(l) => concat2(" MaxExclusive: ", l.to_display().as_str()),
            IRComponent::MinInclusive(l) => concat2(" MinInclusive: ", l.to_display().as_str()),
            IRComponent::MaxInclusive(l) => concat2(" MaxInclusive: ", l.to_display().as_str()),
            IRComponent::MinLength(n) => concat2(" MinLength: ", isize_decimal(*n).as_str()),
            IRComponent::MaxLength(n) => concat2(" MaxLength: ", isize_decimal(*n).as_str()),
            IRComponent::Pattern(p) => {
                let mut r = concat2(" Pattern: ", p.pattern.as_str());
                match &p.flags {
                    Some(f) => {
                        push_str(&mut r, ", flags: ");
                        push_str(&mut r, f.as_str());
                    },
                    None => {},
                }
                r
            },
            IRComponent::UniqueLang(b) => concat2(" UniqueLang: ", bool_text(*b).as_str()),
            IRComponent::LanguageIn(ls) => concat3(" LanguageIn: [", join(ls, ", ").as_str(), "]"),
            IRComponent::Equals(p) => concat2(" Equals: ", p.as_str()),
            IRComponent::Disjoint(p) => concat2(" Disjoint: ", p.as_str()),
            IRComponent::LessThan(p) => concat2(" LessThan: ", p.as_str()),
            IRComponent::LessThanOrEquals(p) => concat2(" LessThanOrEquals: ", p.as_str()),
            IRComponent::Or(v) => concat3(" Or: [", indexes_text(v).as_str(), "]"),
            IRComponent::And(v) => concat3(" And: [", indexes_text(v).as_str(), "]"),
            IRComponent::Not(i) => concat2(" Not: ", index_text(*i).as_str()),
            IRComponent::Xone(v) => concat3(" Xone: [", indexes_text(v).as_str(), "]"),
            IRComponent::Node(i) => concat2(" Node: ", index_text(*i).as_str()),
            IRComponent::HasValue(o) => concat3(" HasValue(HasValue: ", o.to_display().as_str(), ")"),
            IRComponent::In(v) => concat3(" In[", objects_text(v).as_str(), "]"),
            IRComponent::QualifiedValueShape(q) => {
                let mut r = concat2(" QualifiedValueShape: shape: ", index_text(q.shape).as_str());
                push_str(&mut r, ", qualified_min_count: ");
                push_str(&mut r, opt_int_text(q.qualified_min_count).as_str());
                push_str(&mut r, ", qualified_max_count: ");
                push_str(&mut r, opt_int_text(q.qualified_max_count).as_str());
                push_str(&mut r, ", qualified_value_shapes_disjoint: ");
                push_str(&mut r, opt_bool_text(q.qualified_value_shapes_disjoint).as_str());
                push_str(&mut r, ", siblings: [");
                push_str(&mut r, indexes_text(&q.siblings).as_str());
                push_str(&mut r, "]");
                r
            },
            IRComponent::Closed(c) => {
                let mut r = concat2("Closed: ", bool_text(c.is_closed).as_str());
                push_str(&mut r, ", ignored: [");
                push_str(&mut r, join(&c.ignored_properties, ", ").as_str());
                push_str(&mut r, "]");
                r
            },
            IRComponent::Deactivated(b) => concat2("Deactivated: ", bool_text(*b).as_str()),
            IRComponent::BasicSparql(s) => concat2(" BasicSparql: ", s.select.as_str()),
        }
    }
}

} // verus!
