//! Orders on terms: a structural total order (for sorting) and the partial
//! SPARQL value order, with the laws that make the first a total order.
use vstd::prelude::*;
use std::cmp::Ordering;
use crate::term::{IriOrBlankNode, Literal, LiteralV, Object, ObjectV, SubjectV};
use crate::text::{code, compare_chars, i64_int, lex_sign};

verus! {

/// The opposite order.
pub open spec fn flip(o: Ordering) -> Ordering {
    match o {
        Ordering::Less => Ordering::Greater,
        Ordering::Equal => Ordering::Equal,
        Ordering::Greater => Ordering::Less,
    }
}

/// Lexicographic order of character sequences by code point.
pub open spec fn lex_order(a: Seq<char>, b: Seq<char>) -> Ordering
    decreases a.len(),
{
    if a.len() == 0 {
        if b.len() == 0 { Ordering::Equal } else { Ordering::Less }
    } else if b.len() == 0 {
        Ordering::Greater
    } else if code(a[0]) < code(b[0]) {
        Ordering::Less
    } else if code(a[0]) > code(b[0]) {
        Ordering::Greater
    } else {
        lex_order(a.drop_first(), b.drop_first())
    }
}

/// Numeric order of integers.
pub open spec fn int_order(a: int, b: int) -> Ordering {
    if a < b { Ordering::Less } else if a == b { Ordering::Equal } else { Ordering::Greater }
}

/// Then-combinator of orders: the first unless it is `Equal`.
pub open spec fn then_order(first: Ordering, second: Ordering) -> Ordering {
    if first == Ordering::Equal { second } else { first }
}

/// The lexicographic order is the one whose sign [`lex_sign`] gives.
proof fn lemma_lex_sign(a: Seq<char>, b: Seq<char>)
    ensures
        lex_order(a, b) == (if lex_sign(a, b) < 0 {
            Ordering::Less
        } else if lex_sign(a, b) == 0 {
            Ordering::Equal
        } else {
            Ordering::Greater
        }),
    decreases a.len(),
{
    if a.len() > 0 && b.len() > 0 && code(a[0]) == code(b[0]) {
        lemma_lex_sign(a.drop_first(), b.drop_first());
    }
}

/// Compares two strings character by character, by code point.
pub fn compare_text(a: &str, b: &str) -> (r: Ordering)
    ensures
        r == lex_order(a@, b@),
{
    let s = compare_chars(a, b);
    proof {
        lemma_lex_sign(a@, b@);
    }
    if s < 0 {
        Ordering::Less
    } else if s == 0 {
        Ordering::Equal
    } else {
        Ordering::Greater
    }
}

fn compare_i64(a: i64, b: i64) -> (r: Ordering)
    ensures
        r == int_order(i64_int(a), i64_int(b)),
{
    if a < b {
        Ordering::Less
    } else if a == b {
        Ordering::Equal
    } else {
        Ordering::Greater
    }
}

/// Order of optional strings: absent before present.
pub open spec fn opt_lex_order(a: Option<Seq<char>>, b: Option<Seq<char>>) -> Ordering {
    match (a, b) {
        (None, None) => Ordering::Equal,
        (None, Some(_)) => Ordering::Less,
        (Some(_), None) => Ordering::Greater,
        (Some(x), Some(y)) => lex_order(x, y),
    }
}

/// The rank of a literal's kind in the order of literals.
pub open spec fn literal_rank(l: LiteralV) -> int {
    match l {
        LiteralV::Str { .. } => 0,
        LiteralV::Typed { .. } => 1,
        LiteralV::Int(_) => 2,
        LiteralV::Bool(_) => 3,
    }
}

/// `false` before `true`.
pub open spec fn bool_rank(b: bool) -> int {
    if b { 1 } else { 0 }
}

/// Structural total order of literals.
pub open spec fn literal_order(a: LiteralV, b: LiteralV) -> Ordering {
    match (a, b) {
        (LiteralV::Str { lexical: x, lang: lx }, LiteralV::Str { lexical: y, lang: ly }) =>
            then_order(lex_order(x, y), opt_lex_order(lx, ly)),
        (LiteralV::Typed { lexical: x, datatype: dx }, LiteralV::Typed { lexical: y, datatype: dy }) =>
            then_order(lex_order(x, y), lex_order(dx, dy)),
        (LiteralV::Int(x), LiteralV::Int(y)) => int_order(x, y),
        (LiteralV::Bool(x), LiteralV::Bool(y)) => int_order(bool_rank(x), bool_rank(y)),
        _ => int_order(literal_rank(a), literal_rank(b)),
    }
}

/// IRIs before blank nodes.
pub open spec fn subject_rank(s: SubjectV) -> int {
    match s {
        SubjectV::Iri(_) => 0,
        SubjectV::BlankNode(_) => 1,
    }
}

/// Structural total order of subjects: IRIs before blank nodes.
pub open spec fn subject_order(a: SubjectV, b: SubjectV) -> Ordering {
    match (a, b) {
        (SubjectV::Iri(x), SubjectV::Iri(y)) => lex_order(x, y),
        (SubjectV::BlankNode(x), SubjectV::BlankNode(y)) => lex_order(x, y),
        _ => int_order(subject_rank(a), subject_rank(b)),
    }
}

/// Rank of an object's variant: IRI < blank node < literal < quoted triple.
pub open spec fn object_rank(o: ObjectV) -> int {
    match o {
        ObjectV::Iri(_) => 0,
        ObjectV::BlankNode(_) => 1,
        ObjectV::Literal(_) => 2,
        ObjectV::Triple { .. } => 3,
    }
}

/// Structural total order of objects: first by variant rank, then by content.
pub open spec fn object_order(a: ObjectV, b: ObjectV) -> Ordering
    decreases a,
{
    match (a, b) {
        (ObjectV::Iri(x), ObjectV::Iri(y)) => lex_order(x, y),
        (ObjectV::BlankNode(x), ObjectV::BlankNode(y)) => lex_order(x, y),
        (ObjectV::Literal(x), ObjectV::Literal(y)) => literal_order(x, y),
        (
            ObjectV::Triple { subject: s1, predicate: p1, object: o1 },
            ObjectV::Triple { subject: s2, predicate: p2, object: o2 },
        ) => then_order(
            subject_order(s1, s2),
            then_order(lex_order(p1, p2), object_order(*o1, *o2)),
        ),
        _ => int_order(object_rank(a), object_rank(b)),
    }
}

/// SPARQL value order of literals: numbers, booleans and simple strings
/// compare within their own type; everything else is incomparable.
pub open spec fn literal_sparql_order(a: LiteralV, b: LiteralV) -> Option<Ordering> {
    match (a, b) {
        (LiteralV::Int(x), LiteralV::Int(y)) => Some(int_order(x, y)),
        (LiteralV::Bool(x), LiteralV::Bool(y)) => Some(int_order(bool_rank(x), bool_rank(y))),
        (LiteralV::Str { lexical: x, lang: None }, LiteralV::Str { lexical: y, lang: None }) =>
            Some(lex_order(x, y)),
        _ => None,
    }
}

/// SPARQL value order of objects: IRIs < blank nodes < literals; any
/// comparison that involves a quoted triple is undefined.
pub open spec fn object_sparql_order(a: ObjectV, b: ObjectV) -> Option<Ordering> {
    match (a, b) {
        (ObjectV::Triple { .. }, _) => None,
        (_, ObjectV::Triple { .. }) => None,
        (ObjectV::Iri(x), ObjectV::Iri(y)) => Some(lex_order(x, y)),
        (ObjectV::BlankNode(x), ObjectV::BlankNode(y)) => Some(lex_order(x, y)),
        (ObjectV::Literal(x), ObjectV::Literal(y)) => literal_sparql_order(x, y),
        (ObjectV::Iri(_), _) => Some(Ordering::Less),
        (ObjectV::BlankNode(_), ObjectV::Iri(_)) => Some(Ordering::Greater),
        (ObjectV::BlankNode(_), ObjectV::Literal(_)) => Some(Ordering::Less),
        (ObjectV::Literal(_), _) => Some(Ordering::Greater),
    }
}

fn then_with(first: Ordering, second: Ordering) -> (r: Ordering)
    ensures
        r == then_order(first, second),
{
    match first {
        Ordering::Equal => second,
        _ => first,
    }
}

fn compare_opt_text(a: &Option<String>, b: &Option<String>) -> (r: Ordering)
    ensures
        r == opt_lex_order(crate::term::opt_view(*a), crate::term::opt_view(*b)),
{
    match (a, b) {
        (None, None) => Ordering::Equal,
        (None, Some(_)) => Ordering::Less,
        (Some(_), None) => Ordering::Greater,
        (Some(x), Some(y)) => compare_text(x.as_str(), y.as_str()),
    }
}

fn literal_rank_of(l: &Literal) -> (r: i64)
    ensures
        r == literal_rank(l@),
{
    match l {
        Literal::StringLiteral { .. } => 0,
        Literal::DatatypeLiteral { .. } => 1,
        Literal::IntegerLiteral(_) => 2,
        Literal::BooleanLiteral(_) => 3,
    }
}

fn bool_rank_of(b: bool) -> (r: i64)
    ensures
        r == bool_rank(b),
{
    if b { 1 } else { 0 }
}

impl Literal {
    /// Structural total order of literals.
    pub fn compare(&self, other: &Literal) -> (r: Ordering)
        ensures
            r == literal_order(self@, other@),
    {
        match (self, other) {
            (
                Literal::StringLiteral { lexical_form: x, lang: lx },
                Literal::StringLiteral { lexical_form: y, lang: ly },
            ) => then_with(compare_text(x.as_str(), y.as_str()), compare_opt_text(lx, ly)),
            (
                Literal::DatatypeLiteral { lexical_form: x, datatype: dx },
                Literal::DatatypeLiteral { lexical_form: y, datatype: dy },
            ) => then_with(
                compare_text(x.as_str(), y.as_str()),
                compare_text(dx.as_str(), dy.as_str()),
            ),
            (Literal::IntegerLiteral(x), Literal::IntegerLiteral(y)) => compare_i64(*x, *y),
            (Literal::BooleanLiteral(x), Literal::BooleanLiteral(y)) => compare_i64(
                bool_rank_of(*x),
                bool_rank_of(*y),
            ),
            _ => compare_i64(literal_rank_of(self), literal_rank_of(other)),
        }
    }

    /// SPARQL value order of literals (partial).
    pub fn sparql_compare(&self, other: &Literal) -> (r: Option<Ordering>)
        ensures
            r == literal_sparql_order(self@, other@),
    {
        match (self, other) {
            (Literal::IntegerLiteral(x), Literal::IntegerLiteral(y)) => Some(compare_i64(*x, *y)),
            (Literal::BooleanLiteral(x), Literal::BooleanLiteral(y)) => Some(
                compare_i64(bool_rank_of(*x), bool_rank_of(*y)),
            ),
            (
                Literal::StringLiteral { lexical_form: x, lang: None },
                Literal::StringLiteral { lexical_form: y, lang: None },
            ) => Some(compare_text(x.as_str(), y.as_str())),
            _ => None,
        }
    }
}

fn subject_rank_of(s: &IriOrBlankNode) -> (r: i64)
    ensures
        r == subject_rank(s@),
{
    match s {
        IriOrBlankNode::Iri(_) => 0,
        IriOrBlankNode::BlankNode(_) => 1,
    }
}

impl IriOrBlankNode {
    /// Structural total order of subjects.
    pub fn compare(&self, other: &IriOrBlankNode) -> (r: Ordering)
        ensures
            r == subject_order(self@, other@),
    {
        match (self, other) {
            (IriOrBlankNode::Iri(x), IriOrBlankNode::Iri(y)) => compare_text(x.as_str(), y.as_str()),
            (IriOrBlankNode::BlankNode(x), IriOrBlankNode::BlankNode(y)) => compare_text(
                x.as_str(),
                y.as_str(),
            ),
            _ => compare_i64(subject_rank_of(self), subject_rank_of(other)),
        }
    }
}

fn object_rank_of(o: &Object) -> (r: i64)
    ensures
        r == object_rank(o@),
{
    match o {
        Object::Iri(_) => 0,
        Object::BlankNode(_) => 1,
        Object::Literal(_) => 2,
        Object::Triple { .. } => 3,
    }
}

impl Object {
    /// Structural total order of terms (see [`object_order`]); never fails.
    pub fn compare(&self, other: &Object) -> (r: Ordering)
        ensures
            r == object_order(self@, other@),
        decreases self,
    {
        match (self, other) {
            (Object::Iri(x), Object::Iri(y)) => compare_text(x.as_str(), y.as_str()),
            (Object::BlankNode(x), Object::BlankNode(y)) => compare_text(x.as_str(), y.as_str()),
            (Object::Literal(x), Object::Literal(y)) => x.compare(y),
            (
                Object::Triple { subject: s1, predicate: p1, object: o1 },
                Object::Triple { subject: s2, predicate: p2, object: o2 },
            ) => {
                let a1: &IriOrBlankNode = s1;
                let a2: &IriOrBlankNode = s2;
                let b1: &Object = o1;
                let b2: &Object = o2;
                let first = a1.compare(a2);
                let second = compare_text(p1.as_str(), p2.as_str());
                let third = b1.compare(b2);
                then_with(first, then_with(second, third))
            },
            _ => compare_i64(object_rank_of(self), object_rank_of(other)),
        }
    }

    /// SPARQL value order of terms (partial; see [`object_sparql_order`]).
    pub fn sparql_compare(&self, other: &Object) -> (r: Option<Ordering>)
        ensures
            r == object_sparql_order(self@, other@),
    {
        match (self, other) {
            (Object::Triple { .. }, _) => None,
            (_, Object::Triple { .. }) => None,
            (Object::Iri(x), Object::Iri(y)) => Some(compare_text(x.as_str(), y.as_str())),
            (Object::BlankNode(x), Object::BlankNode(y)) => Some(
                compare_text(x.as_str(), y.as_str()),
            ),
            (Object::Literal(x), Object::Literal(y)) => x.sparql_compare(y),
            (Object::Iri(_), _) => Some(Ordering::Less),
            (Object::BlankNode(_), Object::Iri(_)) => Some(Ordering::Greater),
            (Object::BlankNode(_), Object::Literal(_)) => Some(Ordering::Less),
            (Object::Literal(_), _) => Some(Ordering::Greater),
        }
    }
}

// ---------------------------------------------------------------------------
// Laws
// ---------------------------------------------------------------------------

/// Lexicographic order is reflexive only on equal sequences, and swapping the
/// arguments flips it.
pub proof fn lemma_lex_order_antisym(a: Seq<char>, b: Seq<char>)
    ensures
        (lex_order(a, b) == Ordering::Equal) <==> (a == b),
        lex_order(b, a) == flip(lex_order(a, b)),
    decreases a.len(),
{
    if a.len() > 0 && b.len() > 0 {
        lemma_lex_order_antisym(a.drop_first(), b.drop_first());
        if a[0] == b[0] && a.drop_first() == b.drop_first() {
            assert(a =~= seq![a[0]] + a.drop_first());
            assert(b =~= seq![b[0]] + b.drop_first());
        }
        if a == b {
            assert(a.drop_first() == b.drop_first());
        }
        crate::text::lemma_code_injective(a[0], b[0]);
    } else if a.len() == 0 && b.len() == 0 {
        assert(a =~= b);
    }
}

/// Lexicographic order is transitive.
pub proof fn lemma_lex_order_trans(a: Seq<char>, b: Seq<char>, c: Seq<char>, o: Ordering)
    requires
        o != Ordering::Equal,
        lex_order(a, b) == o,
        lex_order(b, c) == o,
    ensures
        lex_order(a, c) == o,
    decreases a.len(),
{
    if a.len() > 0 && b.len() > 0 && c.len() > 0 {
        if code(a[0]) == code(b[0]) && code(b[0]) == code(c[0]) {
            lemma_lex_order_trans(a.drop_first(), b.drop_first(), c.drop_first(), o);
        }
    }
}

proof fn lemma_opt_lex(a: Option<Seq<char>>, b: Option<Seq<char>>)
    ensures
        (opt_lex_order(a, b) == Ordering::Equal) <==> (a == b),
        opt_lex_order(b, a) == flip(opt_lex_order(a, b)),
{
    match (a, b) {
        (Some(x), Some(y)) => lemma_lex_order_antisym(x, y),
        _ => {},
    }
}

proof fn lemma_opt_lex_trans(a: Option<Seq<char>>, b: Option<Seq<char>>, c: Option<Seq<char>>, o: Ordering)
    requires
        o != Ordering::Equal,
        opt_lex_order(a, b) == o,
        opt_lex_order(b, c) == o,
    ensures
        opt_lex_order(a, c) == o,
{
    match (a, b, c) {
        (Some(x), Some(y), Some(z)) => lemma_lex_order_trans(x, y, z, o),
        _ => {},
    }
}

/// The structural order of literals is a total order: equal exactly on equal
/// literals, and flipped by swapping the arguments.
pub proof fn lemma_literal_order_antisym(a: LiteralV, b: LiteralV)
    ensures
        (literal_order(a, b) == Ordering::Equal) <==> (a == b),
        literal_order(b, a) == flip(literal_order(a, b)),
{
    match (a, b) {
        (LiteralV::Str { lexical: x, lang: lx }, LiteralV::Str { lexical: y, lang: ly }) => {
            lemma_lex_order_antisym(x, y);
            lemma_opt_lex(lx, ly);
        },
        (LiteralV::Typed { lexical: x, datatype: dx }, LiteralV::Typed { lexical: y, datatype: dy }) => {
            lemma_lex_order_antisym(x, y);
            lemma_lex_order_antisym(dx, dy);
        },
        _ => {},
    }
}

/// The structural order of literals is transitive.
pub proof fn lemma_literal_order_trans(a: LiteralV, b: LiteralV, c: LiteralV, o: Ordering)
    requires
        o != Ordering::Equal,
        literal_order(a, b) == o,
        literal_order(b, c) == o,
    ensures
        literal_order(a, c) == o,
{
    lemma_literal_order_antisym(a, b);
    lemma_literal_order_antisym(b, c);
    match (a, b, c) {
        (
            LiteralV::Str { lexical: x, lang: lx },
            LiteralV::Str { lexical: y, lang: ly },
            LiteralV::Str { lexical: z, lang: lz },
        ) => {
            lemma_lex_order_antisym(x, y);
            lemma_lex_order_antisym(y, z);
            if lex_order(x, y) == o && lex_order(y, z) == o {
                lemma_lex_order_trans(x, y, z, o);
            } else if lex_order(x, y) == o {
            } else if lex_order(y, z) == o {
            } else {
                lemma_opt_lex_trans(lx, ly, lz, o);
            }
        },
        (
            LiteralV::Typed { lexical: x, datatype: dx },
            LiteralV::Typed { lexical: y, datatype: dy },
            LiteralV::Typed { lexical: z, datatype: dz },
        ) => {
            lemma_lex_order_antisym(x, y);
            lemma_lex_order_antisym(y, z);
            if lex_order(x, y) == o && lex_order(y, z) == o {
                lemma_lex_order_trans(x, y, z, o);
            } else if lex_order(x, y) == o {
            } else if lex_order(y, z) == o {
            } else {
                lemma_lex_order_trans(dx, dy, dz, o);
            }
        },
        _ => {},
    }
}

proof fn lemma_subject_order_antisym(a: SubjectV, b: SubjectV)
    ensures
        (subject_order(a, b) == Ordering::Equal) <==> (a == b),
        subject_order(b, a) == flip(subject_order(a, b)),
{
    match (a, b) {
        (SubjectV::Iri(x), SubjectV::Iri(y)) => lemma_lex_order_antisym(x, y),
        (SubjectV::BlankNode(x), SubjectV::BlankNode(y)) => lemma_lex_order_antisym(x, y),
        _ => {},
    }
}

proof fn lemma_subject_order_trans(a: SubjectV, b: SubjectV, c: SubjectV, o: Ordering)
    requires
        o != Ordering::Equal,
        subject_order(a, b) == o,
        subject_order(b, c) == o,
    ensures
        subject_order(a, c) == o,
{
    match (a, b, c) {
        (SubjectV::Iri(x), SubjectV::Iri(y), SubjectV::Iri(z)) => lemma_lex_order_trans(x, y, z, o),
        (SubjectV::BlankNode(x), SubjectV::BlankNode(y), SubjectV::BlankNode(z)) =>
            lemma_lex_order_trans(x, y, z, o),
        _ => {},
    }
}

/// The structural order of terms is a total order: `Equal` exactly on equal
/// terms, and swapping the arguments flips the result.
pub proof fn lemma_object_order_antisym(a: ObjectV, b: ObjectV)
    ensures
        (object_order(a, b) == Ordering::Equal) <==> (a == b),
        object_order(b, a) == flip(object_order(a, b)),
    decreases a,
{
    match (a, b) {
        (ObjectV::Iri(x), ObjectV::Iri(y)) => lemma_lex_order_antisym(x, y),
        (ObjectV::BlankNode(x), ObjectV::BlankNode(y)) => lemma_lex_order_antisym(x, y),
        (ObjectV::Literal(x), ObjectV::Literal(y)) => lemma_literal_order_antisym(x, y),
        (
            ObjectV::Triple { subject: s1, predicate: p1, object: o1 },
            ObjectV::Triple { subject: s2, predicate: p2, object: o2 },
        ) => {
            lemma_subject_order_antisym(s1, s2);
            lemma_lex_order_antisym(p1, p2);
            lemma_object_order_antisym(*o1, *o2);
        },
        _ => {},
    }
}

/// The structural order of terms is transitive.
pub proof fn lemma_object_order_trans(a: ObjectV, b: ObjectV, c: ObjectV, o: Ordering)
    requires
        o != Ordering::Equal,
        object_order(a, b) == o,
        object_order(b, c) == o,
    ensures
        object_order(a, c) == o,
    decreases a,
{
    lemma_object_order_antisym(a, b);
    lemma_object_order_antisym(b, c);
    match (a, b, c) {
        (ObjectV::Iri(x), ObjectV::Iri(y), ObjectV::Iri(z)) => lemma_lex_order_trans(x, y, z, o),
        (ObjectV::BlankNode(x), ObjectV::BlankNode(y), ObjectV::BlankNode(z)) =>
            lemma_lex_order_trans(x, y, z, o),
        (ObjectV::Literal(x), ObjectV::Literal(y), ObjectV::Literal(z)) =>
            lemma_literal_order_trans(x, y, z, o),
        (
            ObjectV::Triple { subject: s1, predicate: p1, object: o1 },
            ObjectV::Triple { subject: s2, predicate: p2, object: o2 },
            ObjectV::Triple { subject: s3, predicate: p3, object: o3 },
        ) => {
            lemma_subject_order_antisym(s1, s2);
            lemma_subject_order_antisym(s2, s3);
            lemma_lex_order_antisym(p1, p2);
            lemma_lex_order_antisym(p2, p3);
            lemma_object_order_antisym(*o1, *o2);
            lemma_object_order_antisym(*o2, *o3);
            if subject_order(s1, s2) == o && subject_order(s2, s3) == o {
                lemma_subject_order_trans(s1, s2, s3, o);
            } else if subject_order(s1, s2) == o || subject_order(s2, s3) == o {
            } else if lex_order(p1, p2) == o && lex_order(p2, p3) == o {
                lemma_lex_order_trans(p1, p2, p3, o);
            } else if lex_order(p1, p2) == o || lex_order(p2, p3) == o {
            } else {
                lemma_object_order_trans(*o1, *o2, *o3, o);
            }
        },
        _ => {},
    }
}

/// The SPARQL order is antisymmetric: swapping the arguments flips a defined
/// result and keeps an undefined one.
pub proof fn lemma_sparql_order_flip(a: ObjectV, b: ObjectV)
    ensures
        object_sparql_order(b, a) == (match object_sparql_order(a, b) {
            Some(o) => Some(flip(o)),
            None => None::<Ordering>,
        }),
{
    match (a, b) {
        (ObjectV::Iri(x), ObjectV::Iri(y)) => lemma_lex_order_antisym(x, y),
        (ObjectV::BlankNode(x), ObjectV::BlankNode(y)) => lemma_lex_order_antisym(x, y),
        (ObjectV::Literal(x), ObjectV::Literal(y)) => {
            match (x, y) {
                (LiteralV::Str { lexical: p, lang: None }, LiteralV::Str { lexical: q, lang: None }) =>
                    lemma_lex_order_antisym(p, q),
                _ => {},
            }
        },
        _ => {},
    }
}

} // verus!
