//! Errors raised while compiling shapes and writing them back to a graph.
use vstd::prelude::*;
use crate::term::Object;

verus! {

/// Errors of the shape compiler and of the graph writers.
#[derive(Debug)]
pub enum IRError {
    /// A cardinality component (`sh:minCount`, `sh:maxCount`) with a negative value.
    NegativeCardinality { component: String, value: isize },
    /// A shape id that cannot stand as a subject (a literal or a quoted triple).
    InvalidShapeId(Object),
    /// A shape index that the shape table does not hold.
    ShapeNotFound(usize),
    /// A value of `sh:hasValue` / `sh:in` that is neither an IRI nor a literal.
    UnexpectedValueTerm(Object),
    /// A prefixed name where a full IRI is needed.
    UnresolvedPrefixedName { prefix: String, local: String },
}

} // verus!
