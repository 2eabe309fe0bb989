//! Verified core of a SHACL form engine over an in-memory RDF graph.
pub mod text;
pub mod vocab;
pub mod term;
pub mod order;
pub mod graph;
pub mod focus;
pub mod path;
pub mod error;
pub mod types;
pub mod message_map;
pub mod ast;
pub mod ir;
pub mod ir_text;
pub mod subset;
pub mod triple;
pub mod parse;
pub mod dto;
pub mod shapes;
pub mod model;
pub mod report;
pub mod engine;
pub mod project;
pub mod visitor;
pub mod rdfio;
pub mod qualify;
