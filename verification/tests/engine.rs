use rudof_form::dto::RDFFormat;
use rudof_form::engine::{resolve_idx, FormEngine, FormError};
use rudof_form::graph::Graph;
use rudof_form::ir::IRSchema;
use rudof_form::path::SHACLPath;
use rudof_form::term::{IriOrBlankNode, Literal, Object};

const EX: &str = "http://example.org/";

fn ex(local: &str) -> String {
    format!("{EX}{local}")
}

fn sample_graph() -> Graph {
    let mut g = Graph::new();
    g.add_prefix("ex".to_string(), EX.to_string());
    g.add_triple(IriOrBlankNode::Iri(ex("a")), ex("p"), Object::Iri(ex("b")));
    g.add_triple(IriOrBlankNode::Iri(ex("a")), ex("q"), Object::Iri(ex("c")));
    g.add_triple(IriOrBlankNode::Iri(ex("b")), ex("p"), Object::Iri(ex("d")));
    g.add_triple(IriOrBlankNode::Iri(ex("e")), ex("p"), Object::Iri(ex("a")));
    g
}

const SAMPLE: &str = r#"
    @prefix ex: <http://example.org/> .
    ex:a ex:p ex:b .
    ex:a ex:q ex:c .
    ex:b ex:p ex:d .
    ex:e ex:p ex:a .
"#;

fn engine_with_sample() -> FormEngine {
    let mut e = FormEngine::new();
    e.load_data(SAMPLE, &RDFFormat::Turtle).unwrap();
    e
}

fn pred(p: &str) -> SHACLPath {
    SHACLPath::Predicate { pred: ex(p) }
}

fn sorted_iris(v: &[Object]) -> Vec<String> {
    let mut out: Vec<String> = v.iter().map(|o| o.to_display()).collect();
    out.sort();
    out.dedup();
    out
}

#[test]
fn new_engine_is_empty() {
    let e = FormEngine::new();
    assert_eq!(e.quads().len(), 0);
    assert!(e.shapes_ast().is_none());
    assert!(e.shapes_graph().is_none());
}

#[test]
fn add_then_remove_restores_the_graph() {
    let mut e = engine_with_sample();
    let before = e.quads().len();
    e.add_triple(IriOrBlankNode::Iri(ex("x")), ex("p"), Object::str("v")).unwrap();
    assert_eq!(e.quads().len(), before + 1);
    e.add_triple(IriOrBlankNode::Iri(ex("x")), ex("p"), Object::str("v")).unwrap();
    assert_eq!(e.quads().len(), before + 1, "adding a triple twice keeps one");
    e.remove_triple(IriOrBlankNode::Iri(ex("x")), ex("p"), Object::str("v")).unwrap();
    assert_eq!(e.quads().len(), before);
    e.remove_triple(IriOrBlankNode::Iri(ex("x")), ex("p"), Object::str("v")).unwrap();
    assert_eq!(e.quads().len(), before, "removing an absent triple changes nothing");
}

#[test]
fn new_data_empties_the_graph() {
    let mut e = engine_with_sample();
    e.new_data();
    assert_eq!(e.quads().len(), 0);
}

#[test]
fn failed_load_leaves_the_session_unchanged() {
    let mut e = engine_with_sample();
    let r = e.load_data("ex:a ex:p", &RDFFormat::Turtle);
    assert!(matches!(r, Err(FormError::Parse(_))));
    assert_eq!(e.quads().len(), 4);
}

#[test]
fn error_messages() {
    assert_eq!(FormError::NoShapes.to_display(), "no shapes loaded; call loadShapes first");
    assert_eq!(
        FormError::ShapeNotFound("http://ex/S".to_string()).to_display(),
        "shape not found in shapes graph: http://ex/S"
    );
    assert_eq!(FormError::Graph("g".to_string()).to_display(), "g");
}

#[test]
fn resolve_idx_finds_registered_shapes_only() {
    let mut ir = IRSchema::new();
    let a = ir.register_shape(&Object::Iri("http://ex/A".to_string()));
    let b = ir.register_shape(&Object::Iri("http://ex/B".to_string()));
    assert_eq!(resolve_idx(&ir, "http://ex/B").unwrap(), b);
    assert_eq!(resolve_idx(&ir, "http://ex/A").unwrap(), a);
    match resolve_idx(&ir, "http://ex/C") {
        Err(FormError::ShapeNotFound(id)) => assert_eq!(id, "http://ex/C"),
        _ => panic!("expected ShapeNotFound"),
    }
}

#[test]
fn focus_subgraph_follows_resource_objects() {
    let e = engine_with_sample();
    let sub = e.focus_subgraph(&Object::Iri(ex("a")));
    assert_eq!(sub.len(), 3, "a's two triples and b's one");
    assert_eq!(sub.prefix_count(), 1);
    let sub_b = e.focus_subgraph(&Object::Iri(ex("b")));
    assert_eq!(sub_b.len(), 1);
    let sub_lit = e.focus_subgraph(&Object::str("a"));
    assert_eq!(sub_lit.len(), 0);
}

#[test]
fn focus_subgraph_terminates_on_cycles() {
    let mut e = engine_with_sample();
    e.add_triple(IriOrBlankNode::Iri(ex("d")), ex("p"), Object::Iri(ex("a"))).unwrap();
    let sub = e.focus_subgraph(&Object::Iri(ex("a")));
    assert_eq!(sub.len(), 4);
    let sub_e = e.focus_subgraph(&Object::Iri(ex("e")));
    assert_eq!(sub_e.len(), 5);
}

#[test]
fn eval_path_predicate_and_inverse() {
    let e = engine_with_sample();
    let a = Object::Iri(ex("a"));
    assert_eq!(sorted_iris(&e.eval_path(&a, &pred("p"))), vec![ex("b")]);
    let inv = SHACLPath::Inverse { path: Box::new(pred("p")) };
    assert_eq!(sorted_iris(&e.eval_path(&a, &inv)), vec![ex("e")]);
    let inv_seq = SHACLPath::Inverse { path: Box::new(SHACLPath::Sequence { paths: vec![pred("p")] }) };
    assert_eq!(sorted_iris(&e.eval_path(&a, &inv_seq)), vec![ex("e")]);
    let d = Object::Iri(ex("d"));
    let inv_two = SHACLPath::Inverse { path: Box::new(SHACLPath::Sequence { paths: vec![pred("p"), pred("p")] }) };
    assert_eq!(sorted_iris(&e.eval_path(&d, &inv_two)), vec![ex("a")]);
    let inv_star = SHACLPath::Inverse { path: Box::new(SHACLPath::ZeroOrMore { path: Box::new(pred("p")) }) };
    assert_eq!(sorted_iris(&e.eval_path(&d, &inv_star)), vec![ex("a"), ex("b"), ex("d"), ex("e")]);
}

#[test]
fn eval_path_sequence_and_alternative() {
    let e = engine_with_sample();
    let a = Object::Iri(ex("a"));
    let seq = SHACLPath::Sequence { paths: vec![pred("p"), pred("p")] };
    assert_eq!(sorted_iris(&e.eval_path(&a, &seq)), vec![ex("d")]);
    let alt = SHACLPath::Alternative { paths: vec![pred("p"), pred("q")] };
    assert_eq!(sorted_iris(&e.eval_path(&a, &alt)), vec![ex("b"), ex("c")]);
    let empty_seq = SHACLPath::Sequence { paths: vec![] };
    assert_eq!(sorted_iris(&e.eval_path(&a, &empty_seq)), vec![ex("a")]);
}

#[test]
fn eval_path_closures() {
    let e = engine_with_sample();
    let a = Object::Iri(ex("a"));
    let star = SHACLPath::ZeroOrMore { path: Box::new(pred("p")) };
    assert_eq!(sorted_iris(&e.eval_path(&a, &star)), vec![ex("a"), ex("b"), ex("d")]);
    assert_eq!(e.eval_path(&a, &star).len(), 3, "each node once");
    let plus = SHACLPath::OneOrMore { path: Box::new(pred("p")) };
    assert_eq!(sorted_iris(&e.eval_path(&a, &plus)), vec![ex("b"), ex("d")]);
    let opt = SHACLPath::ZeroOrOne { path: Box::new(pred("p")) };
    assert_eq!(sorted_iris(&e.eval_path(&a, &opt)), vec![ex("a"), ex("b")]);
}

#[test]
fn eval_path_from_a_literal_has_no_predicate_values() {
    let e = engine_with_sample();
    let lit = Object::Literal(Literal::str("a"));
    assert_eq!(e.eval_path(&lit, &pred("p")).len(), 0);
}

#[test]
fn parsed_graph_matches_the_built_one() {
    let g = FormEngine::parse_graph(SAMPLE, &RDFFormat::Turtle).unwrap();
    let built = sample_graph();
    assert_eq!(g.len(), built.len());
    for t in built.triples() {
        assert!(g.contains(&t));
    }
    assert_eq!(g.prefix_count(), 1);
}

#[test]
fn serialized_text_reads_back() {
    let e = engine_with_sample();
    for format in [RDFFormat::NTriples, RDFFormat::Turtle, RDFFormat::JsonLd] {
        let text = e.serialize(&format).unwrap();
        let back = FormEngine::parse_graph(&text, &format).unwrap();
        assert_eq!(back.len(), 4);
    }
    let focus = e.serialize_focus(&Object::Iri(ex("b")), &RDFFormat::NTriples).unwrap();
    assert_eq!(focus.lines().filter(|l| !l.trim().is_empty()).count(), 1);
}

#[test]
fn literals_read_with_their_kind() {
    let text = r#"<http://ex/s> <http://ex/p> "x"@en , "y" , "1"^^<http://www.w3.org/2001/XMLSchema#integer> ."#;
    let g = FormEngine::parse_graph(text, &RDFFormat::Turtle).unwrap();
    assert_eq!(g.len(), 3);
    assert!(g.contains(&rudof_form::graph::Triple::new(
        IriOrBlankNode::Iri("http://ex/s".to_string()),
        "http://ex/p".to_string(),
        Object::Literal(Literal::StringLiteral { lexical_form: "x".to_string(), lang: Some("en".to_string()) }),
    )));
    assert!(g.contains(&rudof_form::graph::Triple::new(
        IriOrBlankNode::Iri("http://ex/s".to_string()),
        "http://ex/p".to_string(),
        Object::str("y"),
    )));
}

fn listed(v: &[Object]) -> Vec<String> {
    v.iter().map(|o| o.to_display()).collect()
}

#[test]
fn eval_path_lists_values_in_order() {
    let e = engine_with_sample();
    let a = Object::Iri(ex("a"));
    let alt = SHACLPath::Alternative { paths: vec![pred("q"), pred("p")] };
    assert_eq!(listed(&e.eval_path(&a, &alt)), vec![ex("c"), ex("b")]);
    let twice = SHACLPath::Alternative { paths: vec![pred("p"), pred("p")] };
    assert_eq!(listed(&e.eval_path(&a, &twice)), vec![ex("b"), ex("b")], "repeats are kept");
    let opt = SHACLPath::ZeroOrOne { path: Box::new(pred("p")) };
    assert_eq!(listed(&e.eval_path(&a, &opt)), vec![ex("a"), ex("b")]);
    let star = SHACLPath::ZeroOrMore { path: Box::new(pred("p")) };
    let from_e = Object::Iri(ex("e"));
    assert_eq!(listed(&e.eval_path(&from_e, &star)), vec![ex("e"), ex("a"), ex("b"), ex("d")]);
    let plus = SHACLPath::OneOrMore { path: Box::new(pred("p")) };
    assert_eq!(listed(&e.eval_path(&from_e, &plus)), vec![ex("a"), ex("b"), ex("d")]);
}

#[test]
fn load_shapes_reports_the_reader_first() {
    let mut e = engine_with_sample();
    let r = e.load_shapes("ex:a ex:p", &RDFFormat::Turtle, Err("no schema".to_string()));
    match r {
        Err(FormError::Parse(m)) => assert_ne!(m, "no schema", "the reader's error comes first"),
        _ => panic!("expected a parse error"),
    }
    assert!(e.shapes_graph().is_none());
    let r = e.load_shapes(SAMPLE, &RDFFormat::Turtle, Err("no schema".to_string()));
    match r {
        Err(FormError::Parse(m)) => assert_eq!(m, "no schema"),
        _ => panic!("expected the schema's message"),
    }
    assert!(e.shapes_graph().is_none());
    e.load_shapes(SAMPLE, &RDFFormat::Turtle, Ok(rudof_form::ast::ASTSchema::new())).unwrap();
    assert_eq!(e.shapes_graph().unwrap().len(), 4);
    assert!(e.shapes_ast().is_some());
    assert_eq!(e.quads().len(), 4, "the data graph is untouched");
}

#[test]
fn unnamed_blank_nodes_get_labels_of_their_own() {
    let text = "@prefix ex: <http://example.org/> . ex:a ex:p [ ex:q ex:b ] . _:n ex:p ex:c .";
    let g = FormEngine::parse_graph(text, &RDFFormat::Turtle).unwrap();
    assert_eq!(g.len(), 3);
    let named = g.triples().into_iter().filter(|t| t.subject.equals(&IriOrBlankNode::BlankNode("n".to_string()))).count();
    assert_eq!(named, 1, "a label that the text writes is kept");
    assert_eq!(g.prefix_count(), 1);
}

#[test]
fn the_schema_stays_until_a_load_succeeds() {
    let mut e = engine_with_sample();
    assert!(e.shapes_ast().is_none());
    e.load_shapes(SAMPLE, &RDFFormat::Turtle, Ok(rudof_form::ast::ASTSchema::new())).unwrap();
    assert!(e.load_shapes("ex:a ex:p", &RDFFormat::Turtle, Ok(rudof_form::ast::ASTSchema::new())).is_err());
    e.new_data();
    e.load_data(SAMPLE, &RDFFormat::Turtle).unwrap();
    assert!(e.shapes_ast().is_some(), "only a successful load_shapes changes the schema");
    assert_eq!(e.shapes_graph().unwrap().len(), 4);
}
