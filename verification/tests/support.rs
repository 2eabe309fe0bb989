use std::cmp::Ordering;

use rudof_form::dto::{format_of, literal_of, object_to_value, term_to_object, term_to_subject, RDFFormat, TermValue};
use rudof_form::error::IRError;
use rudof_form::focus::{ParseError, RdfFocus};
use rudof_form::graph::Graph;
use rudof_form::ir::{MaxCount, MinCount};
use rudof_form::message_map::{message, MessageMap};
use rudof_form::parse::RDFParse;
use rudof_form::path::SHACLPath;
use rudof_form::report::{outcome, path_to_term, report_from_outcome, Severity, ValidationOutcome, ValidationResult};
use rudof_form::term::{IriOrBlankNode, Literal, Object};

const RDF: &str = "http://www.w3.org/1999/02/22-rdf-syntax-ns#";

fn iri(s: &str) -> Object {
    Object::Iri(s.to_string())
}

#[test]
fn media_types_pick_formats() {
    assert!(matches!(format_of("application/ld+json"), RDFFormat::JsonLd));
    assert!(matches!(format_of("application/json"), RDFFormat::JsonLd));
    assert!(matches!(format_of("application/n-triples"), RDFFormat::NTriples));
    assert!(matches!(format_of("text/plain"), RDFFormat::NTriples));
    assert!(matches!(format_of("text/turtle"), RDFFormat::Turtle));
    assert!(matches!(format_of(""), RDFFormat::Turtle));
}

#[test]
fn plain_values_round_trip_terms() {
    let t = object_to_value(&iri("http://ex/a"));
    assert_eq!(t.term_type, "NamedNode");
    let back = term_to_object(&t);
    assert!(back.equals(&iri("http://ex/a")));
    let b = TermValue::blank("b0");
    assert!(term_to_object(&b).equals(&Object::BlankNode("b0".to_string())));
    let lit = TermValue::literal("hi", None, Some("en".to_string()));
    let l = literal_of(&lit);
    assert_eq!(l.lang(), Some("en".to_string()));
    assert!(term_to_subject(&lit).is_err());
    assert!(term_to_subject(&b).is_ok());
    let plain = object_to_value(&Object::str("x"));
    assert_eq!(plain.datatype, Some("http://www.w3.org/2001/XMLSchema#string".to_string()));
}

#[test]
fn message_map_get_after_with_message() {
    let m = MessageMap::new().with_message(Some("en".to_string()), "hello".to_string());
    assert_eq!(m.get(Some("en")), Some("hello".to_string()));
    assert_eq!(m.get(None), None);
    let m = m.with_message(Some("en".to_string()), "hi".to_string());
    assert_eq!(m.get(Some("en")), Some("hi".to_string()), "a later message replaces an earlier one");
    assert_eq!(m.messages().len(), 1);
}

#[test]
fn message_map_merge_prefers_one_side() {
    let a = MessageMap::from_message("a".to_string()).with_message(Some("en".to_string()), "a-en".to_string());
    let b = MessageMap::from_message("b".to_string()).with_message(Some("fr".to_string()), "b-fr".to_string());
    let over = a.duplicate().merge(b.duplicate(), true);
    assert_eq!(over.get(None), Some("b".to_string()));
    assert_eq!(over.get(Some("en")), Some("a-en".to_string()));
    assert_eq!(over.get(Some("fr")), Some("b-fr".to_string()));
    let under = a.merge(b, false);
    assert_eq!(under.get(None), Some("a".to_string()));
}

#[test]
fn focus_save_restore_commit() {
    let mut f = RdfFocus::new(iri("http://ex/a"));
    f.save();
    f.set(iri("http://ex/b"));
    f.restore();
    assert!(f.get().unwrap().equals(&iri("http://ex/a")), "restore gives back the saved focus");
    f.save();
    f.set(iri("http://ex/c"));
    f.commit();
    assert!(f.get().unwrap().equals(&iri("http://ex/c")), "commit keeps the new focus");
    f.restore();
    assert!(f.get().is_none(), "nothing saved: the focus becomes unset");
    assert!(RdfFocus::empty().get().is_none());
}

#[test]
fn sparql_order_of_terms() {
    let one = Object::Literal(Literal::IntegerLiteral(1));
    let two = Object::Literal(Literal::IntegerLiteral(2));
    assert_eq!(one.sparql_compare(&two), Some(Ordering::Less));
    assert_eq!(two.sparql_compare(&one), Some(Ordering::Greater));
    assert_eq!(one.sparql_compare(&one), Some(Ordering::Equal));
    assert_eq!(iri("http://a").compare(&iri("http://b")), Ordering::Less);
    let quoted = Object::Triple {
        subject: Box::new(IriOrBlankNode::Iri("http://s".to_string())),
        predicate: "http://p".to_string(),
        object: Box::new(one.clone()),
    };
    assert_eq!(iri("http://a").sparql_compare(&quoted), None);
    assert_eq!(one.sparql_compare(&quoted), None);
    assert_eq!(quoted.sparql_compare(&iri("http://a")), None);
}

#[test]
fn cardinalities_refuse_negative_values() {
    assert_eq!(MinCount::new(2).unwrap().min_count(), 2);
    assert_eq!(MaxCount::new(0).unwrap().max_count(), 0);
    match MinCount::new(-1) {
        Err(IRError::NegativeCardinality { component, value }) => {
            assert_eq!(component, "sh:minCount");
            assert_eq!(value, -1);
        },
        _ => panic!("expected NegativeCardinality"),
    }
    assert!(MaxCount::new(-5).is_err());
}

#[test]
fn parser_reads_properties_and_lists() {
    let mut g = Graph::new();
    let s = IriOrBlankNode::Iri("http://ex/s".to_string());
    g.add_triple(s.clone(), "http://ex/p".to_string(), Object::str("v"));
    g.add_triple(s.clone(), "http://ex/list".to_string(), Object::BlankNode("l1".to_string()));
    g.add_triple(IriOrBlankNode::BlankNode("l1".to_string()), format!("{RDF}first"), Object::str("x"));
    g.add_triple(IriOrBlankNode::BlankNode("l1".to_string()), format!("{RDF}rest"), iri(&format!("{RDF}nil")));
    let mut p = RDFParse::with_focus(g, "http://ex/s".to_string());
    let v = p.get_property("http://ex/p".to_string()).unwrap();
    assert!(v.equals(&Object::str("v")));
    match p.get_property("http://ex/missing".to_string()) {
        Err(ParseError::ExpectedSingleValue { count, .. }) => assert_eq!(count, 0),
        _ => panic!("expected ExpectedSingleValue"),
    }
    let list = p.get_list_property("http://ex/list".to_string()).unwrap();
    assert_eq!(list.len(), 1);
    assert!(list[0].equals(&Object::str("x")));
    let mut empty = RDFParse::new(Graph::new());
    assert!(matches!(empty.get_property("http://ex/p".to_string()), Err(ParseError::NoFocusNode)));
}

fn result(path: Option<SHACLPath>, severity: Severity) -> ValidationResult {
    ValidationResult {
        focus_node: iri("http://ex/a"),
        path,
        value: Some(Object::str("v")),
        message: MessageMap::from_message("too short".to_string()),
        severity,
        constraint_component: iri("http://www.w3.org/ns/shacl#MinLengthConstraintComponent"),
    }
}

#[test]
fn reports_carry_each_result() {
    let o = ValidationOutcome {
        conforms: false,
        results: vec![
            result(Some(SHACLPath::Predicate { pred: "http://ex/p".to_string() }), Severity::Violation),
            result(None, Severity::Generic("http://ex/Custom".to_string())),
        ],
    };
    let r = report_from_outcome(&o);
    assert!(!r.conforms);
    assert_eq!(r.results.len(), 2);
    assert_eq!(r.results[0].focus_node.value, "http://ex/a");
    assert_eq!(r.results[0].path.as_ref().map(|t| t.value.clone()), Some("http://ex/p".to_string()));
    assert_eq!(r.results[0].severity, Some("http://www.w3.org/ns/shacl#Violation".to_string()));
    assert_eq!(r.results[0].message, vec!["too short".to_string()]);
    assert_eq!(
        r.results[0].source_constraint_component,
        Some("http://www.w3.org/ns/shacl#MinLengthConstraintComponent".to_string())
    );
    assert!(r.results[1].path.is_none());
    assert_eq!(r.results[1].severity, Some("http://ex/Custom".to_string()));
}

#[test]
fn complex_result_paths_have_no_term() {
    let seq = SHACLPath::Sequence { paths: vec![SHACLPath::Predicate { pred: "http://ex/p".to_string() }] };
    assert!(path_to_term(&seq).is_none());
}

#[test]
fn scoped_outcome_conforms_without_results() {
    assert!(outcome(vec![]).conforms);
    assert!(!outcome(vec![result(None, Severity::Warning)]).conforms);
}

#[test]
fn severities_from_iris() {
    assert!(matches!(Severity::from_iri("http://www.w3.org/ns/shacl#Warning".to_string()), Severity::Warning));
    assert!(matches!(Severity::from_iri("http://www.w3.org/ns/shacl#Info".to_string()), Severity::Info));
    match Severity::from_iri("http://ex/Other".to_string()) {
        Severity::Generic(i) => assert_eq!(i, "http://ex/Other"),
        _ => panic!("expected a generic severity"),
    }
    assert_eq!(Severity::Trace.iri(), "http://www.w3.org/ns/shacl#Trace");
}

#[test]
fn objects_from_text() {
    assert!(Object::parse("_:b1", None).unwrap().equals(&Object::BlankNode("b1".to_string())));
    assert!(Object::parse("http://ex/a", None).unwrap().equals(&iri("http://ex/a")));
    assert!(Object::parse("a", Some("http://ex/")).unwrap().equals(&iri("http://ex/a")));
    match Object::parse("\"x\"", None) {
        Err(ParseError::ParseFail { msg }) => assert_eq!(
            msg,
            "Parsing a quoted literal \"x\" as an Object is not supported here; use the RDF parser for full literal syntax"
        ),
        _ => panic!("a quoted literal is refused"),
    }
    match Object::parse("no iri", None) {
        Err(ParseError::ParsingIri { iri, .. }) => assert_eq!(iri, "no iri"),
        _ => panic!("expected an IRI error"),
    }
}

#[test]
fn messages_from_literals() {
    match message(&vec![]) {
        Err(ParseError::ParseFail { msg }) => assert_eq!(msg, "No sh:message found"),
        _ => panic!("no literal is an error"),
    }
    let lits = vec![
        Literal::str("plain"),
        Literal::StringLiteral { lexical_form: "en one".to_string(), lang: Some("en".to_string()) },
        Literal::StringLiteral { lexical_form: "en two".to_string(), lang: Some("en".to_string()) },
    ];
    let m = message(&lits).unwrap();
    assert_eq!(m.get(None), Some("plain".to_string()));
    assert_eq!(m.get(Some("en")), Some("en two".to_string()));
}

#[test]
fn message_map_display_quotes_its_texts() {
    let m = MessageMap::from_message("say \"hi\"".to_string());
    assert_eq!(m.to_display(), "MessageMap {default: \"say \\\"hi\\\"\"}");
}

#[test]
fn parser_hands_back_the_graph_prefixes() {
    let mut g = Graph::new();
    g.add_prefix("ex".to_string(), "http://example.org/".to_string());
    let p = RDFParse::new(g);
    assert_eq!(p.prefixmap(), vec![("ex".to_string(), "http://example.org/".to_string())]);
    assert_eq!(p.rdf().prefix_count(), 1);
    let ctx = p.ctx();
    assert_eq!(ctx.prefixmap().len(), 1);
    assert!(p.current_focus().is_none());
}

#[test]
fn a_literal_focus_is_no_subject() {
    let mut f = RdfFocus::empty();
    f.set(Object::Literal(Literal::IntegerLiteral(3)));
    let g = Graph::new();
    let ctx = rudof_form::focus::ParseCtx::new(&g, f);
    match ctx.get_focus_as_subject() {
        Err(ParseError::ExpectedSubject { node, context }) => {
            assert_eq!(node, Object::Literal(Literal::IntegerLiteral(3)).to_display());
            assert_eq!(context, "get_focus_as_subject");
        },
        _ => panic!("expected ExpectedSubject"),
    }
}

struct FocusText;

impl rudof_form::parse::RDFNodeParse for FocusText {
    type Output = String;

    fn parse_focused(&self, ctx: &mut rudof_form::focus::ParseCtx<'_>) -> Result<String, ParseError> {
        ctx.get_focus_as_subject().map(|s| s.to_display())
    }
}

#[test]
fn run_from_puts_the_previous_focus_back() {
    let mut p = RDFParse::with_focus(Graph::new(), "http://ex/a".to_string());
    assert_eq!(p.run(FocusText).unwrap(), "http://ex/a");
    assert_eq!(p.run_from("http://ex/b", FocusText).unwrap(), "http://ex/b");
    assert_eq!(p.current_focus().map(|o| o.to_display()), Some("http://ex/a".to_string()));
    let mut q = RDFParse::new(Graph::new());
    assert!(matches!(q.run(FocusText), Err(ParseError::NoFocusNode)));
    assert_eq!(q.run_from("http://ex/b", FocusText).unwrap(), "http://ex/b");
    assert_eq!(q.current_focus().map(|o| o.to_display()), Some("http://ex/b".to_string()), "no previous focus to put back");
}

#[test]
fn a_save_attempt_restore_rewinds_the_cursor() {
    let mut f = RdfFocus::new(Object::Iri("http://ex/a".to_string()));
    f.save();
    f.set(Object::Iri("http://ex/b".to_string()));
    f.save();
    f.set(Object::Iri("http://ex/c".to_string()));
    f.commit();
    f.restore();
    assert_eq!(f.get().map(|o| o.to_display()), Some("http://ex/a".to_string()));
    f.restore();
    assert!(f.get().is_none(), "no pending save: the focus becomes unset");
}

#[test]
fn terms_show_with_prefixed_names() {
    let pm = vec![
        ("ex".to_string(), "http://example.org/".to_string()),
        ("xsd".to_string(), "http://www.w3.org/2001/XMLSchema#".to_string()),
    ];
    assert_eq!(Object::Iri("http://example.org/a".to_string()).show_qualified(&pm), "ex:a");
    assert_eq!(Object::Iri("http://other.org/x".to_string()).show_qualified(&pm), "<http://other.org/x>");
    assert_eq!(Object::Iri("http://example.org/a".to_string()).show_qualified(&vec![]), "<http://example.org/a>");
    assert_eq!(Object::BlankNode("b".to_string()).show_qualified(&pm), "_:b");
    let typed = Object::Literal(Literal::DatatypeLiteral {
        lexical_form: "1".to_string(),
        datatype: "http://www.w3.org/2001/XMLSchema#integer".to_string(),
    });
    assert_eq!(typed.show_qualified(&pm), "\"1\"^^xsd:integer");
    let quoted = Object::Triple {
        subject: Box::new(IriOrBlankNode::Iri("http://example.org/s".to_string())),
        predicate: "http://example.org/p".to_string(),
        object: Box::new(Object::str("v")),
    };
    assert_eq!(quoted.show_qualified(&pm), "<< ex:s ex:p \"v\" >>");
}
