use rudof_form::ast::ASTComponent;
use rudof_form::ir::IRComponent;
use rudof_form::error::IRError;
use rudof_form::graph::Graph;
use rudof_form::term::Object;
use rudof_form::term::Literal;
use rudof_form::types::{IriRef, NodeKind, Value};
use rudof_form::message_map::MessageMap;
use std::collections::HashMap;

#[test]
fn display_and_iri_via_visitor() {
    let c = ASTComponent::MinCount(2);
    assert_eq!(c.to_display(), "minCount(2)");
    assert_eq!(c.constraint_iri(), "http://www.w3.org/ns/shacl#minCount");

    let p = ASTComponent::Pattern { pattern: "^a".to_string(), flags: Some("i".to_string()) };
    assert_eq!(p.to_display(), "pattern(^a, i)");
    assert_eq!(p.constraint_iri(), "http://www.w3.org/ns/shacl#pattern");
}

#[test]
fn component_display_of_other_kinds() {
    assert_eq!(ASTComponent::MaxCount(3).to_display(), "maxCount(3)");
    assert_eq!(ASTComponent::UniqueLang(true).to_display(), "uniqueLang(true)");
    assert_eq!(
        ASTComponent::Pattern { pattern: "x".to_string(), flags: None }.to_display(),
        "pattern(x)"
    );
    assert_eq!(ASTComponent::UniqueLang(true).constraint_iri(), "http://www.w3.org/ns/shacl#uniqueLang");
}

use rudof_form::visitor::{ComponentVisitor, IRComponentVisitor};
use rudof_form::ir::{BasicSparql, Closed, Pattern, QualifiedValueShape};

struct Describe;

impl ComponentVisitor for Describe {
    type Output = String;
    type Error = ();

    fn default_component(&mut self) -> Result<String, ()> {
        Ok("other".to_string())
    }

    fn visit_min_count(&mut self, count: isize) -> Result<String, ()> {
        Ok(format!("min {count}"))
    }

    fn visit_pattern(&mut self, pattern: &str, flags: Option<&str>) -> Result<String, ()> {
        Ok(format!("{pattern}/{}", flags.unwrap_or("")))
    }

    fn visit_class(&mut self, _class: &Object) -> Result<String, ()> {
        self.default_component()
    }

    fn visit_datatype(&mut self, _datatype: &IriRef) -> Result<String, ()> {
        self.default_component()
    }

    fn visit_node_kind(&mut self, _node_kind: &NodeKind) -> Result<String, ()> {
        self.default_component()
    }

    fn visit_max_count(&mut self, _count: isize) -> Result<String, ()> {
        self.default_component()
    }

    fn visit_min_exclusive(&mut self, _lit: &Literal) -> Result<String, ()> {
        self.default_component()
    }

    fn visit_max_exclusive(&mut self, _lit: &Literal) -> Result<String, ()> {
        self.default_component()
    }

    fn visit_min_inclusive(&mut self, _lit: &Literal) -> Result<String, ()> {
        self.default_component()
    }

    fn visit_max_inclusive(&mut self, _lit: &Literal) -> Result<String, ()> {
        self.default_component()
    }

    fn visit_min_length(&mut self, _len: isize) -> Result<String, ()> {
        self.default_component()
    }

    fn visit_max_length(&mut self, _len: isize) -> Result<String, ()> {
        self.default_component()
    }

    fn visit_unique_lang(&mut self, _unique: bool) -> Result<String, ()> {
        self.default_component()
    }

    fn visit_language_in(&mut self, _langs: &[String]) -> Result<String, ()> {
        self.default_component()
    }

    fn visit_equals(&mut self, _iri: &IriRef) -> Result<String, ()> {
        self.default_component()
    }

    fn visit_disjoint(&mut self, _iri: &IriRef) -> Result<String, ()> {
        self.default_component()
    }

    fn visit_less_than(&mut self, _iri: &IriRef) -> Result<String, ()> {
        self.default_component()
    }

    fn visit_less_than_or_equals(&mut self, _iri: &IriRef) -> Result<String, ()> {
        self.default_component()
    }

    fn visit_or(&mut self, _shapes: &[Object]) -> Result<String, ()> {
        self.default_component()
    }

    fn visit_and(&mut self, _shapes: &[Object]) -> Result<String, ()> {
        self.default_component()
    }

    fn visit_not(&mut self, _shape: &Object) -> Result<String, ()> {
        self.default_component()
    }

    fn visit_xone(&mut self, _shapes: &[Object]) -> Result<String, ()> {
        self.default_component()
    }

    fn visit_closed(&mut self, _is_closed: bool, _ignored: &[String]) -> Result<String, ()> {
        self.default_component()
    }

    fn visit_node(&mut self, _shape: &Object) -> Result<String, ()> {
        self.default_component()
    }

    fn visit_has_value(&mut self, _value: &Value) -> Result<String, ()> {
        self.default_component()
    }

    fn visit_in(&mut self, _values: &[Value]) -> Result<String, ()> {
        self.default_component()
    }

    fn visit_qualified_value_shape(&mut self, _shape: &Object, _q_min_count: Option<isize>, _q_max_count: Option<isize>, _disjoint: Option<bool>, _siblings: &[Object]) -> Result<String, ()> {
        self.default_component()
    }

    fn visit_deactivated(&mut self, _deactivated: bool) -> Result<String, ()> {
        self.default_component()
    }

    fn visit_basic_sparql(&mut self, _select: &str, _message: Option<&MessageMap>, _deactivated: Option<bool>, _prefixes: Option<&Vec<(String, String)>>) -> Result<String, ()> {
        self.default_component()
    }
}

#[test]
fn accept_hands_each_component_to_its_arm() {
    let mut v = Describe;
    assert_eq!(ASTComponent::MinCount(2).accept(&mut v), Ok("min 2".to_string()));
    let p = ASTComponent::Pattern { pattern: "^a".to_string(), flags: Some("i".to_string()) };
    assert_eq!(p.accept(&mut v), Ok("^a/i".to_string()));
    assert_eq!(ASTComponent::UniqueLang(true).accept(&mut v), Ok("other".to_string()));
}

#[test]
fn compiled_components_show_their_parameters() {
    assert_eq!(IRComponent::MinCount(2).to_display(), " MinCount: 2");
    assert_eq!(IRComponent::UniqueLang(true).to_display(), " UniqueLang: true");
    assert_eq!(IRComponent::Or(vec![0, 12]).to_display(), " Or: [0, 12]");
    assert_eq!(
        IRComponent::LanguageIn(vec!["en".to_string(), "es".to_string()]).to_display(),
        " LanguageIn: [en, es]"
    );
    assert_eq!(IRComponent::Deactivated(false).to_display(), "Deactivated: false");
    assert_eq!(IRComponent::Node(3).to_display(), " Node: 3");
}

#[test]
fn shape_references_are_written_by_their_ids() {
    let id = Object::Iri("http://ex/S".to_string());
    let mut map = HashMap::new();
    map.insert(0usize, Object::Iri("http://ex/T".to_string()));
    let mut g = Graph::new();
    IRComponent::Node(0).register(&id, &mut g, &map).unwrap();
    assert_eq!(g.len(), 1);
    match IRComponent::Node(7).register(&id, &mut g, &map) {
        Err(IRError::ShapeNotFound(7)) => {},
        _ => panic!("expected ShapeNotFound"),
    }
    assert_eq!(g.len(), 1);
}

struct IrDescribe;

impl IRComponentVisitor for IrDescribe {
    type Output = String;
    type Error = ();

    fn default_component(&mut self) -> Result<String, ()> {
        Ok("other".to_string())
    }

    fn visit_class(&mut self, _class: &Object) -> Result<String, ()> {
        self.default_component()
    }

    fn visit_datatype(&mut self, _datatype: &str) -> Result<String, ()> {
        self.default_component()
    }

    fn visit_node_kind(&mut self, _node_kind: &NodeKind) -> Result<String, ()> {
        self.default_component()
    }

    fn visit_min_count(&mut self, _count: isize) -> Result<String, ()> {
        Ok(format!("min {_count}"))
    }

    fn visit_max_count(&mut self, _count: isize) -> Result<String, ()> {
        self.default_component()
    }

    fn visit_min_exclusive(&mut self, _lit: &Literal) -> Result<String, ()> {
        self.default_component()
    }

    fn visit_max_exclusive(&mut self, _lit: &Literal) -> Result<String, ()> {
        self.default_component()
    }

    fn visit_min_inclusive(&mut self, _lit: &Literal) -> Result<String, ()> {
        self.default_component()
    }

    fn visit_max_inclusive(&mut self, _lit: &Literal) -> Result<String, ()> {
        self.default_component()
    }

    fn visit_min_length(&mut self, _len: isize) -> Result<String, ()> {
        self.default_component()
    }

    fn visit_max_length(&mut self, _len: isize) -> Result<String, ()> {
        self.default_component()
    }

    fn visit_pattern(&mut self, _pattern: &Pattern) -> Result<String, ()> {
        self.default_component()
    }

    fn visit_unique_lang(&mut self, _unique: bool) -> Result<String, ()> {
        self.default_component()
    }

    fn visit_language_in(&mut self, _langs: &[String]) -> Result<String, ()> {
        self.default_component()
    }

    fn visit_equals(&mut self, _iri: &str) -> Result<String, ()> {
        self.default_component()
    }

    fn visit_disjoint(&mut self, _iri: &str) -> Result<String, ()> {
        self.default_component()
    }

    fn visit_less_than(&mut self, _iri: &str) -> Result<String, ()> {
        self.default_component()
    }

    fn visit_less_than_or_equals(&mut self, _iri: &str) -> Result<String, ()> {
        self.default_component()
    }

    fn visit_or(&mut self, _shapes: &[usize]) -> Result<String, ()> {
        Ok(format!("or {:?}", _shapes))
    }

    fn visit_and(&mut self, _shapes: &[usize]) -> Result<String, ()> {
        Ok(format!("and {:?}", _shapes))
    }

    fn visit_not(&mut self, _shape: usize) -> Result<String, ()> {
        self.default_component()
    }

    fn visit_xone(&mut self, _shapes: &[usize]) -> Result<String, ()> {
        self.default_component()
    }

    fn visit_node(&mut self, _shape: usize) -> Result<String, ()> {
        self.default_component()
    }

    fn visit_qualified_value_shape(&mut self, _qvs: &QualifiedValueShape) -> Result<String, ()> {
        self.default_component()
    }

    fn visit_closed(&mut self, _closed: &Closed) -> Result<String, ()> {
        self.default_component()
    }

    fn visit_has_value(&mut self, _value: &Object) -> Result<String, ()> {
        self.default_component()
    }

    fn visit_in(&mut self, _values: &[Object]) -> Result<String, ()> {
        self.default_component()
    }

    fn visit_deactivated(&mut self, _deactivated: bool) -> Result<String, ()> {
        self.default_component()
    }

    fn visit_basic_sparql(&mut self, _sparql: &BasicSparql) -> Result<String, ()> {
        self.default_component()
    }
}

#[test]
fn accept_hands_each_compiled_component_to_its_arm() {
    let mut v = IrDescribe;
    assert_eq!(IRComponent::Or(vec![1, 2]).accept(&mut v), Ok("or [1, 2]".to_string()));
    assert_eq!(IRComponent::And(vec![3]).accept(&mut v), Ok("and [3]".to_string()));
    assert_eq!(IRComponent::MinCount(4).accept(&mut v), Ok("min 4".to_string()));
    assert_eq!(IRComponent::Deactivated(true).accept(&mut v), Ok("other".to_string()));
}
