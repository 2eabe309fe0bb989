use rudof_form::ast::{ASTComponent, ASTSchema, NodeShapeBuilder, PropertyShapeBuilder, SchemaBuilder};
use rudof_form::dto::{PathExpr, RDFFormat, TermValue};
use rudof_form::engine::FormEngine;
use rudof_form::graph::Graph;
use rudof_form::model::{node_shape_to_ir, property_to_ir, schema_to_json};
use rudof_form::path::SHACLPath;
use rudof_form::project::{find_node_shape, project_form};
use rudof_form::shapes::path_key;
use rudof_form::term::{IriOrBlankNode, Literal, Object};
use rudof_form::types::{IriRef, NodeKind};

const EX: &str = "http://ex/";
const SH: &str = "http://www.w3.org/ns/shacl#";
const SHUI: &str = "http://www.w3.org/ns/shacl-ui#";
const XSD: &str = "http://www.w3.org/2001/XMLSchema#";

fn ex(l: &str) -> String {
    format!("{EX}{l}")
}

fn iri(s: &str) -> Object {
    Object::Iri(s.to_string())
}

fn person_schema() -> ASTSchema {
    let name = PropertyShapeBuilder::predicate(iri(&ex("namePS")), ex("name"))
        .datatype(IriRef::iri(format!("{XSD}string")))
        .min_count(1)
        .max_count(2)
        .build()
        .unwrap();
    let knows = PropertyShapeBuilder::predicate(iri(&ex("knowsPS")), ex("knows"))
        .component(ASTComponent::Node(iri(&ex("Person"))))
        .build()
        .unwrap();
    let person = NodeShapeBuilder::new(iri(&ex("Person")))
        .target_class(iri(&ex("PersonClass")))
        .property_shape(iri(&ex("namePS")))
        .property_shape(iri(&ex("knowsPS")))
        .property_shape(iri(&ex("missingPS")))
        .build()
        .unwrap();
    SchemaBuilder::new().node_shape(person).property_shape(name).property_shape(knows).build().unwrap()
}

fn shapes_graph() -> Graph {
    let mut g = Graph::new();
    let ps = IriOrBlankNode::Iri(ex("namePS"));
    g.add_triple(
        ps.clone(),
        format!("{SH}name"),
        Object::Literal(Literal::StringLiteral { lexical_form: "Name".to_string(), lang: Some("en".to_string()) }),
    );
    g.add_triple(ps.clone(), format!("{SH}order"), Object::Literal(Literal::IntegerLiteral(3)));
    g.add_triple(ps.clone(), format!("{SH}defaultValue"), Object::str("anon"));
    g.add_triple(
        IriOrBlankNode::Iri(ex("group1")),
        "http://www.w3.org/1999/02/22-rdf-syntax-ns#type".to_string(),
        iri(&format!("{SH}PropertyGroup")),
    );
    g
}

#[test]
fn schema_model_lists_node_shapes_and_classes() {
    let schema = person_schema();
    let graph = shapes_graph();
    let model = schema_to_json(&schema, &graph);
    assert_eq!(model.node_shapes.len(), 1);
    let ns = &model.node_shapes[0];
    assert_eq!(ns.id, ex("Person"));
    assert_eq!(ns.target_classes, vec![ex("PersonClass")]);
    assert_eq!(ns.instance_class, Some(ex("PersonClass")));
    assert_eq!(ns.properties.len(), 2, "the missing property shape is left out");
    assert_eq!(model.by_target_class, vec![(ex("PersonClass"), ex("Person"))]);
    assert_eq!(model.groups.len(), 1);
    assert_eq!(model.groups[0].id, ex("group1"));
}

#[test]
fn property_record_reads_constraints_and_annotations() {
    let schema = person_schema();
    let graph = shapes_graph();
    let ps = match schema.get_shape(&iri(&ex("namePS"))).unwrap() {
        rudof_form::ast::ASTShape::PropertyShape(ps) => ps,
        _ => panic!("property shape expected"),
    };
    let r = property_to_ir(ps, &schema, &graph);
    assert_eq!(r.id, Some(ex("namePS")));
    assert_eq!(r.path_key, ex("name"));
    assert!(matches!(&r.path, PathExpr::Predicate { iri } if *iri == ex("name")));
    assert_eq!(r.cardinality.min, Some(1));
    assert_eq!(r.cardinality.max, Some(2));
    assert_eq!(r.value.datatype, Some(format!("{XSD}string")));
    assert_eq!(r.value.default_value.as_ref().map(|t| t.value.clone()), Some("anon".to_string()));
    assert_eq!(r.presentation.names.len(), 1);
    assert_eq!(r.presentation.names[0].value, "Name");
    assert_eq!(r.presentation.names[0].language, "en");
    assert_eq!(r.presentation.order, Some("3".to_string()));
    assert_eq!(r.presentation.editor, Some(format!("{SHUI}TextFieldEditor")));
    assert_eq!(r.components.len(), 3, "sh:name, sh:order and sh:defaultValue");
    assert_eq!(r.components[0].iri, format!("{SH}name"));
}

#[test]
fn node_reference_gets_the_details_editor() {
    let schema = person_schema();
    let graph = Graph::new();
    let person = find_node_shape(&schema, &ex("Person")).unwrap();
    let ir = node_shape_to_ir(&iri(&ex("Person")), person, &schema, &graph);
    let knows = &ir.properties[1];
    assert_eq!(knows.node, Some(ex("Person")));
    assert_eq!(knows.presentation.editor, Some(format!("{SHUI}DetailsEditor")));
}

#[test]
fn default_editors_follow_the_facts() {
    let graph = Graph::new();
    let cases: Vec<(PropertyShapeBuilder, &str)> = vec![
        (
            PropertyShapeBuilder::predicate(iri(&ex("b")), ex("b")).datatype(IriRef::iri(format!("{XSD}boolean"))),
            "BooleanSelectEditor",
        ),
        (
            PropertyShapeBuilder::predicate(iri(&ex("d")), ex("d")).datatype(IriRef::iri(format!("{XSD}date"))),
            "DatePickerEditor",
        ),
        (
            PropertyShapeBuilder::predicate(iri(&ex("i")), ex("i")).datatype(IriRef::iri(format!("{XSD}integer"))),
            "NumberFieldEditor",
        ),
        (PropertyShapeBuilder::predicate(iri(&ex("k")), ex("k")).node_kind(NodeKind::Iri), "IRIEditor"),
        (PropertyShapeBuilder::predicate(iri(&ex("c")), ex("c")).class(iri(&ex("C"))), "AutoCompleteEditor"),
        (
            PropertyShapeBuilder::predicate(iri(&ex("l")), ex("l"))
                .datatype(IriRef::iri("http://www.w3.org/1999/02/22-rdf-syntax-ns#langString".to_string())),
            "TextFieldWithLangEditor",
        ),
    ];
    for (b, editor) in cases {
        let ps = b.build().unwrap();
        let schema = SchemaBuilder::new().build().unwrap();
        let r = property_to_ir(&ps, &schema, &graph);
        assert_eq!(r.presentation.editor, Some(format!("{SHUI}{editor}")));
    }
}

#[test]
fn explicit_editor_wins() {
    let mut graph = Graph::new();
    graph.add_triple(IriOrBlankNode::Iri(ex("p")), format!("{SHUI}editor"), iri(&format!("{SHUI}RichTextEditor")));
    let ps = PropertyShapeBuilder::predicate(iri(&ex("p")), ex("p"))
        .datatype(IriRef::iri(format!("{XSD}boolean")))
        .build()
        .unwrap();
    let schema = SchemaBuilder::new().build().unwrap();
    let r = property_to_ir(&ps, &schema, &graph);
    assert_eq!(r.presentation.editor, Some(format!("{SHUI}RichTextEditor")));
}

#[test]
fn or_branches_expand_and_give_the_editor() {
    let branch = PropertyShapeBuilder::predicate(iri(&ex("branch")), ex("v"))
        .datatype(IriRef::iri(format!("{XSD}boolean")))
        .build()
        .unwrap();
    let top = PropertyShapeBuilder::predicate(iri(&ex("top")), ex("v"))
        .component(ASTComponent::Or(vec![iri(&ex("branch")), iri(&ex("nothing"))]))
        .build()
        .unwrap();
    let schema = SchemaBuilder::new().property_shape(branch).build().unwrap();
    let r = property_to_ir(&top, &schema, &Graph::new());
    let or = r.logical.or.as_ref().unwrap();
    assert_eq!(or.len(), 1);
    assert_eq!(or[0].id, Some(ex("branch")));
    assert_eq!(r.presentation.editor, Some(format!("{SHUI}BooleanSelectEditor")));
}

#[test]
fn cyclic_branches_stop() {
    let a = PropertyShapeBuilder::predicate(iri(&ex("A")), ex("v"))
        .component(ASTComponent::Not(iri(&ex("B"))))
        .build()
        .unwrap();
    let b = PropertyShapeBuilder::predicate(iri(&ex("B")), ex("v"))
        .component(ASTComponent::And(vec![iri(&ex("A"))]))
        .build()
        .unwrap();
    let schema = SchemaBuilder::new().property_shape(a).property_shape(b).build().unwrap();
    let top = match schema.get_shape(&iri(&ex("A"))).unwrap() {
        rudof_form::ast::ASTShape::PropertyShape(ps) => ps,
        _ => panic!("property shape expected"),
    };
    let r = property_to_ir(top, &schema, &Graph::new());
    let not = r.logical.not.as_ref().unwrap();
    assert_eq!(not.id, Some(ex("B")));
    assert_eq!(not.logical.and.as_ref().unwrap().len(), 0, "the reference back to A is left out");
}

#[test]
fn path_keys() {
    let p = |l: &str| SHACLPath::Predicate { pred: l.to_string() };
    assert_eq!(path_key(&p("a")), "a");
    assert_eq!(path_key(&SHACLPath::Inverse { path: Box::new(p("a")) }), "^a");
    assert_eq!(path_key(&SHACLPath::Sequence { paths: vec![p("a"), p("b")] }), "(a/b)");
    assert_eq!(path_key(&SHACLPath::Alternative { paths: vec![p("a"), p("b")] }), "(a|b)");
    assert_eq!(path_key(&SHACLPath::ZeroOrMore { path: Box::new(p("a")) }), "a*");
    assert_eq!(path_key(&SHACLPath::OneOrMore { path: Box::new(p("a")) }), "a+");
    assert_eq!(path_key(&SHACLPath::ZeroOrOne { path: Box::new(p("a")) }), "a?");
}

#[test]
fn projection_reads_values_and_nested_foci() {
    let schema = person_schema();
    let data = r#"
        @prefix ex: <http://ex/> .
        ex:alice ex:name "Alice" ;
            ex:knows ex:bob , "not a node" .
    "#;
    let mut engine = FormEngine::new();
    engine.load_data(data, &RDFFormat::Turtle).unwrap();
    let focus = TermValue::named(&ex("alice"));
    let form = project_form(&engine, &schema, &focus, &ex("Person"));
    assert_eq!(form.focus.value, ex("alice"));
    assert_eq!(form.properties.len(), 2);
    assert_eq!(form.properties[0].path_key, ex("name"));
    assert_eq!(form.properties[0].values.len(), 1);
    assert_eq!(form.properties[0].values[0].value.value, "Alice");
    assert!(form.properties[0].values[0].nested.is_none());
    let knows = &form.properties[1].values;
    assert_eq!(knows.len(), 2);
    for v in knows {
        if v.value.term_type == "NamedNode" {
            assert_eq!(v.nested.as_ref().map(|t| t.value.clone()), Some(ex("bob")));
        } else {
            assert!(v.nested.is_none());
        }
    }
}

#[test]
fn projection_of_an_unknown_shape_is_empty() {
    let schema = person_schema();
    let engine = FormEngine::new();
    let focus = TermValue::named(&ex("alice"));
    let form = project_form(&engine, &schema, &focus, &ex("Nope"));
    assert_eq!(form.properties.len(), 0);
    assert!(find_node_shape(&schema, &ex("namePS")).is_none(), "a property shape is no node shape");
}
