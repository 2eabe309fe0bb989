use rudof_form::ast::{BuildError, NodeShapeBuilder, PropertyShapeBuilder, SchemaBuilder};
use rudof_form::term::Object;
use rudof_form::types::IriRef;

fn iri(s: &str) -> Object {
    Object::Iri(s.to_string())
}

#[test]
fn builds_schema_with_invariants() {
    let ps = PropertyShapeBuilder::predicate(iri("http://ex/namePS"), "http://ex/name".to_string())
        .datatype(IriRef::iri("http://www.w3.org/2001/XMLSchema#string".to_string()))
        .min_count(1)
        .build()
        .unwrap();

    let ns = NodeShapeBuilder::new(iri("http://ex/Person"))
        .target_class(iri("http://ex/Person"))
        .property_shape(iri("http://ex/namePS"))
        .build()
        .unwrap();

    let schema = SchemaBuilder::new().node_shape(ns).property_shape(ps).build().unwrap();
    assert_eq!(schema.iter().len(), 2);
}

#[test]
fn rejects_duplicate_ids() {
    let a = NodeShapeBuilder::new(iri("http://ex/X")).build().unwrap();
    let b = NodeShapeBuilder::new(iri("http://ex/X")).build().unwrap();
    let err = SchemaBuilder::new().node_shape(a).node_shape(b).build();
    assert!(matches!(err, Err(BuildError::DuplicateShapeId(_))));
}

#[test]
fn schema_keeps_shapes_in_order_and_finds_them() {
    let a = NodeShapeBuilder::new(iri("http://ex/A")).build().unwrap();
    let b = NodeShapeBuilder::new(iri("http://ex/B")).build().unwrap();
    let schema = SchemaBuilder::new().node_shape(a).node_shape(b).build().unwrap();
    assert_eq!(schema.len(), 2);
    assert!(schema.get_shape(&iri("http://ex/B")).is_some());
    assert!(schema.get_shape(&iri("http://ex/C")).is_none());
    assert!(schema.iter()[0].id().equals(&iri("http://ex/A")));
}

#[test]
fn duplicate_id_later_in_the_list_is_reported() {
    let a = NodeShapeBuilder::new(iri("http://ex/A")).build().unwrap();
    let b = NodeShapeBuilder::new(iri("http://ex/B")).build().unwrap();
    let ps = PropertyShapeBuilder::predicate(iri("http://ex/A"), "http://ex/p".to_string()).build().unwrap();
    let err = SchemaBuilder::new().node_shape(a).node_shape(b).property_shape(ps).build();
    match err {
        Err(BuildError::DuplicateShapeId(o)) => assert!(o.equals(&iri("http://ex/A"))),
        _ => panic!("expected a duplicate id"),
    }
}
