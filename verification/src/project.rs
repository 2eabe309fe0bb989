//! Projecting a form: from a focus node, each property shape of a node shape
//! is evaluated against the data graph, yielding the values of its path, with
//! a nested focus for the values of a property that references a node shape.
use vstd::prelude::*;
use crate::ast::{ASTComponent, ASTNodeShape, ASTPropertyShape, ASTSchema, ASTShape, shape_id};
use crate::dto::{ProjectedForm, ProjectedProperty, ProjectedValue, TermValue, object_to_value, object_value, value_object};
use crate::engine::FormEngine;
use crate::graph::TripleV;
use crate::model::property_refs;
use crate::path::{path_list, path_values, views_set};
use crate::shapes::{key_of, path_key};
use crate::term::{Object, ObjectV, object_as_subject};
use crate::text::owned;

verus! {

/// The first node shape among `shapes` whose id is the IRI `id`.
pub open spec fn first_node_shape(shapes: Seq<ASTShape>, id: Seq<char>) -> Option<ASTNodeShape>
    decreases shapes.len(),
{
    if shapes.len() == 0 {
        None
    } else {
        match shapes[0] {
            ASTShape::NodeShape(ns) => if ns.id@ == ObjectV::Iri(id) {
                Some(*ns)
            } else {
                first_node_shape(shapes.drop_first(), id)
            },
            _ => first_node_shape(shapes.drop_first(), id),
        }
    }
}

/// The node shape whose id is the IRI `shape_id`, the first if several.
pub fn find_node_shape<'a>(ast: &'a ASTSchema, shape_id: &str) -> (r: Option<&'a ASTNodeShape>)
    ensures
        match r {
            Some(ns) => first_node_shape(ast.shapes_view(), shape_id@) == Some(*ns),
            None => first_node_shape(ast.shapes_view(), shape_id@) is None,
        },
{
    let shapes = ast.iter();
    let target = Object::Iri(owned(shape_id));
    let mut i: usize = 0;
    assert(shapes@.skip(0) =~= shapes@);
    while i < shapes.len()
        invariant
            i <= shapes.len(),
            shapes@ == ast.shapes_view(),
            target@ == ObjectV::Iri(shape_id@),
            first_node_shape(shapes@, shape_id@) == first_node_shape(shapes@.skip(i as int), shape_id@),
        decreases shapes.len() - i,
    {
        assert(shapes@.skip(i as int)[0] == shapes@[i as int]);
        assert(shapes@.skip(i as int).drop_first() =~= shapes@.skip(i as int + 1));
        match &shapes[i] {
            ASTShape::NodeShape(ns) => {
                if ns.id.equals(&target) {
                    return Some(&**ns);
                }
            },
            _ => {},
        }
        i = i + 1;
    }
    None
}

/// Some component of `cs` is `sh:node`.
pub open spec fn has_node_ref(cs: Seq<ASTComponent>) -> bool {
    exists|i: int| 0 <= i < cs.len() && cs[i] is Node
}

/// Projected value `pv` stands for value `y`: its plain form, and the same
/// again as a nested focus when the property references a node shape and
/// `y` is an IRI or a blank node.
pub open spec fn projected(has_node: bool, y: ObjectV, pv: ProjectedValue) -> bool {
    &&& pv.value@ == object_value(y)
    &&& if has_node && object_as_subject(y) is Some {
        pv.nested matches Some(t) && t@ == object_value(y)
    } else {
        pv.nested is None
    }
}

/// Projected property `pp` holds, for property shape `ps`, its path key and
/// the values of its path from `focus` in `g`, one projected value for each
/// value as the evaluation lists them, in that order; so each stands for a
/// value of the path, and every value is there.
pub open spec fn property_projection(g: Seq<TripleV>, focus: ObjectV, ps: ASTPropertyShape, pp: ProjectedProperty) -> bool {
    let vals = path_values(g, focus, ps.path@);
    let list = path_list(g, focus, ps.path@);
    let has_node = has_node_ref(ps.components@);
    &&& pp.path_key@ == key_of(ps.path@)
    &&& pp.values@.len() == list.len()
    &&& forall|k: int| 0 <= k < list.len() ==> projected(has_node, list[k], #[trigger] pp.values@[k])
    &&& forall|k: int| 0 <= k < pp.values@.len() ==> stands_for_some(vals, has_node, #[trigger] pp.values@[k])
    &&& forall|y: ObjectV| #[trigger] vals.contains(y) ==> is_listed(pp.values@, has_node, y)
}

/// `pv` is the projection of one of `vals`.
pub open spec fn stands_for_some(vals: Set<ObjectV>, has_node: bool, pv: ProjectedValue) -> bool {
    exists|y: ObjectV| #[trigger] vals.contains(y) && projected(has_node, y, pv)
}

/// Some projected value of `pvs` is the projection of `y`.
pub open spec fn is_listed(pvs: Seq<ProjectedValue>, has_node: bool, y: ObjectV) -> bool {
    exists|k: int| 0 <= k < pvs.len() && projected(has_node, y, #[trigger] pvs[k])
}

/// Does a component list hold `sh:node`?
fn any_node_ref(cs: &Vec<ASTComponent>) -> (r: bool)
    ensures
        r == has_node_ref(cs@),
{
    let mut i: usize = 0;
    while i < cs.len()
        invariant
            i <= cs.len(),
            forall|j: int| 0 <= j < i ==> !(cs@[j] is Node),
        decreases cs.len() - i,
    {
        match &cs[i] {
            ASTComponent::Node(_) => {
                return true;
            },
            _ => {},
        }
        i = i + 1;
    }
    false
}

/// The projection of one property shape from `focus`.
fn project_property(engine: &FormEngine, focus: &Object, ps: &ASTPropertyShape) -> (r: ProjectedProperty)
    ensures
        property_projection(engine.data_graph()@, focus@, *ps, r),
{
    let has_node = any_node_ref(&ps.components);
    let found = engine.eval_path(focus, &ps.path);
    let ghost vals = path_values(engine.data_graph()@, focus@, ps.path@);
    let mut values: Vec<ProjectedValue> = Vec::new();
    let mut i: usize = 0;
    while i < found.len()
        invariant
            i <= found.len(),
            values@.len() == i,
            forall|k: int| 0 <= k < i ==> projected(has_node, found@[k]@, #[trigger] values@[k]),
        decreases found.len() - i,
    {
        let n = &found[i];
        let nested = if has_node && n.is_resource() {
            Some(object_to_value(n))
        } else {
            None
        };
        values.push(ProjectedValue { value: object_to_value(n), nested });
        i = i + 1;
    }
    let r = ProjectedProperty { path_key: path_key(&ps.path), values };
    proof {
        let hn = has_node_ref(ps.components@);
        assert(has_node == hn);
        assert forall|k: int| 0 <= k < r.values@.len() implies stands_for_some(vals, hn, #[trigger] r.values@[k]) by {
            assert(crate::graph::object_views(found@)[k] == found@[k]@);
            assert(views_set(found@).contains(found@[k]@));
            assert(vals.contains(found@[k]@));
            assert(projected(hn, found@[k]@, r.values@[k]));
        }
        assert forall|k: int| 0 <= k < found.len() implies projected(
            hn,
            path_list(engine.data_graph()@, focus@, ps.path@)[k],
            #[trigger] r.values@[k],
        ) by {
            assert(crate::graph::object_views(found@)[k] == found@[k]@);
        }
        assert forall|y: ObjectV| #[trigger] vals.contains(y) implies is_listed(r.values@, hn, y) by {
            assert(views_set(found@).contains(y));
            let k = choose|k: int|
                0 <= k < crate::graph::object_views(found@).len() && crate::graph::object_views(found@)[k] == y;
            assert(found@[k]@ == y);
            assert(projected(hn, y, r.values@[k]));
        }
    }
    r
}

/// The form projected from `focus` for the node shape `shape_id`: for each
/// property shape it references, in order, the path key and the values of
/// the path from the focus in the data graph. With no such node shape, no
/// property.
pub fn project_form(engine: &FormEngine, ast: &ASTSchema, focus: &TermValue, shape_id: &str) -> (r: ProjectedForm)
    ensures
        r.focus@ == focus@,
        match first_node_shape(ast.shapes_view(), shape_id@) {
            None => r.properties@.len() == 0,
            Some(ns) => {
                let ps = property_refs(ast.shapes_view(), ns.property_shapes@);
                &&& r.properties@.len() == ps.len()
                &&& forall|i: int|
                    0 <= i < ps.len() ==> property_projection(
                        engine.data_graph()@,
                        value_object(focus@),
                        ps[i],
                        #[trigger] r.properties@[i],
                    )
            },
        },
{
    let focus_term = crate::dto::term_to_object(focus);
    let ghost shapes = ast.shapes_view();
    let mut properties: Vec<ProjectedProperty> = Vec::new();
    match find_node_shape(ast, shape_id) {
        Some(node) => {
            let refs = &node.property_shapes;
            let mut i: usize = 0;
            assert(refs@.take(0) =~= Seq::<Object>::empty());
            while i < refs.len()
                invariant
                    i <= refs.len(),
                    shapes == ast.shapes_view(),
                    focus_term@ == value_object(focus@),
                    properties@.len() == property_refs(shapes, refs@.take(i as int)).len(),
                    forall|j: int|
                        0 <= j < properties@.len() ==> property_projection(
                            engine.data_graph()@,
                            focus_term@,
                            property_refs(shapes, refs@.take(i as int))[j],
                            #[trigger] properties@[j],
                        ),
                decreases refs.len() - i,
            {
                let ghost pre = property_refs(shapes, refs@.take(i as int));
                assert(refs@.take(i as int + 1).drop_last() =~= refs@.take(i as int));
                assert(refs@.take(i as int + 1).last() == refs@[i as int]);
                match ast.get_shape(&refs[i]) {
                    Some(ASTShape::PropertyShape(ps)) => {
                        let pp = project_property(engine, &focus_term, ps);
                        properties.push(pp);
                        assert(property_refs(shapes, refs@.take(i as int + 1)) == pre.push(**ps));
                    },
                    _ => {},
                }
                i = i + 1;
            }
            assert(refs@.take(refs.len() as int) =~= refs@);
        },
        None => {},
    }
    ProjectedForm { focus: focus.duplicate(), properties }
}

} // verus!

verus! {

/// A property that references a node shape opens a nested form on every
/// value that is a resource: each projected value whose term is an IRI or a
/// blank node has that term, in its plain form, as its nested focus; any
/// other value (a literal) has none.
pub proof fn law_nested_focus_on_resources(
    g: Seq<TripleV>,
    focus: ObjectV,
    ps: ASTPropertyShape,
    pp: ProjectedProperty,
    k: int,
)
    requires
        property_projection(g, focus, ps, pp),
        has_node_ref(ps.components@),
        0 <= k < pp.values@.len(),
    ensures
        pp.values@[k].value@ == object_value(path_list(g, focus, ps.path@)[k]),
        (path_list(g, focus, ps.path@)[k] is Iri || path_list(g, focus, ps.path@)[k] is BlankNode) ==> (
        pp.values@[k].nested matches Some(t) && t@ == object_value(path_list(g, focus, ps.path@)[k])),
        (path_list(g, focus, ps.path@)[k] is Literal) ==> pp.values@[k].nested is None,
{
    let list = path_list(g, focus, ps.path@);
    assert(projected(true, list[k], pp.values@[k]));
}

} // verus!
