//! The shape model a form is built from: each property shape with its nested
//! `sh:or` / `sh:xone` / `sh:and` / `sh:not` branches, each node shape with its
//! properties, and the whole schema with the property groups of the shapes graph.
use vstd::prelude::*;
use crate::ast::{ASTComponent, ASTNodeShape, ASTPropertyShape, ASTSchema, ASTShape, lookup, shape_id, shape_ids};
use crate::dto::{LogicalConstraints, NodeShapeIR, PropertyShapeIR, ShapeModelJson};
use crate::graph::{Graph, TripleV, contains_object, object_views, subjects_of};
use crate::term::{Object, ObjectV, opt_view};
use crate::types::Target;
use crate::shapes::{
    collect_constraints, component_of, constraints_of, default_editor, default_of, default_value, explicit_editor,
    first_occurrences, flat, group_of, hints_but_editor, iri_of, key_of, last_comp, object_iri, object_str, opt_int,
    path_key, path_to_ir, pick_max_count, pick_min_count, pick_node, predicates_of, presentation, read_components,
    read_groups, resolve_default_editor, term_text,
};
use crate::text::pair_views;
use crate::vocab;

verus! {

// ---------------------------------------------------------------------------
// Branch references
// ---------------------------------------------------------------------------

/// `sh:or`: its branch references.
pub open spec fn pick_or(c: ASTComponent) -> Option<Seq<Object>> {
    match c {
        ASTComponent::Or(refs) => Some(refs@),
        _ => None,
    }
}

/// `sh:xone`: its branch references.
pub open spec fn pick_xone(c: ASTComponent) -> Option<Seq<Object>> {
    match c {
        ASTComponent::Xone(refs) => Some(refs@),
        _ => None,
    }
}

/// `sh:and`: its branch references.
pub open spec fn pick_and(c: ASTComponent) -> Option<Seq<Object>> {
    match c {
        ASTComponent::And(refs) => Some(refs@),
        _ => None,
    }
}

/// The shapes being expanded, outermost first: distinct, and all but the
/// outermost naming shapes of the schema.
pub open spec fn chain_ok(shapes: Seq<ASTShape>, visiting: Seq<ObjectV>) -> bool {
    &&& visiting.len() >= 1
    &&& visiting.no_duplicates()
    &&& forall|i: int| 1 <= i < visiting.len() ==> shape_ids(shapes).contains(#[trigger] visiting[i])
}

/// The property shape that reference `o` names in the schema, unless it is
/// one of the shapes being expanded (a cycle of references).
pub open spec fn branch_target(shapes: Seq<ASTShape>, visiting: Seq<ObjectV>, o: ObjectV) -> Option<
    ASTPropertyShape,
> {
    match lookup(shapes, o) {
        Some(ASTShape::PropertyShape(b)) => if visiting.contains(o) {
            None
        } else {
            Some(*b)
        },
        _ => None,
    }
}

/// The property shapes that references `refs` name, in order; a reference
/// to something else, or to a shape being expanded, is left out.
pub open spec fn branch_shapes(shapes: Seq<ASTShape>, visiting: Seq<ObjectV>, refs: Seq<Object>) -> Seq<
    ASTPropertyShape,
>
    decreases refs.len(),
{
    if refs.len() == 0 {
        Seq::empty()
    } else {
        match branch_target(shapes, visiting, refs.last()@) {
            Some(b) => branch_shapes(shapes, visiting, refs.drop_last()).push(b),
            None => branch_shapes(shapes, visiting, refs.drop_last()),
        }
    }
}

/// The property shape of the last `sh:not` whose reference names one.
pub open spec fn not_target(shapes: Seq<ASTShape>, visiting: Seq<ObjectV>, cs: Seq<ASTComponent>) -> Option<
    ASTPropertyShape,
>
    decreases cs.len(),
{
    if cs.len() == 0 {
        None
    } else {
        match cs.last() {
            ASTComponent::Not(o) => match branch_target(shapes, visiting, o@) {
                Some(b) => Some(b),
                None => not_target(shapes, visiting, cs.drop_last()),
            },
            _ => not_target(shapes, visiting, cs.drop_last()),
        }
    }
}

// ---------------------------------------------------------------------------
// What a property record holds
// ---------------------------------------------------------------------------

/// The fields of property record `r` that come from property shape `ps` and
/// the shapes graph `g` alone: its IRI, path and path key, value constraints
/// and `sh:defaultValue`, cardinality, `sh:node`, form annotations, the editor
/// (`shui:editor`, else the default editor) and the open component bag.
pub open spec fn own_fields(g: Seq<TripleV>, ps: ASTPropertyShape, r: PropertyShapeIR) -> bool {
    let cs = ps.components@;
    let node = ps.id@;
    &&& opt_view(r.id) == iri_of(node)
    &&& r.path@ == ps.path@
    &&& r.path_key@ == key_of(ps.path@)
    &&& constraints_of(cs, r.value)
    &&& match default_of(g, node) {
        Some(v) => r.value.default_value matches Some(t) && t@ == v,
        None => r.value.default_value is None,
    }
    &&& opt_int(r.cardinality.min) == last_comp(cs, |c: ASTComponent| pick_min_count(c))
    &&& opt_int(r.cardinality.max) == last_comp(cs, |c: ASTComponent| pick_max_count(c))
    &&& opt_view(r.node) == flat(last_comp(cs, |c: ASTComponent| pick_node(c)))
    &&& hints_but_editor(g, node, r.presentation)
    &&& opt_view(r.presentation.editor) == Some(
        match explicit_editor(g, node) {
            Some(e) => e,
            None => default_editor(r.value, r.node, r.logical),
        },
    )
    &&& r.components@.len() == first_occurrences(predicates_of(g, node)).len()
    &&& forall|i: int|
        0 <= i < r.components@.len() ==> component_of(
            g,
            node,
            first_occurrences(predicates_of(g, node))[i],
            #[trigger] r.components@[i],
        )
}

/// Property record `r` describes property shape `ps`, expanded inside the
/// shapes `visiting`: its own fields, and each branch expanded in turn.
pub open spec fn is_ir(
    shapes: Seq<ASTShape>,
    g: Seq<TripleV>,
    visiting: Seq<ObjectV>,
    ps: ASTPropertyShape,
    r: PropertyShapeIR,
) -> bool
    decreases r,
{
    &&& own_fields(g, ps, r)
    &&& logical_ok(shapes, g, visiting, ps.components@, r.logical)
}

/// The logical constraints `l` that components `cs` state: the branches of
/// the last `sh:or`, `sh:xone` and `sh:and`, and the last `sh:not` that names
/// a property shape, each expanded.
pub open spec fn logical_ok(
    shapes: Seq<ASTShape>,
    g: Seq<TripleV>,
    visiting: Seq<ObjectV>,
    cs: Seq<ASTComponent>,
    l: LogicalConstraints,
) -> bool
    decreases l,
{
    &&& match last_comp(cs, |c: ASTComponent| pick_or(c)) {
        Some(refs) => l.or matches Some(v) && branches_ir(
            shapes,
            g,
            visiting,
            branch_shapes(shapes, visiting, refs),
            v@,
        ),
        None => l.or is None,
    }
    &&& match last_comp(cs, |c: ASTComponent| pick_xone(c)) {
        Some(refs) => l.xone matches Some(v) && branches_ir(
            shapes,
            g,
            visiting,
            branch_shapes(shapes, visiting, refs),
            v@,
        ),
        None => l.xone is None,
    }
    &&& match last_comp(cs, |c: ASTComponent| pick_and(c)) {
        Some(refs) => l.and matches Some(v) && branches_ir(
            shapes,
            g,
            visiting,
            branch_shapes(shapes, visiting, refs),
            v@,
        ),
        None => l.and is None,
    }
    &&& match not_target(shapes, visiting, cs) {
        Some(b) => l.not matches Some(n) && is_ir(shapes, g, visiting.push(b.id@), b, *n),
        None => l.not is None,
    }
}

/// Records `v` describe branch shapes `bs`, one for one, each expanded
/// inside `visiting` and itself.
pub open spec fn branches_ir(
    shapes: Seq<ASTShape>,
    g: Seq<TripleV>,
    visiting: Seq<ObjectV>,
    bs: Seq<ASTPropertyShape>,
    v: Seq<PropertyShapeIR>,
) -> bool
    decreases v,
{
    if v.len() == 0 {
        bs.len() == 0
    } else {
        &&& bs.len() == v.len()
        &&& branches_ir(shapes, g, visiting, bs.drop_last(), v.drop_last())
        &&& is_ir(shapes, g, visiting.push(bs.last().id@), bs.last(), v.last())
    }
}

// ---------------------------------------------------------------------------
// Expanding property shapes
// ---------------------------------------------------------------------------

/// What `lookup` finds has the id it was asked for and is one of the shapes.
pub proof fn lemma_lookup(shapes: Seq<ASTShape>, id: ObjectV)
    ensures
        lookup(shapes, id) matches Some(s) ==> (shape_id(s) == id && shape_ids(shapes).contains(id)),
    decreases shapes.len(),
{
    if shapes.len() > 0 && shape_id(shapes[0]) != id {
        lemma_lookup(shapes.drop_first(), id);
        if lookup(shapes, id) is Some {
            let j = choose|j: int| 0 <= j < shape_ids(shapes.drop_first()).len() && shape_ids(shapes.drop_first())[j] == id;
            assert(shape_ids(shapes)[j + 1] == id);
        }
    } else if shapes.len() > 0 {
        assert(shape_ids(shapes)[0] == id);
    }
}

/// A chain of shapes being expanded is at most one longer than the schema.
proof fn lemma_chain_bound(shapes: Seq<ASTShape>, visiting: Seq<ObjectV>)
    requires
        chain_ok(shapes, visiting),
    ensures
        visiting.len() <= shapes.len() + 1,
{
    broadcast use vstd::seq_lib::seq_to_set_is_finite;

    let rest = visiting.drop_first();
    let ids = shape_ids(shapes);
    assert(rest.no_duplicates()) by {
        assert forall|i: int, j: int| 0 <= i < rest.len() && 0 <= j < rest.len() && i != j implies rest[i]
            != rest[j] by {
            assert(rest[i] == visiting[i + 1]);
            assert(rest[j] == visiting[j + 1]);
        }
    }
    rest.unique_seq_to_set();
    ids.lemma_cardinality_of_set();
    assert(rest.to_set().subset_of(ids.to_set())) by {
        assert forall|x: ObjectV| rest.to_set().contains(x) implies ids.to_set().contains(x) by {
            let i = choose|i: int| 0 <= i < rest.len() && rest[i] == x;
            assert(visiting[i + 1] == x);
        }
    }
    vstd::set_lib::lemma_len_subset(rest.to_set(), ids.to_set());
}

/// Adding a reference to a property shape that is not being expanded keeps
/// the chain valid.
proof fn lemma_chain_extend(shapes: Seq<ASTShape>, visiting: Seq<ObjectV>, o: ObjectV)
    requires
        chain_ok(shapes, visiting),
        branch_target(shapes, visiting, o) is Some,
    ensures
        chain_ok(shapes, visiting.push(o)),
        visiting.push(o).len() <= shapes.len() + 1,
        branch_target(shapes, visiting, o)->0.id@ == o,
{
    lemma_lookup(shapes, o);
    let v2 = visiting.push(o);
    assert forall|i: int| 1 <= i < v2.len() implies shape_ids(shapes).contains(#[trigger] v2[i]) by {
        if i < visiting.len() {
            assert(v2[i] == visiting[i]);
        }
    }
    assert(v2.no_duplicates()) by {
        assert forall|i: int, j: int| 0 <= i < v2.len() && 0 <= j < v2.len() && i != j implies v2[i] != v2[j] by {
            if i == visiting.len() as int {
                assert(visiting.contains(visiting[j]));
            } else if j == visiting.len() as int {
                assert(visiting.contains(visiting[i]));
            }
        }
    }
    lemma_chain_bound(shapes, v2);
}

/// A copy of the chain with `o` added at the end.
fn extend_chain(visiting: &Vec<Object>, o: &Object) -> (r: Vec<Object>)
    ensures
        object_views(r@) == object_views(visiting@).push(o@),
{
    let mut r: Vec<Object> = Vec::new();
    let mut i: usize = 0;
    while i < visiting.len()
        invariant
            i <= visiting.len(),
            object_views(r@) == object_views(visiting@).take(i as int),
        decreases visiting.len() - i,
    {
        r.push(visiting[i].clone());
        assert(object_views(visiting@).take(i as int + 1) =~= object_views(visiting@).take(i as int).push(
            visiting@[i as int]@,
        ));
        assert(object_views(r@) =~= object_views(visiting@).take(i as int + 1));
        i = i + 1;
    }
    assert(object_views(visiting@).take(visiting.len() as int) =~= object_views(visiting@));
    r.push(o.clone());
    assert(object_views(r@) =~= object_views(visiting@).push(o@));
    r
}

/// The records of the property shapes that branch references `refs` name,
/// expanded inside the shapes `visiting`.
fn resolve_branches(refs: &Vec<Object>, schema: &ASTSchema, graph: &Graph, visiting: &Vec<Object>) -> (r: Vec<
    PropertyShapeIR,
>)
    requires
        chain_ok(schema.shapes_view(), object_views(visiting@)),
    ensures
        branches_ir(
            schema.shapes_view(),
            graph@,
            object_views(visiting@),
            branch_shapes(schema.shapes_view(), object_views(visiting@), refs@),
            r@,
        ),
    decreases schema.shapes_view().len() + 1 - visiting@.len(), 0int,
{
    let ghost shapes = schema.shapes_view();
    let ghost vv = object_views(visiting@);
    let mut out: Vec<PropertyShapeIR> = Vec::new();
    let mut i: usize = 0;
    assert(refs@.take(0) =~= Seq::<Object>::empty());
    while i < refs.len()
        invariant
            i <= refs.len(),
            shapes == schema.shapes_view(),
            vv == object_views(visiting@),
            chain_ok(shapes, vv),
            branches_ir(shapes, graph@, vv, branch_shapes(shapes, vv, refs@.take(i as int)), out@),
        decreases refs.len() - i,
    {
        let o = &refs[i];
        let ghost pre = branch_shapes(shapes, vv, refs@.take(i as int));
        assert(refs@.take(i as int + 1).drop_last() =~= refs@.take(i as int));
        assert(refs@.take(i as int + 1).last() == refs@[i as int]);
        match schema.get_shape(o) {
            Some(ASTShape::PropertyShape(b)) => {
                if !contains_object(visiting, o) {
                    let v2 = extend_chain(visiting, o);
                    proof {
                        lemma_chain_extend(shapes, vv, o@);
                    }
                    let x = property_ir(b, schema, graph, &v2);
                    let ghost before = out@;
                    out.push(x);
                    proof {
                        assert(out@.drop_last() =~= before);
                        assert(branch_shapes(shapes, vv, refs@.take(i as int + 1)) == pre.push(**b));
                        assert(pre.push(**b).drop_last() =~= pre);
                    }
                }
            },
            _ => {},
        }
        i = i + 1;
    }
    assert(refs@.take(refs.len() as int) =~= refs@);
    out
}

/// The logical constraints that components `cs` state, their branches
/// expanded inside the shapes `visiting`.
fn collect_logical(cs: &Vec<ASTComponent>, schema: &ASTSchema, graph: &Graph, visiting: &Vec<Object>) -> (r:
    LogicalConstraints)
    requires
        chain_ok(schema.shapes_view(), object_views(visiting@)),
    ensures
        logical_ok(schema.shapes_view(), graph@, object_views(visiting@), cs@, r),
    decreases schema.shapes_view().len() + 1 - visiting@.len(), 1int,
{
    let ghost shapes = schema.shapes_view();
    let ghost vv = object_views(visiting@);
    let mut l = LogicalConstraints { or: None, xone: None, and: None, not: None };
    let mut i: usize = 0;
    assert(cs@.take(0) =~= Seq::<ASTComponent>::empty());
    while i < cs.len()
        invariant
            i <= cs.len(),
            shapes == schema.shapes_view(),
            vv == object_views(visiting@),
            chain_ok(shapes, vv),
            logical_ok(shapes, graph@, vv, cs@.take(i as int), l),
        decreases cs.len() - i,
    {
        assert(cs@.take(i as int + 1).drop_last() =~= cs@.take(i as int));
        assert(cs@.take(i as int + 1).last() == cs@[i as int]);
        match &cs[i] {
            ASTComponent::Or(refs) => {
                l.or = Some(resolve_branches(refs, schema, graph, visiting));
            },
            ASTComponent::Xone(refs) => {
                l.xone = Some(resolve_branches(refs, schema, graph, visiting));
            },
            ASTComponent::And(refs) => {
                l.and = Some(resolve_branches(refs, schema, graph, visiting));
            },
            ASTComponent::Not(o) => {
                match schema.get_shape(o) {
                    Some(ASTShape::PropertyShape(b)) => {
                        if !contains_object(visiting, o) {
                            let v2 = extend_chain(visiting, o);
                            proof {
                                lemma_chain_extend(shapes, vv, o@);
                            }
                            let x = property_ir(b, schema, graph, &v2);
                            l.not = Some(Box::new(x));
                        }
                    },
                    _ => {},
                }
            },
            _ => {},
        }
        i = i + 1;
    }
    assert(cs@.take(cs.len() as int) =~= cs@);
    l
}

/// The record of property shape `ps`, expanded inside the shapes `visiting`.
fn property_ir(ps: &ASTPropertyShape, schema: &ASTSchema, graph: &Graph, visiting: &Vec<Object>) -> (r:
    PropertyShapeIR)
    requires
        chain_ok(schema.shapes_view(), object_views(visiting@)),
    ensures
        is_ir(schema.shapes_view(), graph@, object_views(visiting@), *ps, r),
    decreases schema.shapes_view().len() + 1 - visiting@.len(), 2int,
{
    let (mut value, cardinality, node) = collect_constraints(&ps.components);
    let logical = collect_logical(&ps.components, schema, graph, visiting);
    value.default_value = default_value(graph, &ps.id);
    let mut hints = presentation(graph, &ps.id);
    if hints.editor.is_none() {
        hints.editor = Some(resolve_default_editor(&value, &node, &logical));
    }
    PropertyShapeIR {
        id: object_iri(&ps.id),
        path: path_to_ir(&ps.path),
        path_key: path_key(&ps.path),
        cardinality,
        value,
        logical,
        node,
        presentation: hints,
        components: read_components(graph, &ps.id),
    }
}

/// The record of property shape `ps`: its constraints, form annotations and
/// editor, and its `sh:or` / `sh:xone` / `sh:and` / `sh:not` branches, each
/// expanded in turn. A branch that refers back to a shape being expanded is
/// left out.
pub fn property_to_ir(ps: &ASTPropertyShape, schema: &ASTSchema, graph: &Graph) -> (r: PropertyShapeIR)
    ensures
        is_ir(schema.shapes_view(), graph@, seq![ps.id@], *ps, r),
{
    let mut start: Vec<Object> = Vec::new();
    start.push(ps.id.clone());
    assert(object_views(start@) =~= seq![ps.id@]);
    assert(seq![ps.id@].no_duplicates());
    property_ir(ps, schema, graph, &start)
}

// ---------------------------------------------------------------------------
// Node shapes and the schema
// ---------------------------------------------------------------------------

/// The class that a target names: `sh:targetClass`, or the shape itself
/// being a class, when the class is an IRI.
pub open spec fn target_class_of(t: Target) -> Option<Seq<char>> {
    match t {
        Target::Class(o) => iri_of(o@),
        Target::ImplicitClass(o) => iri_of(o@),
        _ => None,
    }
}

/// The target classes among targets `ts`, in order.
pub open spec fn target_classes(ts: Seq<Target>) -> Seq<Seq<char>>
    decreases ts.len(),
{
    if ts.len() == 0 {
        Seq::empty()
    } else {
        match target_class_of(ts.last()) {
            Some(c) => target_classes(ts.drop_last()).push(c),
            None => target_classes(ts.drop_last()),
        }
    }
}

/// The property shapes that references `refs` name in the schema, in order.
pub open spec fn property_refs(shapes: Seq<ASTShape>, refs: Seq<Object>) -> Seq<ASTPropertyShape> {
    branch_shapes(shapes, Seq::empty(), refs)
}

/// Node record `r` describes node shape `ns` with id `id`: the id's text,
/// its target classes (the first also as the instance class), and a record
/// for each property shape it references.
pub open spec fn node_ir_ok(
    shapes: Seq<ASTShape>,
    g: Seq<TripleV>,
    id: ObjectV,
    ns: ASTNodeShape,
    r: NodeShapeIR,
) -> bool {
    let tcs = target_classes(ns.targets@);
    let ps = property_refs(shapes, ns.property_shapes@);
    &&& r.id@ == term_text(id)
    &&& crate::text::views(r.target_classes@) == tcs
    &&& opt_view(r.instance_class) == (if tcs.len() > 0 {
        Some(tcs[0])
    } else {
        None
    })
    &&& r.properties@.len() == ps.len()
    &&& forall|i: int|
        0 <= i < ps.len() ==> is_ir(shapes, g, seq![ps[i].id@], ps[i], #[trigger] r.properties@[i])
    &&& r.closed is None
}

/// The target classes of a node shape.
fn collect_target_classes(ts: &Vec<Target>) -> (r: Vec<String>)
    ensures
        crate::text::views(r@) == target_classes(ts@),
{
    let mut out: Vec<String> = Vec::new();
    let mut i: usize = 0;
    assert(ts@.take(0) =~= Seq::<Target>::empty());
    while i < ts.len()
        invariant
            i <= ts.len(),
            crate::text::views(out@) == target_classes(ts@.take(i as int)),
        decreases ts.len() - i,
    {
        assert(ts@.take(i as int + 1).drop_last() =~= ts@.take(i as int));
        assert(ts@.take(i as int + 1).last() == ts@[i as int]);
        let c = match &ts[i] {
            Target::Class(o) => object_iri(o),
            Target::ImplicitClass(o) => object_iri(o),
            _ => None,
        };
        match c {
            Some(c) => {
                let ghost before = out@;
                out.push(c);
                assert(crate::text::views(out@) =~= crate::text::views(before).push(out@.last()@));
            },
            None => {},
        }
        i = i + 1;
    }
    assert(ts@.take(ts.len() as int) =~= ts@);
    out
}

/// The record of node shape `ns`, whose id is `id`.
pub fn node_shape_to_ir(id: &Object, ns: &ASTNodeShape, schema: &ASTSchema, graph: &Graph) -> (r: NodeShapeIR)
    ensures
        node_ir_ok(schema.shapes_view(), graph@, id@, *ns, r),
{
    let ghost shapes = schema.shapes_view();
    let target_classes = collect_target_classes(&ns.targets);
    let instance_class = if target_classes.len() > 0 {
        Some(target_classes[0].clone())
    } else {
        None
    };
    let refs = &ns.property_shapes;
    let mut properties: Vec<PropertyShapeIR> = Vec::new();
    let mut i: usize = 0;
    assert(refs@.take(0) =~= Seq::<Object>::empty());
    while i < refs.len()
        invariant
            i <= refs.len(),
            shapes == schema.shapes_view(),
            refs == &ns.property_shapes,
            properties@.len() == property_refs(shapes, refs@.take(i as int)).len(),
            forall|j: int|
                0 <= j < properties@.len() ==> is_ir(
                    shapes,
                    graph@,
                    seq![property_refs(shapes, refs@.take(i as int))[j].id@],
                    property_refs(shapes, refs@.take(i as int))[j],
                    #[trigger] properties@[j],
                ),
        decreases refs.len() - i,
    {
        let ghost pre = property_refs(shapes, refs@.take(i as int));
        assert(refs@.take(i as int + 1).drop_last() =~= refs@.take(i as int));
        assert(refs@.take(i as int + 1).last() == refs@[i as int]);
        match schema.get_shape(&refs[i]) {
            Some(ASTShape::PropertyShape(b)) => {
                let x = property_to_ir(b, schema, graph);
                properties.push(x);
                assert(property_refs(shapes, refs@.take(i as int + 1)) == pre.push(**b));
            },
            _ => {},
        }
        i = i + 1;
    }
    assert(refs@.take(refs.len() as int) =~= refs@);
    NodeShapeIR { id: object_str(id), target_classes, instance_class, properties, closed: None }
}

/// The node shapes of a schema, in order.
pub open spec fn node_shapes_of(shapes: Seq<ASTShape>) -> Seq<ASTNodeShape>
    decreases shapes.len(),
{
    if shapes.len() == 0 {
        Seq::empty()
    } else {
        match shapes.last() {
            ASTShape::NodeShape(ns) => node_shapes_of(shapes.drop_last()).push(*ns),
            _ => node_shapes_of(shapes.drop_last()),
        }
    }
}

/// The (target class, node shape id) pairs of node shapes `nodes`, in order.
pub open spec fn class_index(nodes: Seq<ASTNodeShape>) -> Seq<(Seq<char>, Seq<char>)>
    decreases nodes.len(),
{
    if nodes.len() == 0 {
        Seq::empty()
    } else {
        class_index(nodes.drop_last()) + target_classes(nodes.last().targets@).map_values(
            |c: Seq<char>| (c, term_text(nodes.last().id@)),
        )
    }
}

/// The shape model of a schema: a record for each node shape, in order; the
/// property groups of the shapes graph; and each target class with the node
/// shape that targets it.
pub fn schema_to_json(schema: &ASTSchema, graph: &Graph) -> (r: ShapeModelJson)
    ensures
        r.node_shapes@.len() == node_shapes_of(schema.shapes_view()).len(),
        forall|i: int|
            0 <= i < r.node_shapes@.len() ==> node_ir_ok(
                schema.shapes_view(),
                graph@,
                node_shapes_of(schema.shapes_view())[i].id@,
                node_shapes_of(schema.shapes_view())[i],
                #[trigger] r.node_shapes@[i],
            ),
        pair_views(r.by_target_class@) == class_index(node_shapes_of(schema.shapes_view())),
        r.groups@.len() == subjects_of(graph@, vocab::rdf_type_iri(), ObjectV::Iri(vocab::sh_property_group_iri())).len(),
        forall|i: int|
            0 <= i < r.groups@.len() ==> group_of(
                graph@,
                subjects_of(graph@, vocab::rdf_type_iri(), ObjectV::Iri(vocab::sh_property_group_iri()))[i],
                #[trigger] r.groups@[i],
            ),
{
    let shapes = schema.iter();
    let mut node_shapes: Vec<NodeShapeIR> = Vec::new();
    let mut by_target_class: Vec<(String, String)> = Vec::new();
    let mut i: usize = 0;
    assert(shapes@.take(0) =~= Seq::<ASTShape>::empty());
    while i < shapes.len()
        invariant
            i <= shapes.len(),
            shapes@ == schema.shapes_view(),
            node_shapes@.len() == node_shapes_of(shapes@.take(i as int)).len(),
            forall|j: int|
                0 <= j < node_shapes@.len() ==> node_ir_ok(
                    shapes@,
                    graph@,
                    node_shapes_of(shapes@.take(i as int))[j].id@,
                    node_shapes_of(shapes@.take(i as int))[j],
                    #[trigger] node_shapes@[j],
                ),
            pair_views(by_target_class@) == class_index(node_shapes_of(shapes@.take(i as int))),
        decreases shapes.len() - i,
    {
        let ghost pre = node_shapes_of(shapes@.take(i as int));
        assert(shapes@.take(i as int + 1).drop_last() =~= shapes@.take(i as int));
        assert(shapes@.take(i as int + 1).last() == shapes@[i as int]);
        match &shapes[i] {
            ASTShape::NodeShape(ns) => {
                let ir = node_shape_to_ir(&ns.id, ns, schema, graph);
                let ghost tcs = target_classes(ns.targets@);
                let mut k: usize = 0;
                let ghost base = pair_views(by_target_class@);
                while k < ir.target_classes.len()
                    invariant
                        k <= ir.target_classes.len(),
                        crate::text::views(ir.target_classes@) == tcs,
                        ir.id@ == term_text(ns.id@),
                        pair_views(by_target_class@) == base + tcs.take(k as int).map_values(
                            |c: Seq<char>| (c, term_text(ns.id@)),
                        ),
                    decreases ir.target_classes.len() - k,
                {
                    let ghost before = by_target_class@;
                    by_target_class.push((ir.target_classes[k].clone(), ir.id.clone()));
                    assert(tcs[k as int] == ir.target_classes@[k as int]@);
                    assert(tcs.take(k as int + 1) =~= tcs.take(k as int).push(tcs[k as int]));
                    assert(pair_views(by_target_class@) =~= pair_views(before).push(
                        (tcs[k as int], term_text(ns.id@)),
                    ));
                    assert(tcs.take(k as int + 1).map_values(|c: Seq<char>| (c, term_text(ns.id@))) =~= tcs.take(
                        k as int,
                    ).map_values(|c: Seq<char>| (c, term_text(ns.id@))).push((tcs[k as int], term_text(ns.id@))));
                    k = k + 1;
                }
                assert(tcs.take(tcs.len() as int) =~= tcs);
                node_shapes.push(ir);
                assert(node_shapes_of(shapes@.take(i as int + 1)) == pre.push(**ns));
                assert(pre.push(**ns).drop_last() =~= pre);
                assert(class_index(pre.push(**ns)) == class_index(pre) + tcs.map_values(
                    |c: Seq<char>| (c, term_text(ns.id@)),
                ));
            },
            _ => {},
        }
        i = i + 1;
    }
    assert(shapes@.take(shapes.len() as int) =~= shapes@);
    ShapeModelJson { node_shapes, groups: read_groups(graph), by_target_class }
}

} // verus!
