//! Value types of the SHACL model: node kinds, IRI references, values,
//! targets and presentation hints.
use vstd::prelude::*;
use crate::error::IRError;
use crate::graph::{Graph, TripleV, with_triple};
use crate::term::{
    IriOrBlankNode, Literal, LiteralV, Object, ObjectV, SubjectV, clone_opt_string, object_as_subject,
    opt_view, show_literal, show_object,
};
use crate::text::{concat3, owned};
use crate::vocab;

verus! {

// ---------------------------------------------------------------------------
// Node kinds
// ---------------------------------------------------------------------------

/// The node kinds of `sh:nodeKind`.
#[derive(Clone, Copy, PartialEq, Eq, Structural, Debug)]
pub enum NodeKind {
    Iri,
    Lit,
    BNode,
    BNodeOrIri,
    BNodeOrLit,
    IriOrLit,
}

/// The SHACL IRI that names a node kind.
pub open spec fn node_kind_iri(nk: NodeKind) -> Seq<char> {
    match nk {
        NodeKind::Iri => vocab::sh_iri_iri(),
        NodeKind::Lit => vocab::sh_literal_iri(),
        NodeKind::BNode => vocab::sh_blank_node_iri(),
        NodeKind::BNodeOrIri => vocab::sh_blank_node_or_iri_iri(),
        NodeKind::BNodeOrLit => vocab::sh_blank_node_or_literal_iri(),
        NodeKind::IriOrLit => vocab::sh_iri_or_literal_iri(),
    }
}

/// The display name of a node kind: the local name of its SHACL IRI.
pub open spec fn show_node_kind(nk: NodeKind) -> Seq<char> {
    match nk {
        NodeKind::Iri => "IRI"@,
        NodeKind::Lit => "Literal"@,
        NodeKind::BNode => "BlankNode"@,
        NodeKind::BNodeOrIri => "BlankNodeOrIRI"@,
        NodeKind::BNodeOrLit => "BlankNodeOrLiteral"@,
        NodeKind::IriOrLit => "IRIOrLiteral"@,
    }
}

impl NodeKind {
    /// The SHACL IRI of this node kind.
    pub fn iri(&self) -> (r: String)
        ensures
            r@ == node_kind_iri(*self),
    {
        match self {
            NodeKind::Iri => vocab::sh_iri(),
            NodeKind::Lit => vocab::sh_literal(),
            NodeKind::BNode => vocab::sh_blank_node(),
            NodeKind::BNodeOrIri => vocab::sh_blank_node_or_iri(),
            NodeKind::BNodeOrLit => vocab::sh_blank_node_or_literal(),
            NodeKind::IriOrLit => vocab::sh_iri_or_literal(),
        }
    }

    /// The display name.
    pub fn to_display(&self) -> (r: String)
        ensures
            r@ == show_node_kind(*self),
    {
        match self {
            NodeKind::Iri => owned("IRI"),
            NodeKind::Lit => owned("Literal"),
            NodeKind::BNode => owned("BlankNode"),
            NodeKind::BNodeOrIri => owned("BlankNodeOrIRI"),
            NodeKind::BNodeOrLit => owned("BlankNodeOrLiteral"),
            NodeKind::IriOrLit => owned("IRIOrLiteral"),
        }
    }
}

// ---------------------------------------------------------------------------
// IRI references
// ---------------------------------------------------------------------------

/// An IRI or a prefixed name.
pub enum IriRef {
    Iri(String),
    Prefixed { prefix: String, local: String },
}

/// Mathematical view of an [`IriRef`].
pub enum IriRefV {
    Iri(Seq<char>),
    Prefixed { prefix: Seq<char>, local: Seq<char> },
}

impl View for IriRef {
    type V = IriRefV;

    open spec fn view(&self) -> IriRefV {
        match self {
            IriRef::Iri(i) => IriRefV::Iri(i@),
            IriRef::Prefixed { prefix, local } => IriRefV::Prefixed { prefix: prefix@, local: local@ },
        }
    }
}

/// The display form: the IRI itself, or `prefix:local`.
pub open spec fn show_iri_ref(r: IriRefV) -> Seq<char> {
    match r {
        IriRefV::Iri(i) => i,
        IriRefV::Prefixed { prefix, local } => prefix + ":"@ + local,
    }
}

impl Clone for IriRef {
    fn clone(&self) -> (r: Self)
        ensures
            r@ == self@,
    {
        match self {
            IriRef::Iri(i) => IriRef::Iri(i.clone()),
            IriRef::Prefixed { prefix, local } => IriRef::Prefixed {
                prefix: prefix.clone(),
                local: local.clone(),
            },
        }
    }
}

impl IriRef {
    /// A full IRI.
    pub fn iri(iri: String) -> (r: IriRef)
        ensures
            r@ == IriRefV::Iri(iri@),
    {
        IriRef::Iri(iri)
    }

    /// A prefixed name.
    pub fn prefixed(prefix: String, local: String) -> (r: IriRef)
        ensures
            r@ == (IriRefV::Prefixed { prefix: prefix@, local: local@ }),
    {
        IriRef::Prefixed { prefix, local }
    }

    /// The display form.
    pub fn to_display(&self) -> (r: String)
        ensures
            r@ == show_iri_ref(self@),
    {
        match self {
            IriRef::Iri(i) => i.clone(),
            IriRef::Prefixed { prefix, local } => concat3(prefix.as_str(), ":", local.as_str()),
        }
    }

    /// The full IRI; a prefixed name is refused, as there is no prefix map to
    /// resolve it against.
    pub fn get_iri(&self) -> (r: Result<String, IRError>)
        ensures
            match self@ {
                IriRefV::Iri(i) => r matches Ok(s) && s@ == i,
                IriRefV::Prefixed { prefix, local } => r matches Err(
                    IRError::UnresolvedPrefixedName { prefix: p, local: l },
                ) && p@ == prefix && l@ == local,
            },
    {
        match self {
            IriRef::Iri(i) => Ok(i.clone()),
            IriRef::Prefixed { prefix, local } => Err(
                IRError::UnresolvedPrefixedName { prefix: prefix.clone(), local: local.clone() },
            ),
        }
    }
}

// ---------------------------------------------------------------------------
// Values
// ---------------------------------------------------------------------------

/// A value of `sh:hasValue` / `sh:in` / `sh:defaultValue`: an IRI or a literal.
pub enum Value {
    Iri(IriRef),
    Literal(Literal),
}

/// The display form of a value.
pub open spec fn show_value(v: Value) -> Seq<char> {
    match v {
        Value::Iri(i) => "value("@ + show_iri_ref(i@) + ")"@,
        Value::Literal(l) => "literal("@ + show_literal(l@) + ")"@,
    }
}

/// The term a value stands for, when its IRI is a full one.
pub open spec fn value_term(v: Value) -> Option<ObjectV> {
    match v {
        Value::Iri(i) => match i@ {
            IriRefV::Iri(s) => Some(ObjectV::Iri(s)),
            _ => None,
        },
        Value::Literal(l) => Some(ObjectV::Literal(l@)),
    }
}

impl Clone for Value {
    fn clone(&self) -> (r: Self)
        ensures
            value_term(r) == value_term(*self),
            show_value(r) == show_value(*self),
    {
        match self {
            Value::Iri(i) => Value::Iri(i.clone()),
            Value::Literal(l) => Value::Literal(l.clone()),
        }
    }
}

impl Value {
    /// The display form.
    pub fn to_display(&self) -> (r: String)
        ensures
            r@ == show_value(*self),
    {
        match self {
            Value::Iri(i) => concat3("value(", i.to_display().as_str(), ")"),
            Value::Literal(l) => concat3("literal(", l.to_display().as_str(), ")"),
        }
    }

    /// The term this value stands for; a prefixed name is refused.
    pub fn to_term(&self) -> (r: Result<Object, IRError>)
        ensures
            match value_term(*self) {
                Some(t) => r matches Ok(o) && o@ == t,
                None => r matches Err(IRError::UnresolvedPrefixedName { .. }),
            },
    {
        match self {
            Value::Iri(i) => match i.get_iri() {
                Ok(s) => Ok(Object::Iri(s)),
                Err(e) => Err(e),
            },
            Value::Literal(l) => Ok(Object::Literal(l.clone())),
        }
    }
}

// ---------------------------------------------------------------------------
// Targets
// ---------------------------------------------------------------------------

/// A target declaration. The `Wrong*` variants hold ill-formed declarations,
/// kept so that they can be written back and reported.
pub enum Target {
    Node(Object),
    Class(Object),
    SubjectsOf(String),
    ObjectsOf(String),
    ImplicitClass(Object),
    WrongNode(Object),
    WrongClass(Object),
    WrongSubjectsOf(Object),
    WrongObjectsOf(Object),
    WrongImplicitClass(Object),
}

/// The triple that writes target `t` for the shape `s`; an ill-formed target is
/// written as its well-formed counterpart.
pub open spec fn target_triple(t: Target, s: SubjectV) -> TripleV {
    match t {
        Target::Node(n) => TripleV { subject: s, predicate: vocab::sh_target_node_iri(), object: n@ },
        Target::WrongNode(n) => TripleV { subject: s, predicate: vocab::sh_target_node_iri(), object: n@ },
        Target::Class(c) => TripleV { subject: s, predicate: vocab::sh_target_class_iri(), object: c@ },
        Target::WrongClass(c) => TripleV { subject: s, predicate: vocab::sh_target_class_iri(), object: c@ },
        Target::SubjectsOf(p) => TripleV {
            subject: s,
            predicate: vocab::sh_target_subjects_of_iri(),
            object: ObjectV::Iri(p@),
        },
        Target::WrongSubjectsOf(o) => TripleV {
            subject: s,
            predicate: vocab::sh_target_subjects_of_iri(),
            object: o@,
        },
        Target::ObjectsOf(p) => TripleV {
            subject: s,
            predicate: vocab::sh_target_objects_of_iri(),
            object: ObjectV::Iri(p@),
        },
        Target::WrongObjectsOf(o) => TripleV {
            subject: s,
            predicate: vocab::sh_target_objects_of_iri(),
            object: o@,
        },
        Target::ImplicitClass(_) => TripleV {
            subject: s,
            predicate: vocab::rdf_type_iri(),
            object: ObjectV::Iri(vocab::rdfs_class_iri()),
        },
        Target::WrongImplicitClass(_) => TripleV {
            subject: s,
            predicate: vocab::rdf_type_iri(),
            object: ObjectV::Iri(vocab::rdfs_class_iri()),
        },
    }
}

/// The display form of a target.
pub open spec fn show_target(t: Target) -> Seq<char> {
    match t {
        Target::Node(o) => "targetNode("@ + show_object(o@) + ")"@,
        Target::WrongNode(o) => "targetNode("@ + show_object(o@) + ")"@,
        Target::Class(o) => "targetClass("@ + show_object(o@) + ")"@,
        Target::WrongClass(o) => "targetClass("@ + show_object(o@) + ")"@,
        Target::SubjectsOf(i) => "targetSubjectsOf("@ + i@ + ")"@,
        Target::WrongSubjectsOf(o) => "targetSubjectsOf("@ + show_object(o@) + ")"@,
        Target::ObjectsOf(i) => "targetObjectsOf("@ + i@ + ")"@,
        Target::WrongObjectsOf(o) => "targetObjectsOf("@ + show_object(o@) + ")"@,
        Target::ImplicitClass(o) => "targetImplicitClass("@ + show_object(o@) + ")"@,
        Target::WrongImplicitClass(o) => "targetImplicitClass("@ + show_object(o@) + ")"@,
    }
}

/// The subject that a shape id stands for, or the error for an id that cannot
/// be a subject.
pub fn shape_subject(id: &Object) -> (r: Result<IriOrBlankNode, IRError>)
    ensures
        match object_as_subject(id@) {
            Some(s) => r matches Ok(x) && x@ == s,
            None => r matches Err(IRError::InvalidShapeId(o)) && o@ == id@,
        },
{
    match id.as_subject() {
        Some(s) => Ok(s),
        None => Err(IRError::InvalidShapeId(id.clone())),
    }
}

impl Target {
    /// Writes this target declaration for the shape `id` into `graph`.
    pub fn register(&self, id: &Object, graph: &mut Graph) -> (r: Result<(), IRError>)
        ensures
            match object_as_subject(id@) {
                Some(s) => r is Ok && final(graph)@ == with_triple(old(graph)@, target_triple(*self, s)),
                None => r matches Err(IRError::InvalidShapeId(o)) && o@ == id@ && final(graph)@ == old(
                    graph,
                )@,
            },
            final(graph).prefix_view() == old(graph).prefix_view(),
    {
        let node = match shape_subject(id) {
            Ok(s) => s,
            Err(e) => return Err(e),
        };
        match self {
            Target::Node(n) | Target::WrongNode(n) => graph.add_triple(node, vocab::sh_target_node(), n.clone()),
            Target::Class(c) | Target::WrongClass(c) => graph.add_triple(
                node,
                vocab::sh_target_class(),
                c.clone(),
            ),
            Target::SubjectsOf(p) => graph.add_triple(
                node,
                vocab::sh_target_subjects_of(),
                Object::Iri(p.clone()),
            ),
            Target::WrongSubjectsOf(o) => graph.add_triple(node, vocab::sh_target_subjects_of(), o.clone()),
            Target::ObjectsOf(p) => graph.add_triple(
                node,
                vocab::sh_target_objects_of(),
                Object::Iri(p.clone()),
            ),
            Target::WrongObjectsOf(o) => graph.add_triple(node, vocab::sh_target_objects_of(), o.clone()),
            Target::ImplicitClass(_) | Target::WrongImplicitClass(_) => graph.add_triple(
                node,
                vocab::rdf_type(),
                Object::Iri(vocab::rdfs_class()),
            ),
        }
        Ok(())
    }

    /// The display form.
    pub fn to_display(&self) -> (r: String)
        ensures
            r@ == show_target(*self),
    {
        match self {
            Target::Node(o) | Target::WrongNode(o) => concat3("targetNode(", o.to_display().as_str(), ")"),
            Target::Class(o) | Target::WrongClass(o) => concat3("targetClass(", o.to_display().as_str(), ")"),
            Target::SubjectsOf(i) => concat3("targetSubjectsOf(", i.as_str(), ")"),
            Target::WrongSubjectsOf(o) => concat3("targetSubjectsOf(", o.to_display().as_str(), ")"),
            Target::ObjectsOf(i) => concat3("targetObjectsOf(", i.as_str(), ")"),
            Target::WrongObjectsOf(o) => concat3("targetObjectsOf(", o.to_display().as_str(), ")"),
            Target::ImplicitClass(o) | Target::WrongImplicitClass(o) => concat3(
                "targetImplicitClass(",
                o.to_display().as_str(),
                ")",
            ),
        }
    }
}

// ---------------------------------------------------------------------------
// Presentation hints
// ---------------------------------------------------------------------------

/// SHACL-UI presentation hints carried verbatim on a shape: the declared
/// `shui:editor` and `shui:viewer` IRIs.
pub struct Presentation {
    editor: Option<String>,
    viewer: Option<String>,
}

impl Presentation {
    /// The declared editor IRI.
    pub closed spec fn editor_view(&self) -> Option<Seq<char>> {
        opt_view(self.editor)
    }

    /// The declared viewer IRI.
    pub closed spec fn viewer_view(&self) -> Option<Seq<char>> {
        opt_view(self.viewer)
    }

    /// No hint declared.
    pub fn new() -> (r: Presentation)
        ensures
            r.editor_view() is None,
            r.viewer_view() is None,
    {
        Presentation { editor: None, viewer: None }
    }

    /// True when no presentation hint was declared.
    pub fn is_empty(&self) -> (r: bool)
        ensures
            r == (self.editor_view() is None && self.viewer_view() is None),
    {
        self.editor.is_none() && self.viewer.is_none()
    }

    /// The declared `shui:editor`.
    pub fn editor(&self) -> (r: Option<String>)
        ensures
            opt_view(r) == self.editor_view(),
    {
        clone_opt_string(&self.editor)
    }

    /// The declared `shui:viewer`.
    pub fn viewer(&self) -> (r: Option<String>)
        ensures
            opt_view(r) == self.viewer_view(),
    {
        clone_opt_string(&self.viewer)
    }

    /// Replaces the editor.
    pub fn with_editor(self, editor: Option<String>) -> (r: Presentation)
        ensures
            r.editor_view() == opt_view(editor),
            r.viewer_view() == self.viewer_view(),
    {
        Presentation { editor, viewer: self.viewer }
    }

    /// Replaces the viewer.
    pub fn with_viewer(self, viewer: Option<String>) -> (r: Presentation)
        ensures
            r.viewer_view() == opt_view(viewer),
            r.editor_view() == self.editor_view(),
    {
        Presentation { editor: self.editor, viewer }
    }
}

} // verus!
