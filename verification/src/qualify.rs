//! Terms written with prefixed names, through prefixmap's `PrefixMap::qualify`.
use vstd::prelude::*;
use crate::term::{IriOrBlankNode, Literal, LiteralV, Object, ObjectV, SubjectV, show_literal};
use crate::text::{concat2, owned, pair_views, push_str};

verus! {

/// What prefixmap's `PrefixMap::qualify` writes for `iri` with the prefix
/// declarations `prefixes` (alias, namespace) added in order: the alias, `:`
/// and the local name for the declaration that takes the longest namespace
/// off the IRI with a valid local name left; otherwise the IRI between `<`
/// and `>`.
pub uninterp spec fn qualified(prefixes: Seq<(Seq<char>, Seq<char>)>, iri: Seq<char>) -> Seq<char>;

/// prefixmap's `PrefixMap::qualify` on a map built by `PrefixMap::new` and
/// `add_prefix` for each declaration in turn (no colours, no hyperlinks, no
/// base). The result is named (`qualified`); of a map with no declaration the
/// source shows it to be the IRI between `<` and `>`.
#[verifier::external_body]
fn qualify(prefixes: &Vec<(String, String)>, iri: &str) -> (r: String)
    ensures
        r@ == qualified(pair_views(prefixes@), iri@),
        prefixes@.len() == 0 ==> r@ == "<"@ + iri@ + ">"@,
{
    let mut pm = prefixmap::PrefixMap::new();
    for (alias, namespace) in prefixes {
        pm.add_prefix(alias.as_str(), rudof_iri::IriS::new_unchecked(namespace.as_str()));
    }
    pm.qualify(&rudof_iri::IriS::new_unchecked(iri))
}

/// A subject written with prefixed names: a qualified IRI, or `_:` and the label.
pub open spec fn qualified_subject(s: SubjectV, pm: Seq<(Seq<char>, Seq<char>)>) -> Seq<char> {
    match s {
        SubjectV::Iri(i) => qualified(pm, i),
        SubjectV::BlankNode(b) => "_:"@ + b,
    }
}

/// A literal written with prefixed names: as it displays, with a datatype
/// IRI qualified.
pub open spec fn qualified_literal(l: LiteralV, pm: Seq<(Seq<char>, Seq<char>)>) -> Seq<char> {
    match l {
        LiteralV::Typed { lexical, datatype } => "\""@ + lexical + "\"^^"@ + qualified(pm, datatype),
        _ => show_literal(l),
    }
}

/// A term written with prefixed names: IRIs qualified, a blank node as `_:`
/// and its label, a quoted triple as `<< s p o >>` with each part qualified.
pub open spec fn qualified_object(o: ObjectV, pm: Seq<(Seq<char>, Seq<char>)>) -> Seq<char>
    decreases o,
{
    match o {
        ObjectV::Iri(i) => qualified(pm, i),
        ObjectV::BlankNode(b) => "_:"@ + b,
        ObjectV::Literal(l) => qualified_literal(l, pm),
        ObjectV::Triple { subject, predicate, object } => "<< "@ + qualified_subject(subject, pm) + " "@
            + qualified(pm, predicate) + " "@ + qualified_object(*object, pm) + " >>"@,
    }
}

impl IriOrBlankNode {
    /// The subject written with the prefix declarations `prefixmap`.
    pub fn show_qualified(&self, prefixmap: &Vec<(String, String)>) -> (r: String)
        ensures
            r@ == qualified_subject(self@, pair_views(prefixmap@)),
    {
        match self {
            IriOrBlankNode::Iri(i) => qualify(prefixmap, i.as_str()),
            IriOrBlankNode::BlankNode(b) => concat2("_:", b.as_str()),
        }
    }
}

impl Literal {
    /// The literal written with the prefix declarations `prefixmap`.
    pub fn show_qualified(&self, prefixmap: &Vec<(String, String)>) -> (r: String)
        ensures
            r@ == qualified_literal(self@, pair_views(prefixmap@)),
    {
        match self {
            Literal::DatatypeLiteral { lexical_form, datatype } => {
                let mut r = owned("\"");
                push_str(&mut r, lexical_form.as_str());
                push_str(&mut r, "\"^^");
                push_str(&mut r, qualify(prefixmap, datatype.as_str()).as_str());
                r
            },
            _ => self.to_display(),
        }
    }
}

impl Object {
    /// The term written with the prefix declarations `prefixmap`.
    pub fn show_qualified(&self, prefixmap: &Vec<(String, String)>) -> (r: String)
        ensures
            r@ == qualified_object(self@, pair_views(prefixmap@)),
        decreases self,
    {
        match self {
            Object::Iri(i) => qualify(prefixmap, i.as_str()),
            Object::BlankNode(b) => concat2("_:", b.as_str()),
            Object::Literal(l) => l.show_qualified(prefixmap),
            Object::Triple { subject, predicate, object } => {
                let s: &IriOrBlankNode = subject;
                let o: &Object = object;
                let mut r = owned("<< ");
                push_str(&mut r, s.show_qualified(prefixmap).as_str());
                push_str(&mut r, " ");
                push_str(&mut r, qualify(prefixmap, predicate.as_str()).as_str());
                push_str(&mut r, " ");
                push_str(&mut r, o.show_qualified(prefixmap).as_str());
                push_str(&mut r, " >>");
                r
            },
        }
    }
}

} // verus!
