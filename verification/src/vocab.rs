//! Well-known IRIs of the RDF, RDFS, XSD, SHACL and SHACL-UI vocabularies.
use vstd::prelude::*;

verus! {

pub open spec fn xsd_string_iri() -> Seq<char> {
    "http://www.w3.org/2001/XMLSchema#string"@
}

/// `<http://www.w3.org/2001/XMLSchema#string>`.
pub fn xsd_string() -> (r: String)
    ensures
        r@ == xsd_string_iri(),
{
    "http://www.w3.org/2001/XMLSchema#string".to_string()
}

pub open spec fn xsd_integer_iri() -> Seq<char> {
    "http://www.w3.org/2001/XMLSchema#integer"@
}

/// `<http://www.w3.org/2001/XMLSchema#integer>`.
pub fn xsd_integer() -> (r: String)
    ensures
        r@ == xsd_integer_iri(),
{
    "http://www.w3.org/2001/XMLSchema#integer".to_string()
}

pub open spec fn xsd_boolean_iri() -> Seq<char> {
    "http://www.w3.org/2001/XMLSchema#boolean"@
}

/// `<http://www.w3.org/2001/XMLSchema#boolean>`.
pub fn xsd_boolean() -> (r: String)
    ensures
        r@ == xsd_boolean_iri(),
{
    "http://www.w3.org/2001/XMLSchema#boolean".to_string()
}

pub open spec fn xsd_date_time_iri() -> Seq<char> {
    "http://www.w3.org/2001/XMLSchema#dateTime"@
}

/// `<http://www.w3.org/2001/XMLSchema#dateTime>`.
pub fn xsd_date_time() -> (r: String)
    ensures
        r@ == xsd_date_time_iri(),
{
    "http://www.w3.org/2001/XMLSchema#dateTime".to_string()
}

pub open spec fn xsd_any_uri_iri() -> Seq<char> {
    "http://www.w3.org/2001/XMLSchema#anyURI"@
}

/// `<http://www.w3.org/2001/XMLSchema#anyURI>`.
pub fn xsd_any_uri() -> (r: String)
    ensures
        r@ == xsd_any_uri_iri(),
{
    "http://www.w3.org/2001/XMLSchema#anyURI".to_string()
}

pub open spec fn rdf_lang_string_iri() -> Seq<char> {
    "http://www.w3.org/1999/02/22-rdf-syntax-ns#langString"@
}

/// `<http://www.w3.org/1999/02/22-rdf-syntax-ns#langString>`.
pub fn rdf_lang_string() -> (r: String)
    ensures
        r@ == rdf_lang_string_iri(),
{
    "http://www.w3.org/1999/02/22-rdf-syntax-ns#langString".to_string()
}

pub open spec fn rdf_html_iri() -> Seq<char> {
    "http://www.w3.org/1999/02/22-rdf-syntax-ns#HTML"@
}

/// `<http://www.w3.org/1999/02/22-rdf-syntax-ns#HTML>`.
pub fn rdf_html() -> (r: String)
    ensures
        r@ == rdf_html_iri(),
{
    "http://www.w3.org/1999/02/22-rdf-syntax-ns#HTML".to_string()
}

pub open spec fn rdf_type_iri() -> Seq<char> {
    "http://www.w3.org/1999/02/22-rdf-syntax-ns#type"@
}

/// `<http://www.w3.org/1999/02/22-rdf-syntax-ns#type>`.
pub fn rdf_type() -> (r: String)
    ensures
        r@ == rdf_type_iri(),
{
    "http://www.w3.org/1999/02/22-rdf-syntax-ns#type".to_string()
}

pub open spec fn rdf_first_iri() -> Seq<char> {
    "http://www.w3.org/1999/02/22-rdf-syntax-ns#first"@
}

/// `<http://www.w3.org/1999/02/22-rdf-syntax-ns#first>`.
pub fn rdf_first() -> (r: String)
    ensures
        r@ == rdf_first_iri(),
{
    "http://www.w3.org/1999/02/22-rdf-syntax-ns#first".to_string()
}

pub open spec fn rdf_rest_iri() -> Seq<char> {
    "http://www.w3.org/1999/02/22-rdf-syntax-ns#rest"@
}

/// `<http://www.w3.org/1999/02/22-rdf-syntax-ns#rest>`.
pub fn rdf_rest() -> (r: String)
    ensures
        r@ == rdf_rest_iri(),
{
    "http://www.w3.org/1999/02/22-rdf-syntax-ns#rest".to_string()
}

pub open spec fn rdf_nil_iri() -> Seq<char> {
    "http://www.w3.org/1999/02/22-rdf-syntax-ns#nil"@
}

/// `<http://www.w3.org/1999/02/22-rdf-syntax-ns#nil>`.
pub fn rdf_nil() -> (r: String)
    ensures
        r@ == rdf_nil_iri(),
{
    "http://www.w3.org/1999/02/22-rdf-syntax-ns#nil".to_string()
}

pub open spec fn rdfs_class_iri() -> Seq<char> {
    "http://www.w3.org/2000/01/rdf-schema#Class"@
}

/// `<http://www.w3.org/2000/01/rdf-schema#Class>`.
pub fn rdfs_class() -> (r: String)
    ensures
        r@ == rdfs_class_iri(),
{
    "http://www.w3.org/2000/01/rdf-schema#Class".to_string()
}

pub open spec fn rdfs_label_iri() -> Seq<char> {
    "http://www.w3.org/2000/01/rdf-schema#label"@
}

/// `<http://www.w3.org/2000/01/rdf-schema#label>`.
pub fn rdfs_label() -> (r: String)
    ensures
        r@ == rdfs_label_iri(),
{
    "http://www.w3.org/2000/01/rdf-schema#label".to_string()
}

pub open spec fn sh_namespace_iri() -> Seq<char> {
    "http://www.w3.org/ns/shacl#"@
}

/// `<http://www.w3.org/ns/shacl#>`.
pub fn sh_namespace() -> (r: String)
    ensures
        r@ == sh_namespace_iri(),
{
    "http://www.w3.org/ns/shacl#".to_string()
}

pub open spec fn sh_class_iri() -> Seq<char> {
    "http://www.w3.org/ns/shacl#class"@
}

/// `<http://www.w3.org/ns/shacl#class>`.
pub fn sh_class() -> (r: String)
    ensures
        r@ == sh_class_iri(),
{
    "http://www.w3.org/ns/shacl#class".to_string()
}

pub open spec fn sh_datatype_iri() -> Seq<char> {
    "http://www.w3.org/ns/shacl#datatype"@
}

/// `<http://www.w3.org/ns/shacl#datatype>`.
pub fn sh_datatype() -> (r: String)
    ensures
        r@ == sh_datatype_iri(),
{
    "http://www.w3.org/ns/shacl#datatype".to_string()
}

pub open spec fn sh_node_kind_iri() -> Seq<char> {
    "http://www.w3.org/ns/shacl#nodeKind"@
}

/// `<http://www.w3.org/ns/shacl#nodeKind>`.
pub fn sh_node_kind() -> (r: String)
    ensures
        r@ == sh_node_kind_iri(),
{
    "http://www.w3.org/ns/shacl#nodeKind".to_string()
}

pub open spec fn sh_min_count_iri() -> Seq<char> {
    "http://www.w3.org/ns/shacl#minCount"@
}

/// `<http://www.w3.org/ns/shacl#minCount>`.
pub fn sh_min_count() -> (r: String)
    ensures
        r@ == sh_min_count_iri(),
{
    "http://www.w3.org/ns/shacl#minCount".to_string()
}

pub open spec fn sh_max_count_iri() -> Seq<char> {
    "http://www.w3.org/ns/shacl#maxCount"@
}

/// `<http://www.w3.org/ns/shacl#maxCount>`.
pub fn sh_max_count() -> (r: String)
    ensures
        r@ == sh_max_count_iri(),
{
    "http://www.w3.org/ns/shacl#maxCount".to_string()
}

pub open spec fn sh_min_exclusive_iri() -> Seq<char> {
    "http://www.w3.org/ns/shacl#minExclusive"@
}

/// `<http://www.w3.org/ns/shacl#minExclusive>`.
pub fn sh_min_exclusive() -> (r: String)
    ensures
        r@ == sh_min_exclusive_iri(),
{
    "http://www.w3.org/ns/shacl#minExclusive".to_string()
}

pub open spec fn sh_max_exclusive_iri() -> Seq<char> {
    "http://www.w3.org/ns/shacl#maxExclusive"@
}

/// `<http://www.w3.org/ns/shacl#maxExclusive>`.
pub fn sh_max_exclusive() -> (r: String)
    ensures
        r@ == sh_max_exclusive_iri(),
{
    "http://www.w3.org/ns/shacl#maxExclusive".to_string()
}

pub open spec fn sh_min_inclusive_iri() -> Seq<char> {
    "http://www.w3.org/ns/shacl#minInclusive"@
}

/// `<http://www.w3.org/ns/shacl#minInclusive>`.
pub fn sh_min_inclusive() -> (r: String)
    ensures
        r@ == sh_min_inclusive_iri(),
{
    "http://www.w3.org/ns/shacl#minInclusive".to_string()
}

pub open spec fn sh_max_inclusive_iri() -> Seq<char> {
    "http://www.w3.org/ns/shacl#maxInclusive"@
}

/// `<http://www.w3.org/ns/shacl#maxInclusive>`.
pub fn sh_max_inclusive() -> (r: String)
    ensures
        r@ == sh_max_inclusive_iri(),
{
    "http://www.w3.org/ns/shacl#maxInclusive".to_string()
}

pub open spec fn sh_min_length_iri() -> Seq<char> {
    "http://www.w3.org/ns/shacl#minLength"@
}

/// `<http://www.w3.org/ns/shacl#minLength>`.
pub fn sh_min_length() -> (r: String)
    ensures
        r@ == sh_min_length_iri(),
{
    "http://www.w3.org/ns/shacl#minLength".to_string()
}

pub open spec fn sh_max_length_iri() -> Seq<char> {
    "http://www.w3.org/ns/shacl#maxLength"@
}

/// `<http://www.w3.org/ns/shacl#maxLength>`.
pub fn sh_max_length() -> (r: String)
    ensures
        r@ == sh_max_length_iri(),
{
    "http://www.w3.org/ns/shacl#maxLength".to_string()
}

pub open spec fn sh_pattern_iri() -> Seq<char> {
    "http://www.w3.org/ns/shacl#pattern"@
}

/// `<http://www.w3.org/ns/shacl#pattern>`.
pub fn sh_pattern() -> (r: String)
    ensures
        r@ == sh_pattern_iri(),
{
    "http://www.w3.org/ns/shacl#pattern".to_string()
}

pub open spec fn sh_flags_iri() -> Seq<char> {
    "http://www.w3.org/ns/shacl#flags"@
}

/// `<http://www.w3.org/ns/shacl#flags>`.
pub fn sh_flags() -> (r: String)
    ensures
        r@ == sh_flags_iri(),
{
    "http://www.w3.org/ns/shacl#flags".to_string()
}

pub open spec fn sh_unique_lang_iri() -> Seq<char> {
    "http://www.w3.org/ns/shacl#uniqueLang"@
}

/// `<http://www.w3.org/ns/shacl#uniqueLang>`.
pub fn sh_unique_lang() -> (r: String)
    ensures
        r@ == sh_unique_lang_iri(),
{
    "http://www.w3.org/ns/shacl#uniqueLang".to_string()
}

pub open spec fn sh_language_in_iri() -> Seq<char> {
    "http://www.w3.org/ns/shacl#languageIn"@
}

/// `<http://www.w3.org/ns/shacl#languageIn>`.
pub fn sh_language_in() -> (r: String)
    ensures
        r@ == sh_language_in_iri(),
{
    "http://www.w3.org/ns/shacl#languageIn".to_string()
}

pub open spec fn sh_equals_iri() -> Seq<char> {
    "http://www.w3.org/ns/shacl#equals"@
}

/// `<http://www.w3.org/ns/shacl#equals>`.
pub fn sh_equals() -> (r: String)
    ensures
        r@ == sh_equals_iri(),
{
    "http://www.w3.org/ns/shacl#equals".to_string()
}

pub open spec fn sh_disjoint_iri() -> Seq<char> {
    "http://www.w3.org/ns/shacl#disjoint"@
}

/// `<http://www.w3.org/ns/shacl#disjoint>`.
pub fn sh_disjoint() -> (r: String)
    ensures
        r@ == sh_disjoint_iri(),
{
    "http://www.w3.org/ns/shacl#disjoint".to_string()
}

pub open spec fn sh_less_than_iri() -> Seq<char> {
    "http://www.w3.org/ns/shacl#lessThan"@
}

/// `<http://www.w3.org/ns/shacl#lessThan>`.
pub fn sh_less_than() -> (r: String)
    ensures
        r@ == sh_less_than_iri(),
{
    "http://www.w3.org/ns/shacl#lessThan".to_string()
}

pub open spec fn sh_less_than_or_equals_iri() -> Seq<char> {
    "http://www.w3.org/ns/shacl#lessThanOrEquals"@
}

/// `<http://www.w3.org/ns/shacl#lessThanOrEquals>`.
pub fn sh_less_than_or_equals() -> (r: String)
    ensures
        r@ == sh_less_than_or_equals_iri(),
{
    "http://www.w3.org/ns/shacl#lessThanOrEquals".to_string()
}

pub open spec fn sh_or_iri() -> Seq<char> {
    "http://www.w3.org/ns/shacl#or"@
}

/// `<http://www.w3.org/ns/shacl#or>`.
pub fn sh_or() -> (r: String)
    ensures
        r@ == sh_or_iri(),
{
    "http://www.w3.org/ns/shacl#or".to_string()
}

pub open spec fn sh_and_iri() -> Seq<char> {
    "http://www.w3.org/ns/shacl#and"@
}

/// `<http://www.w3.org/ns/shacl#and>`.
pub fn sh_and() -> (r: String)
    ensures
        r@ == sh_and_iri(),
{
    "http://www.w3.org/ns/shacl#and".to_string()
}

pub open spec fn sh_not_iri() -> Seq<char> {
    "http://www.w3.org/ns/shacl#not"@
}

/// `<http://www.w3.org/ns/shacl#not>`.
pub fn sh_not() -> (r: String)
    ensures
        r@ == sh_not_iri(),
{
    "http://www.w3.org/ns/shacl#not".to_string()
}

pub open spec fn sh_xone_iri() -> Seq<char> {
    "http://www.w3.org/ns/shacl#xone"@
}

/// `<http://www.w3.org/ns/shacl#xone>`.
pub fn sh_xone() -> (r: String)
    ensures
        r@ == sh_xone_iri(),
{
    "http://www.w3.org/ns/shacl#xone".to_string()
}

pub open spec fn sh_closed_iri() -> Seq<char> {
    "http://www.w3.org/ns/shacl#closed"@
}

/// `<http://www.w3.org/ns/shacl#closed>`.
pub fn sh_closed() -> (r: String)
    ensures
        r@ == sh_closed_iri(),
{
    "http://www.w3.org/ns/shacl#closed".to_string()
}

pub open spec fn sh_ignored_properties_iri() -> Seq<char> {
    "http://www.w3.org/ns/shacl#ignoredProperties"@
}

/// `<http://www.w3.org/ns/shacl#ignoredProperties>`.
pub fn sh_ignored_properties() -> (r: String)
    ensures
        r@ == sh_ignored_properties_iri(),
{
    "http://www.w3.org/ns/shacl#ignoredProperties".to_string()
}

pub open spec fn sh_node_iri() -> Seq<char> {
    "http://www.w3.org/ns/shacl#node"@
}

/// `<http://www.w3.org/ns/shacl#node>`.
pub fn sh_node() -> (r: String)
    ensures
        r@ == sh_node_iri(),
{
    "http://www.w3.org/ns/shacl#node".to_string()
}

pub open spec fn sh_has_value_iri() -> Seq<char> {
    "http://www.w3.org/ns/shacl#hasValue"@
}

/// `<http://www.w3.org/ns/shacl#hasValue>`.
pub fn sh_has_value() -> (r: String)
    ensures
        r@ == sh_has_value_iri(),
{
    "http://www.w3.org/ns/shacl#hasValue".to_string()
}

pub open spec fn sh_in_iri() -> Seq<char> {
    "http://www.w3.org/ns/shacl#in"@
}

/// `<http://www.w3.org/ns/shacl#in>`.
pub fn sh_in() -> (r: String)
    ensures
        r@ == sh_in_iri(),
{
    "http://www.w3.org/ns/shacl#in".to_string()
}

pub open spec fn sh_qualified_value_shape_iri() -> Seq<char> {
    "http://www.w3.org/ns/shacl#qualifiedValueShape"@
}

/// `<http://www.w3.org/ns/shacl#qualifiedValueShape>`.
pub fn sh_qualified_value_shape() -> (r: String)
    ensures
        r@ == sh_qualified_value_shape_iri(),
{
    "http://www.w3.org/ns/shacl#qualifiedValueShape".to_string()
}

pub open spec fn sh_qualified_min_count_iri() -> Seq<char> {
    "http://www.w3.org/ns/shacl#qualifiedMinCount"@
}

/// `<http://www.w3.org/ns/shacl#qualifiedMinCount>`.
pub fn sh_qualified_min_count() -> (r: String)
    ensures
        r@ == sh_qualified_min_count_iri(),
{
    "http://www.w3.org/ns/shacl#qualifiedMinCount".to_string()
}

pub open spec fn sh_qualified_max_count_iri() -> Seq<char> {
    "http://www.w3.org/ns/shacl#qualifiedMaxCount"@
}

/// `<http://www.w3.org/ns/shacl#qualifiedMaxCount>`.
pub fn sh_qualified_max_count() -> (r: String)
    ensures
        r@ == sh_qualified_max_count_iri(),
{
    "http://www.w3.org/ns/shacl#qualifiedMaxCount".to_string()
}

pub open spec fn sh_qualified_value_shapes_disjoint_iri() -> Seq<char> {
    "http://www.w3.org/ns/shacl#qualifiedValueShapesDisjoint"@
}

/// `<http://www.w3.org/ns/shacl#qualifiedValueShapesDisjoint>`.
pub fn sh_qualified_value_shapes_disjoint() -> (r: String)
    ensures
        r@ == sh_qualified_value_shapes_disjoint_iri(),
{
    "http://www.w3.org/ns/shacl#qualifiedValueShapesDisjoint".to_string()
}

pub open spec fn sh_deactivated_iri() -> Seq<char> {
    "http://www.w3.org/ns/shacl#deactivated"@
}

/// `<http://www.w3.org/ns/shacl#deactivated>`.
pub fn sh_deactivated() -> (r: String)
    ensures
        r@ == sh_deactivated_iri(),
{
    "http://www.w3.org/ns/shacl#deactivated".to_string()
}

pub open spec fn sh_sparql_iri() -> Seq<char> {
    "http://www.w3.org/ns/shacl#sparql"@
}

/// `<http://www.w3.org/ns/shacl#sparql>`.
pub fn sh_sparql() -> (r: String)
    ensures
        r@ == sh_sparql_iri(),
{
    "http://www.w3.org/ns/shacl#sparql".to_string()
}

pub open spec fn sh_select_iri() -> Seq<char> {
    "http://www.w3.org/ns/shacl#select"@
}

/// `<http://www.w3.org/ns/shacl#select>`.
pub fn sh_select() -> (r: String)
    ensures
        r@ == sh_select_iri(),
{
    "http://www.w3.org/ns/shacl#select".to_string()
}

pub open spec fn sh_message_iri() -> Seq<char> {
    "http://www.w3.org/ns/shacl#message"@
}

/// `<http://www.w3.org/ns/shacl#message>`.
pub fn sh_message() -> (r: String)
    ensures
        r@ == sh_message_iri(),
{
    "http://www.w3.org/ns/shacl#message".to_string()
}

pub open spec fn sh_prefixes_iri() -> Seq<char> {
    "http://www.w3.org/ns/shacl#prefixes"@
}

/// `<http://www.w3.org/ns/shacl#prefixes>`.
pub fn sh_prefixes() -> (r: String)
    ensures
        r@ == sh_prefixes_iri(),
{
    "http://www.w3.org/ns/shacl#prefixes".to_string()
}

pub open spec fn sh_severity_iri() -> Seq<char> {
    "http://www.w3.org/ns/shacl#severity"@
}

/// `<http://www.w3.org/ns/shacl#severity>`.
pub fn sh_severity() -> (r: String)
    ensures
        r@ == sh_severity_iri(),
{
    "http://www.w3.org/ns/shacl#severity".to_string()
}

pub open spec fn sh_property_iri() -> Seq<char> {
    "http://www.w3.org/ns/shacl#property"@
}

/// `<http://www.w3.org/ns/shacl#property>`.
pub fn sh_property() -> (r: String)
    ensures
        r@ == sh_property_iri(),
{
    "http://www.w3.org/ns/shacl#property".to_string()
}

pub open spec fn sh_path_iri() -> Seq<char> {
    "http://www.w3.org/ns/shacl#path"@
}

/// `<http://www.w3.org/ns/shacl#path>`.
pub fn sh_path() -> (r: String)
    ensures
        r@ == sh_path_iri(),
{
    "http://www.w3.org/ns/shacl#path".to_string()
}

pub open spec fn sh_target_node_iri() -> Seq<char> {
    "http://www.w3.org/ns/shacl#targetNode"@
}

/// `<http://www.w3.org/ns/shacl#targetNode>`.
pub fn sh_target_node() -> (r: String)
    ensures
        r@ == sh_target_node_iri(),
{
    "http://www.w3.org/ns/shacl#targetNode".to_string()
}

pub open spec fn sh_target_class_iri() -> Seq<char> {
    "http://www.w3.org/ns/shacl#targetClass"@
}

/// `<http://www.w3.org/ns/shacl#targetClass>`.
pub fn sh_target_class() -> (r: String)
    ensures
        r@ == sh_target_class_iri(),
{
    "http://www.w3.org/ns/shacl#targetClass".to_string()
}

pub open spec fn sh_target_subjects_of_iri() -> Seq<char> {
    "http://www.w3.org/ns/shacl#targetSubjectsOf"@
}

/// `<http://www.w3.org/ns/shacl#targetSubjectsOf>`.
pub fn sh_target_subjects_of() -> (r: String)
    ensures
        r@ == sh_target_subjects_of_iri(),
{
    "http://www.w3.org/ns/shacl#targetSubjectsOf".to_string()
}

pub open spec fn sh_target_objects_of_iri() -> Seq<char> {
    "http://www.w3.org/ns/shacl#targetObjectsOf"@
}

/// `<http://www.w3.org/ns/shacl#targetObjectsOf>`.
pub fn sh_target_objects_of() -> (r: String)
    ensures
        r@ == sh_target_objects_of_iri(),
{
    "http://www.w3.org/ns/shacl#targetObjectsOf".to_string()
}

pub open spec fn sh_node_shape_iri() -> Seq<char> {
    "http://www.w3.org/ns/shacl#NodeShape"@
}

/// `<http://www.w3.org/ns/shacl#NodeShape>`.
pub fn sh_node_shape() -> (r: String)
    ensures
        r@ == sh_node_shape_iri(),
{
    "http://www.w3.org/ns/shacl#NodeShape".to_string()
}

pub open spec fn sh_property_shape_iri() -> Seq<char> {
    "http://www.w3.org/ns/shacl#PropertyShape"@
}

/// `<http://www.w3.org/ns/shacl#PropertyShape>`.
pub fn sh_property_shape() -> (r: String)
    ensures
        r@ == sh_property_shape_iri(),
{
    "http://www.w3.org/ns/shacl#PropertyShape".to_string()
}

pub open spec fn sh_property_group_iri() -> Seq<char> {
    "http://www.w3.org/ns/shacl#PropertyGroup"@
}

/// `<http://www.w3.org/ns/shacl#PropertyGroup>`.
pub fn sh_property_group() -> (r: String)
    ensures
        r@ == sh_property_group_iri(),
{
    "http://www.w3.org/ns/shacl#PropertyGroup".to_string()
}

pub open spec fn sh_name_iri() -> Seq<char> {
    "http://www.w3.org/ns/shacl#name"@
}

/// `<http://www.w3.org/ns/shacl#name>`.
pub fn sh_name() -> (r: String)
    ensures
        r@ == sh_name_iri(),
{
    "http://www.w3.org/ns/shacl#name".to_string()
}

pub open spec fn sh_description_iri() -> Seq<char> {
    "http://www.w3.org/ns/shacl#description"@
}

/// `<http://www.w3.org/ns/shacl#description>`.
pub fn sh_description() -> (r: String)
    ensures
        r@ == sh_description_iri(),
{
    "http://www.w3.org/ns/shacl#description".to_string()
}

pub open spec fn sh_order_iri() -> Seq<char> {
    "http://www.w3.org/ns/shacl#order"@
}

/// `<http://www.w3.org/ns/shacl#order>`.
pub fn sh_order() -> (r: String)
    ensures
        r@ == sh_order_iri(),
{
    "http://www.w3.org/ns/shacl#order".to_string()
}

pub open spec fn sh_group_iri() -> Seq<char> {
    "http://www.w3.org/ns/shacl#group"@
}

/// `<http://www.w3.org/ns/shacl#group>`.
pub fn sh_group() -> (r: String)
    ensures
        r@ == sh_group_iri(),
{
    "http://www.w3.org/ns/shacl#group".to_string()
}

pub open spec fn sh_default_value_iri() -> Seq<char> {
    "http://www.w3.org/ns/shacl#defaultValue"@
}

/// `<http://www.w3.org/ns/shacl#defaultValue>`.
pub fn sh_default_value() -> (r: String)
    ensures
        r@ == sh_default_value_iri(),
{
    "http://www.w3.org/ns/shacl#defaultValue".to_string()
}

pub open spec fn sh_inverse_path_iri() -> Seq<char> {
    "http://www.w3.org/ns/shacl#inversePath"@
}

/// `<http://www.w3.org/ns/shacl#inversePath>`.
pub fn sh_inverse_path() -> (r: String)
    ensures
        r@ == sh_inverse_path_iri(),
{
    "http://www.w3.org/ns/shacl#inversePath".to_string()
}

pub open spec fn sh_alternative_path_iri() -> Seq<char> {
    "http://www.w3.org/ns/shacl#alternativePath"@
}

/// `<http://www.w3.org/ns/shacl#alternativePath>`.
pub fn sh_alternative_path() -> (r: String)
    ensures
        r@ == sh_alternative_path_iri(),
{
    "http://www.w3.org/ns/shacl#alternativePath".to_string()
}

pub open spec fn sh_zero_or_more_path_iri() -> Seq<char> {
    "http://www.w3.org/ns/shacl#zeroOrMorePath"@
}

/// `<http://www.w3.org/ns/shacl#zeroOrMorePath>`.
pub fn sh_zero_or_more_path() -> (r: String)
    ensures
        r@ == sh_zero_or_more_path_iri(),
{
    "http://www.w3.org/ns/shacl#zeroOrMorePath".to_string()
}

pub open spec fn sh_one_or_more_path_iri() -> Seq<char> {
    "http://www.w3.org/ns/shacl#oneOrMorePath"@
}

/// `<http://www.w3.org/ns/shacl#oneOrMorePath>`.
pub fn sh_one_or_more_path() -> (r: String)
    ensures
        r@ == sh_one_or_more_path_iri(),
{
    "http://www.w3.org/ns/shacl#oneOrMorePath".to_string()
}

pub open spec fn sh_zero_or_one_path_iri() -> Seq<char> {
    "http://www.w3.org/ns/shacl#zeroOrOnePath"@
}

/// `<http://www.w3.org/ns/shacl#zeroOrOnePath>`.
pub fn sh_zero_or_one_path() -> (r: String)
    ensures
        r@ == sh_zero_or_one_path_iri(),
{
    "http://www.w3.org/ns/shacl#zeroOrOnePath".to_string()
}

pub open spec fn sh_iri_iri() -> Seq<char> {
    "http://www.w3.org/ns/shacl#IRI"@
}

/// `<http://www.w3.org/ns/shacl#IRI>`.
pub fn sh_iri() -> (r: String)
    ensures
        r@ == sh_iri_iri(),
{
    "http://www.w3.org/ns/shacl#IRI".to_string()
}

pub open spec fn sh_literal_iri() -> Seq<char> {
    "http://www.w3.org/ns/shacl#Literal"@
}

/// `<http://www.w3.org/ns/shacl#Literal>`.
pub fn sh_literal() -> (r: String)
    ensures
        r@ == sh_literal_iri(),
{
    "http://www.w3.org/ns/shacl#Literal".to_string()
}

pub open spec fn sh_blank_node_iri() -> Seq<char> {
    "http://www.w3.org/ns/shacl#BlankNode"@
}

/// `<http://www.w3.org/ns/shacl#BlankNode>`.
pub fn sh_blank_node() -> (r: String)
    ensures
        r@ == sh_blank_node_iri(),
{
    "http://www.w3.org/ns/shacl#BlankNode".to_string()
}

pub open spec fn sh_blank_node_or_iri_iri() -> Seq<char> {
    "http://www.w3.org/ns/shacl#BlankNodeOrIRI"@
}

/// `<http://www.w3.org/ns/shacl#BlankNodeOrIRI>`.
pub fn sh_blank_node_or_iri() -> (r: String)
    ensures
        r@ == sh_blank_node_or_iri_iri(),
{
    "http://www.w3.org/ns/shacl#BlankNodeOrIRI".to_string()
}

pub open spec fn sh_blank_node_or_literal_iri() -> Seq<char> {
    "http://www.w3.org/ns/shacl#BlankNodeOrLiteral"@
}

/// `<http://www.w3.org/ns/shacl#BlankNodeOrLiteral>`.
pub fn sh_blank_node_or_literal() -> (r: String)
    ensures
        r@ == sh_blank_node_or_literal_iri(),
{
    "http://www.w3.org/ns/shacl#BlankNodeOrLiteral".to_string()
}

pub open spec fn sh_iri_or_literal_iri() -> Seq<char> {
    "http://www.w3.org/ns/shacl#IRIOrLiteral"@
}

/// `<http://www.w3.org/ns/shacl#IRIOrLiteral>`.
pub fn sh_iri_or_literal() -> (r: String)
    ensures
        r@ == sh_iri_or_literal_iri(),
{
    "http://www.w3.org/ns/shacl#IRIOrLiteral".to_string()
}

pub open spec fn sh_violation_iri() -> Seq<char> {
    "http://www.w3.org/ns/shacl#Violation"@
}

/// `<http://www.w3.org/ns/shacl#Violation>`.
pub fn sh_violation() -> (r: String)
    ensures
        r@ == sh_violation_iri(),
{
    "http://www.w3.org/ns/shacl#Violation".to_string()
}

pub open spec fn sh_warning_iri() -> Seq<char> {
    "http://www.w3.org/ns/shacl#Warning"@
}

/// `<http://www.w3.org/ns/shacl#Warning>`.
pub fn sh_warning() -> (r: String)
    ensures
        r@ == sh_warning_iri(),
{
    "http://www.w3.org/ns/shacl#Warning".to_string()
}

pub open spec fn sh_info_iri() -> Seq<char> {
    "http://www.w3.org/ns/shacl#Info"@
}

/// `<http://www.w3.org/ns/shacl#Info>`.
pub fn sh_info() -> (r: String)
    ensures
        r@ == sh_info_iri(),
{
    "http://www.w3.org/ns/shacl#Info".to_string()
}

pub open spec fn sh_debug_iri() -> Seq<char> {
    "http://www.w3.org/ns/shacl#Debug"@
}

/// `<http://www.w3.org/ns/shacl#Debug>`.
pub fn sh_debug() -> (r: String)
    ensures
        r@ == sh_debug_iri(),
{
    "http://www.w3.org/ns/shacl#Debug".to_string()
}

pub open spec fn sh_trace_iri() -> Seq<char> {
    "http://www.w3.org/ns/shacl#Trace"@
}

/// `<http://www.w3.org/ns/shacl#Trace>`.
pub fn sh_trace() -> (r: String)
    ensures
        r@ == sh_trace_iri(),
{
    "http://www.w3.org/ns/shacl#Trace".to_string()
}

pub open spec fn sh_class_constraint_component_iri() -> Seq<char> {
    "http://www.w3.org/ns/shacl#ClassConstraintComponent"@
}

/// `<http://www.w3.org/ns/shacl#ClassConstraintComponent>`.
pub fn sh_class_constraint_component() -> (r: String)
    ensures
        r@ == sh_class_constraint_component_iri(),
{
    "http://www.w3.org/ns/shacl#ClassConstraintComponent".to_string()
}

pub open spec fn sh_datatype_constraint_component_iri() -> Seq<char> {
    "http://www.w3.org/ns/shacl#DatatypeConstraintComponent"@
}

/// `<http://www.w3.org/ns/shacl#DatatypeConstraintComponent>`.
pub fn sh_datatype_constraint_component() -> (r: String)
    ensures
        r@ == sh_datatype_constraint_component_iri(),
{
    "http://www.w3.org/ns/shacl#DatatypeConstraintComponent".to_string()
}

pub open spec fn sh_node_kind_constraint_component_iri() -> Seq<char> {
    "http://www.w3.org/ns/shacl#NodeKindConstraintComponent"@
}

/// `<http://www.w3.org/ns/shacl#NodeKindConstraintComponent>`.
pub fn sh_node_kind_constraint_component() -> (r: String)
    ensures
        r@ == sh_node_kind_constraint_component_iri(),
{
    "http://www.w3.org/ns/shacl#NodeKindConstraintComponent".to_string()
}

pub open spec fn sh_min_count_constraint_component_iri() -> Seq<char> {
    "http://www.w3.org/ns/shacl#MinCountConstraintComponent"@
}

/// `<http://www.w3.org/ns/shacl#MinCountConstraintComponent>`.
pub fn sh_min_count_constraint_component() -> (r: String)
    ensures
        r@ == sh_min_count_constraint_component_iri(),
{
    "http://www.w3.org/ns/shacl#MinCountConstraintComponent".to_string()
}

pub open spec fn sh_max_count_constraint_component_iri() -> Seq<char> {
    "http://www.w3.org/ns/shacl#MaxCountConstraintComponent"@
}

/// `<http://www.w3.org/ns/shacl#MaxCountConstraintComponent>`.
pub fn sh_max_count_constraint_component() -> (r: String)
    ensures
        r@ == sh_max_count_constraint_component_iri(),
{
    "http://www.w3.org/ns/shacl#MaxCountConstraintComponent".to_string()
}

pub open spec fn sh_min_exclusive_constraint_component_iri() -> Seq<char> {
    "http://www.w3.org/ns/shacl#MinExclusiveConstraintComponent"@
}

/// `<http://www.w3.org/ns/shacl#MinExclusiveConstraintComponent>`.
pub fn sh_min_exclusive_constraint_component() -> (r: String)
    ensures
        r@ == sh_min_exclusive_constraint_component_iri(),
{
    "http://www.w3.org/ns/shacl#MinExclusiveConstraintComponent".to_string()
}

pub open spec fn sh_max_exclusive_constraint_component_iri() -> Seq<char> {
    "http://www.w3.org/ns/shacl#MaxExclusiveConstraintComponent"@
}

/// `<http://www.w3.org/ns/shacl#MaxExclusiveConstraintComponent>`.
pub fn sh_max_exclusive_constraint_component() -> (r: String)
    ensures
        r@ == sh_max_exclusive_constraint_component_iri(),
{
    "http://www.w3.org/ns/shacl#MaxExclusiveConstraintComponent".to_string()
}

pub open spec fn sh_min_inclusive_constraint_component_iri() -> Seq<char> {
    "http://www.w3.org/ns/shacl#MinInclusiveConstraintComponent"@
}

/// `<http://www.w3.org/ns/shacl#MinInclusiveConstraintComponent>`.
pub fn sh_min_inclusive_constraint_component() -> (r: String)
    ensures
        r@ == sh_min_inclusive_constraint_component_iri(),
{
    "http://www.w3.org/ns/shacl#MinInclusiveConstraintComponent".to_string()
}

pub open spec fn sh_max_inclusive_constraint_component_iri() -> Seq<char> {
    "http://www.w3.org/ns/shacl#MaxInclusiveConstraintComponent"@
}

/// `<http://www.w3.org/ns/shacl#MaxInclusiveConstraintComponent>`.
pub fn sh_max_inclusive_constraint_component() -> (r: String)
    ensures
        r@ == sh_max_inclusive_constraint_component_iri(),
{
    "http://www.w3.org/ns/shacl#MaxInclusiveConstraintComponent".to_string()
}

pub open spec fn sh_min_length_constraint_component_iri() -> Seq<char> {
    "http://www.w3.org/ns/shacl#MinLengthConstraintComponent"@
}

/// `<http://www.w3.org/ns/shacl#MinLengthConstraintComponent>`.
pub fn sh_min_length_constraint_component() -> (r: String)
    ensures
        r@ == sh_min_length_constraint_component_iri(),
{
    "http://www.w3.org/ns/shacl#MinLengthConstraintComponent".to_string()
}

pub open spec fn sh_max_length_constraint_component_iri() -> Seq<char> {
    "http://www.w3.org/ns/shacl#MaxLengthConstraintComponent"@
}

/// `<http://www.w3.org/ns/shacl#MaxLengthConstraintComponent>`.
pub fn sh_max_length_constraint_component() -> (r: String)
    ensures
        r@ == sh_max_length_constraint_component_iri(),
{
    "http://www.w3.org/ns/shacl#MaxLengthConstraintComponent".to_string()
}

pub open spec fn sh_pattern_constraint_component_iri() -> Seq<char> {
    "http://www.w3.org/ns/shacl#PatternConstraintComponent"@
}

/// `<http://www.w3.org/ns/shacl#PatternConstraintComponent>`.
pub fn sh_pattern_constraint_component() -> (r: String)
    ensures
        r@ == sh_pattern_constraint_component_iri(),
{
    "http://www.w3.org/ns/shacl#PatternConstraintComponent".to_string()
}

pub open spec fn sh_unique_lang_constraint_component_iri() -> Seq<char> {
    "http://www.w3.org/ns/shacl#UniqueLangConstraintComponent"@
}

/// `<http://www.w3.org/ns/shacl#UniqueLangConstraintComponent>`.
pub fn sh_unique_lang_constraint_component() -> (r: String)
    ensures
        r@ == sh_unique_lang_constraint_component_iri(),
{
    "http://www.w3.org/ns/shacl#UniqueLangConstraintComponent".to_string()
}

pub open spec fn sh_language_in_constraint_component_iri() -> Seq<char> {
    "http://www.w3.org/ns/shacl#LanguageInConstraintComponent"@
}

/// `<http://www.w3.org/ns/shacl#LanguageInConstraintComponent>`.
pub fn sh_language_in_constraint_component() -> (r: String)
    ensures
        r@ == sh_language_in_constraint_component_iri(),
{
    "http://www.w3.org/ns/shacl#LanguageInConstraintComponent".to_string()
}

pub open spec fn sh_equals_constraint_component_iri() -> Seq<char> {
    "http://www.w3.org/ns/shacl#EqualsConstraintComponent"@
}

/// `<http://www.w3.org/ns/shacl#EqualsConstraintComponent>`.
pub fn sh_equals_constraint_component() -> (r: String)
    ensures
        r@ == sh_equals_constraint_component_iri(),
{
    "http://www.w3.org/ns/shacl#EqualsConstraintComponent".to_string()
}

pub open spec fn sh_disjoint_constraint_component_iri() -> Seq<char> {
    "http://www.w3.org/ns/shacl#DisjointConstraintComponent"@
}

/// `<http://www.w3.org/ns/shacl#DisjointConstraintComponent>`.
pub fn sh_disjoint_constraint_component() -> (r: String)
    ensures
        r@ == sh_disjoint_constraint_component_iri(),
{
    "http://www.w3.org/ns/shacl#DisjointConstraintComponent".to_string()
}

pub open spec fn sh_less_than_constraint_component_iri() -> Seq<char> {
    "http://www.w3.org/ns/shacl#LessThanConstraintComponent"@
}

/// `<http://www.w3.org/ns/shacl#LessThanConstraintComponent>`.
pub fn sh_less_than_constraint_component() -> (r: String)
    ensures
        r@ == sh_less_than_constraint_component_iri(),
{
    "http://www.w3.org/ns/shacl#LessThanConstraintComponent".to_string()
}

pub open spec fn sh_less_than_or_equals_constraint_component_iri() -> Seq<char> {
    "http://www.w3.org/ns/shacl#LessThanOrEqualsConstraintComponent"@
}

/// `<http://www.w3.org/ns/shacl#LessThanOrEqualsConstraintComponent>`.
pub fn sh_less_than_or_equals_constraint_component() -> (r: String)
    ensures
        r@ == sh_less_than_or_equals_constraint_component_iri(),
{
    "http://www.w3.org/ns/shacl#LessThanOrEqualsConstraintComponent".to_string()
}

pub open spec fn sh_or_constraint_component_iri() -> Seq<char> {
    "http://www.w3.org/ns/shacl#OrConstraintComponent"@
}

/// `<http://www.w3.org/ns/shacl#OrConstraintComponent>`.
pub fn sh_or_constraint_component() -> (r: String)
    ensures
        r@ == sh_or_constraint_component_iri(),
{
    "http://www.w3.org/ns/shacl#OrConstraintComponent".to_string()
}

pub open spec fn sh_and_constraint_component_iri() -> Seq<char> {
    "http://www.w3.org/ns/shacl#AndConstraintComponent"@
}

/// `<http://www.w3.org/ns/shacl#AndConstraintComponent>`.
pub fn sh_and_constraint_component() -> (r: String)
    ensures
        r@ == sh_and_constraint_component_iri(),
{
    "http://www.w3.org/ns/shacl#AndConstraintComponent".to_string()
}

pub open spec fn sh_not_constraint_component_iri() -> Seq<char> {
    "http://www.w3.org/ns/shacl#NotConstraintComponent"@
}

/// `<http://www.w3.org/ns/shacl#NotConstraintComponent>`.
pub fn sh_not_constraint_component() -> (r: String)
    ensures
        r@ == sh_not_constraint_component_iri(),
{
    "http://www.w3.org/ns/shacl#NotConstraintComponent".to_string()
}

pub open spec fn sh_xone_constraint_component_iri() -> Seq<char> {
    "http://www.w3.org/ns/shacl#XoneConstraintComponent"@
}

/// `<http://www.w3.org/ns/shacl#XoneConstraintComponent>`.
pub fn sh_xone_constraint_component() -> (r: String)
    ensures
        r@ == sh_xone_constraint_component_iri(),
{
    "http://www.w3.org/ns/shacl#XoneConstraintComponent".to_string()
}

pub open spec fn sh_node_constraint_component_iri() -> Seq<char> {
    "http://www.w3.org/ns/shacl#NodeConstraintComponent"@
}

/// `<http://www.w3.org/ns/shacl#NodeConstraintComponent>`.
pub fn sh_node_constraint_component() -> (r: String)
    ensures
        r@ == sh_node_constraint_component_iri(),
{
    "http://www.w3.org/ns/shacl#NodeConstraintComponent".to_string()
}

pub open spec fn sh_has_value_constraint_component_iri() -> Seq<char> {
    "http://www.w3.org/ns/shacl#HasValueConstraintComponent"@
}

/// `<http://www.w3.org/ns/shacl#HasValueConstraintComponent>`.
pub fn sh_has_value_constraint_component() -> (r: String)
    ensures
        r@ == sh_has_value_constraint_component_iri(),
{
    "http://www.w3.org/ns/shacl#HasValueConstraintComponent".to_string()
}

pub open spec fn sh_in_constraint_component_iri() -> Seq<char> {
    "http://www.w3.org/ns/shacl#InConstraintComponent"@
}

/// `<http://www.w3.org/ns/shacl#InConstraintComponent>`.
pub fn sh_in_constraint_component() -> (r: String)
    ensures
        r@ == sh_in_constraint_component_iri(),
{
    "http://www.w3.org/ns/shacl#InConstraintComponent".to_string()
}

pub open spec fn sh_qualified_value_shape_constraint_component_iri() -> Seq<char> {
    "http://www.w3.org/ns/shacl#QualifiedValueShapeConstraintComponent"@
}

/// `<http://www.w3.org/ns/shacl#QualifiedValueShapeConstraintComponent>`.
pub fn sh_qualified_value_shape_constraint_component() -> (r: String)
    ensures
        r@ == sh_qualified_value_shape_constraint_component_iri(),
{
    "http://www.w3.org/ns/shacl#QualifiedValueShapeConstraintComponent".to_string()
}

pub open spec fn sh_closed_constraint_component_iri() -> Seq<char> {
    "http://www.w3.org/ns/shacl#ClosedConstraintComponent"@
}

/// `<http://www.w3.org/ns/shacl#ClosedConstraintComponent>`.
pub fn sh_closed_constraint_component() -> (r: String)
    ensures
        r@ == sh_closed_constraint_component_iri(),
{
    "http://www.w3.org/ns/shacl#ClosedConstraintComponent".to_string()
}

pub open spec fn sh_deactivated_constraint_component_iri() -> Seq<char> {
    "http://www.w3.org/ns/shacl#DeactivatedConstraintComponent"@
}

/// `<http://www.w3.org/ns/shacl#DeactivatedConstraintComponent>`.
pub fn sh_deactivated_constraint_component() -> (r: String)
    ensures
        r@ == sh_deactivated_constraint_component_iri(),
{
    "http://www.w3.org/ns/shacl#DeactivatedConstraintComponent".to_string()
}

pub open spec fn sh_sparql_constraint_component_iri() -> Seq<char> {
    "http://www.w3.org/ns/shacl#SparqlConstraintComponent"@
}

/// `<http://www.w3.org/ns/shacl#SparqlConstraintComponent>`.
pub fn sh_sparql_constraint_component() -> (r: String)
    ensures
        r@ == sh_sparql_constraint_component_iri(),
{
    "http://www.w3.org/ns/shacl#SparqlConstraintComponent".to_string()
}

pub open spec fn shui_editor_iri() -> Seq<char> {
    "http://www.w3.org/ns/shacl-ui#editor"@
}

/// `<http://www.w3.org/ns/shacl-ui#editor>`.
pub fn shui_editor() -> (r: String)
    ensures
        r@ == shui_editor_iri(),
{
    "http://www.w3.org/ns/shacl-ui#editor".to_string()
}

pub open spec fn shui_viewer_iri() -> Seq<char> {
    "http://www.w3.org/ns/shacl-ui#viewer"@
}

/// `<http://www.w3.org/ns/shacl-ui#viewer>`.
pub fn shui_viewer() -> (r: String)
    ensures
        r@ == shui_viewer_iri(),
{
    "http://www.w3.org/ns/shacl-ui#viewer".to_string()
}

pub open spec fn shui_details_editor_iri() -> Seq<char> {
    "http://www.w3.org/ns/shacl-ui#DetailsEditor"@
}

/// `<http://www.w3.org/ns/shacl-ui#DetailsEditor>`.
pub fn shui_details_editor() -> (r: String)
    ensures
        r@ == shui_details_editor_iri(),
{
    "http://www.w3.org/ns/shacl-ui#DetailsEditor".to_string()
}

pub open spec fn shui_enum_select_editor_iri() -> Seq<char> {
    "http://www.w3.org/ns/shacl-ui#EnumSelectEditor"@
}

/// `<http://www.w3.org/ns/shacl-ui#EnumSelectEditor>`.
pub fn shui_enum_select_editor() -> (r: String)
    ensures
        r@ == shui_enum_select_editor_iri(),
{
    "http://www.w3.org/ns/shacl-ui#EnumSelectEditor".to_string()
}

pub open spec fn shui_rich_text_editor_iri() -> Seq<char> {
    "http://www.w3.org/ns/shacl-ui#RichTextEditor"@
}

/// `<http://www.w3.org/ns/shacl-ui#RichTextEditor>`.
pub fn shui_rich_text_editor() -> (r: String)
    ensures
        r@ == shui_rich_text_editor_iri(),
{
    "http://www.w3.org/ns/shacl-ui#RichTextEditor".to_string()
}

pub open spec fn shui_text_field_with_lang_editor_iri() -> Seq<char> {
    "http://www.w3.org/ns/shacl-ui#TextFieldWithLangEditor"@
}

/// `<http://www.w3.org/ns/shacl-ui#TextFieldWithLangEditor>`.
pub fn shui_text_field_with_lang_editor() -> (r: String)
    ensures
        r@ == shui_text_field_with_lang_editor_iri(),
{
    "http://www.w3.org/ns/shacl-ui#TextFieldWithLangEditor".to_string()
}

pub open spec fn shui_boolean_select_editor_iri() -> Seq<char> {
    "http://www.w3.org/ns/shacl-ui#BooleanSelectEditor"@
}

/// `<http://www.w3.org/ns/shacl-ui#BooleanSelectEditor>`.
pub fn shui_boolean_select_editor() -> (r: String)
    ensures
        r@ == shui_boolean_select_editor_iri(),
{
    "http://www.w3.org/ns/shacl-ui#BooleanSelectEditor".to_string()
}

pub open spec fn shui_date_picker_editor_iri() -> Seq<char> {
    "http://www.w3.org/ns/shacl-ui#DatePickerEditor"@
}

/// `<http://www.w3.org/ns/shacl-ui#DatePickerEditor>`.
pub fn shui_date_picker_editor() -> (r: String)
    ensures
        r@ == shui_date_picker_editor_iri(),
{
    "http://www.w3.org/ns/shacl-ui#DatePickerEditor".to_string()
}

pub open spec fn shui_date_time_picker_editor_iri() -> Seq<char> {
    "http://www.w3.org/ns/shacl-ui#DateTimePickerEditor"@
}

/// `<http://www.w3.org/ns/shacl-ui#DateTimePickerEditor>`.
pub fn shui_date_time_picker_editor() -> (r: String)
    ensures
        r@ == shui_date_time_picker_editor_iri(),
{
    "http://www.w3.org/ns/shacl-ui#DateTimePickerEditor".to_string()
}

pub open spec fn shui_number_field_editor_iri() -> Seq<char> {
    "http://www.w3.org/ns/shacl-ui#NumberFieldEditor"@
}

/// `<http://www.w3.org/ns/shacl-ui#NumberFieldEditor>`.
pub fn shui_number_field_editor() -> (r: String)
    ensures
        r@ == shui_number_field_editor_iri(),
{
    "http://www.w3.org/ns/shacl-ui#NumberFieldEditor".to_string()
}

pub open spec fn shui_auto_complete_editor_iri() -> Seq<char> {
    "http://www.w3.org/ns/shacl-ui#AutoCompleteEditor"@
}

/// `<http://www.w3.org/ns/shacl-ui#AutoCompleteEditor>`.
pub fn shui_auto_complete_editor() -> (r: String)
    ensures
        r@ == shui_auto_complete_editor_iri(),
{
    "http://www.w3.org/ns/shacl-ui#AutoCompleteEditor".to_string()
}

pub open spec fn shui_iri_editor_iri() -> Seq<char> {
    "http://www.w3.org/ns/shacl-ui#IRIEditor"@
}

/// `<http://www.w3.org/ns/shacl-ui#IRIEditor>`.
pub fn shui_iri_editor() -> (r: String)
    ensures
        r@ == shui_iri_editor_iri(),
{
    "http://www.w3.org/ns/shacl-ui#IRIEditor".to_string()
}

pub open spec fn shui_text_field_editor_iri() -> Seq<char> {
    "http://www.w3.org/ns/shacl-ui#TextFieldEditor"@
}

/// `<http://www.w3.org/ns/shacl-ui#TextFieldEditor>`.
pub fn shui_text_field_editor() -> (r: String)
    ensures
        r@ == shui_text_field_editor_iri(),
{
    "http://www.w3.org/ns/shacl-ui#TextFieldEditor".to_string()
}

} // verus!
