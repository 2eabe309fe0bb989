//! Validation results and their plain report form: each result's focus node,
//! path, value, messages, severity and source constraint component, as the
//! form boundary carries them.
use vstd::prelude::*;
use crate::dto::{RudofReport, RudofResult, TermValue, TermValueV, named_value, object_to_value, object_value};
use crate::message_map::MessageMap;
use crate::path::{PathV, SHACLPath};
use crate::term::{Object, opt_view};
use crate::shapes::{iri_of, object_iri};
use crate::vocab;

verus! {

/// The severity of a validation result.
#[derive(Debug)]
pub enum Severity {
    Violation,
    Warning,
    Info,
    Debug,
    Trace,
    Generic(String),
}

/// The IRI of a severity: SHACL's for the standard levels, its own otherwise.
pub open spec fn severity_iri(s: Severity) -> Seq<char> {
    match s {
        Severity::Violation => vocab::sh_violation_iri(),
        Severity::Warning => vocab::sh_warning_iri(),
        Severity::Info => vocab::sh_info_iri(),
        Severity::Debug => vocab::sh_debug_iri(),
        Severity::Trace => vocab::sh_trace_iri(),
        Severity::Generic(i) => i@,
    }
}

/// The severity that an IRI names: a standard SHACL level, else a generic one.
pub open spec fn severity_of_iri(i: Seq<char>) -> Severity {
    if i == vocab::sh_violation_iri() {
        Severity::Violation
    } else if i == vocab::sh_warning_iri() {
        Severity::Warning
    } else if i == vocab::sh_info_iri() {
        Severity::Info
    } else if i == vocab::sh_debug_iri() {
        Severity::Debug
    } else if i == vocab::sh_trace_iri() {
        Severity::Trace
    } else {
        Severity::Generic(arbitrary())
    }
}

impl Severity {
    /// The severity's IRI.
    pub fn iri(&self) -> (r: String)
        ensures
            r@ == severity_iri(*self),
    {
        match self {
            Severity::Violation => vocab::sh_violation(),
            Severity::Warning => vocab::sh_warning(),
            Severity::Info => vocab::sh_info(),
            Severity::Debug => vocab::sh_debug(),
            Severity::Trace => vocab::sh_trace(),
            Severity::Generic(i) => i.clone(),
        }
    }

    /// The severity that `iri` names: a standard SHACL level, else a generic
    /// severity holding the IRI.
    pub fn from_iri(iri: String) -> (r: Severity)
        ensures
            severity_iri(r) == iri@,
            !(r is Generic) ==> r == severity_of_iri(iri@),
            r is Generic <==> severity_of_iri(iri@) is Generic,
    {
        if iri.eq(&vocab::sh_violation()) {
            Severity::Violation
        } else if iri.eq(&vocab::sh_warning()) {
            Severity::Warning
        } else if iri.eq(&vocab::sh_info()) {
            Severity::Info
        } else if iri.eq(&vocab::sh_debug()) {
            Severity::Debug
        } else if iri.eq(&vocab::sh_trace()) {
            Severity::Trace
        } else {
            Severity::Generic(iri)
        }
    }
}

/// One validation result: the focus node it is about, the path and value
/// involved, its messages, its severity and the constraint component that
/// produced it.
pub struct ValidationResult {
    pub focus_node: Object,
    pub path: Option<SHACLPath>,
    pub value: Option<Object>,
    pub message: MessageMap,
    pub severity: Severity,
    pub constraint_component: Object,
}

impl ValidationResult {
    /// The focus node.
    pub fn focus_node(&self) -> (r: &Object)
        ensures
            r == &self.focus_node,
    {
        &self.focus_node
    }

    /// The path, if any.
    pub fn path(&self) -> (r: Option<&SHACLPath>)
        ensures
            match r {
                Some(p) => self.path == Some(*p),
                None => self.path is None,
            },
    {
        match &self.path {
            Some(p) => Some(p),
            None => None,
        }
    }

    /// The value, if any.
    pub fn value(&self) -> (r: Option<&Object>)
        ensures
            match r {
                Some(v) => self.value == Some(*v),
                None => self.value is None,
            },
    {
        match &self.value {
            Some(v) => Some(v),
            None => None,
        }
    }

    /// The messages.
    pub fn message(&self) -> (r: &MessageMap)
        ensures
            r == &self.message,
    {
        &self.message
    }

    /// The severity.
    pub fn severity(&self) -> (r: &Severity)
        ensures
            r == &self.severity,
    {
        &self.severity
    }

    /// The source constraint component.
    pub fn constraint_component(&self) -> (r: &Object)
        ensures
            r == &self.constraint_component,
    {
        &self.constraint_component
    }
}

/// A validation outcome: whether the data conforms, and the results.
pub struct ValidationOutcome {
    pub conforms: bool,
    pub results: Vec<ValidationResult>,
}

/// The outcome of a scoped validation: it conforms exactly when there is no
/// result.
pub fn outcome(results: Vec<ValidationResult>) -> (r: ValidationOutcome)
    ensures
        r.conforms == (results@.len() == 0),
        r.results@ == results@,
{
    let conforms = results.len() == 0;
    ValidationOutcome { conforms, results }
}

// ---------------------------------------------------------------------------
// Report form
// ---------------------------------------------------------------------------

/// The single term of a result path: a plain predicate's IRI; a complex path
/// has none.
pub open spec fn path_term(p: PathV) -> Option<TermValueV> {
    match p {
        PathV::Predicate(i) => Some(named_value(i)),
        _ => None,
    }
}

/// The single term of a result path.
pub fn path_to_term(p: &SHACLPath) -> (r: Option<TermValue>)
    ensures
        match path_term(p@) {
            Some(t) => r matches Some(x) && x@ == t,
            None => r is None,
        },
{
    match p {
        SHACLPath::Predicate { pred } => Some(TermValue::named(pred.as_str())),
        _ => None,
    }
}

/// The texts of a message map, in its order.
pub open spec fn message_texts(entries: Seq<(Option<Seq<char>>, Seq<char>)>) -> Seq<Seq<char>> {
    entries.map_values(|e: (Option<Seq<char>>, Seq<char>)| e.1)
}

/// What report record `d` holds for validation result `r`.
pub open spec fn result_record(r: ValidationResult, d: RudofResult) -> bool {
    &&& d.focus_node@ == object_value(r.focus_node@)
    &&& match r.path {
        Some(p) => match path_term(p@) {
            Some(t) => d.path matches Some(x) && x@ == t,
            None => d.path is None,
        },
        None => d.path is None,
    }
    &&& match r.value {
        Some(v) => d.value matches Some(x) && x@ == object_value(v@),
        None => d.value is None,
    }
    &&& crate::text::views(d.message@) == message_texts(r.message.entries_view())
    &&& opt_view(d.severity) == Some(severity_iri(r.severity))
    &&& opt_view(d.source_constraint_component) == iri_of(r.constraint_component@)
}

/// The report record of one validation result.
pub fn result_to_dto(r: &ValidationResult) -> (d: RudofResult)
    ensures
        result_record(*r, d),
{
    let path = match r.path() {
        Some(p) => path_to_term(p),
        None => None,
    };
    let value = match r.value() {
        Some(v) => Some(object_to_value(v)),
        None => None,
    };
    let entries = r.message().messages();
    let mut message: Vec<String> = Vec::new();
    let mut i: usize = 0;
    while i < entries.len()
        invariant
            i <= entries.len(),
            crate::text::views(message@) == message_texts(crate::message_map::entry_views(entries@)).take(
                i as int,
            ),
        decreases entries.len() - i,
    {
        let ghost before = message@;
        message.push(entries[i].1.clone());
        assert(crate::text::views(message@) =~= crate::text::views(before).push(entries@[i as int].1@));
        assert(message_texts(crate::message_map::entry_views(entries@)).take(i as int + 1) =~= message_texts(
            crate::message_map::entry_views(entries@),
        ).take(i as int).push(entries@[i as int].1@));
        i = i + 1;
    }
    assert(message_texts(crate::message_map::entry_views(entries@)).take(entries.len() as int) =~= message_texts(
        crate::message_map::entry_views(entries@),
    ));
    RudofResult {
        focus_node: object_to_value(r.focus_node()),
        path,
        value,
        message,
        severity: Some(r.severity().iri()),
        source_constraint_component: object_iri(r.constraint_component()),
    }
}

/// The report of a validation outcome: its conformance and a record for
/// each result, in order.
pub fn report_from_outcome(outcome: &ValidationOutcome) -> (r: RudofReport)
    ensures
        r.conforms == outcome.conforms,
        r.results@.len() == outcome.results@.len(),
        forall|i: int|
            0 <= i < r.results@.len() ==> result_record(outcome.results@[i], #[trigger] r.results@[i]),
{
    let mut results: Vec<RudofResult> = Vec::new();
    let mut i: usize = 0;
    while i < outcome.results.len()
        invariant
            i <= outcome.results.len(),
            results@.len() == i,
            forall|j: int| 0 <= j < i ==> result_record(outcome.results@[j], #[trigger] results@[j]),
        decreases outcome.results.len() - i,
    {
        results.push(result_to_dto(&outcome.results[i]));
        i = i + 1;
    }
    RudofReport { conforms: outcome.conforms, results }
}

/// The focus term that a plain value names.
pub fn focus_object(focus: &TermValue) -> (r: Result<Object, String>)
    ensures
        r matches Ok(o) && o@ == crate::dto::value_object(focus@),
{
    Ok(crate::dto::term_to_object(focus))
}

} // verus!

verus! {

/// A report record carries every message of its result: one text per entry
/// of the result's message map, in the map's order, so each message of the
/// map is among them and nothing else is. Its severity is the SHACL IRI of
/// the result's level (`sh:Violation`, `sh:Warning`, `sh:Info`).
pub proof fn law_record_keeps_every_message(r: ValidationResult, d: RudofResult)
    requires
        result_record(r, d),
    ensures
        d.message@.len() == r.message.entries_view().len(),
        forall|i: int| 0 <= i < d.message@.len() ==> #[trigger] d.message@[i]@ == r.message.entries_view()[i].1,
        forall|i: int|
            0 <= i < r.message.entries_view().len() ==> crate::text::views(d.message@).contains(
                #[trigger] r.message.entries_view()[i].1,
            ),
        r.severity is Violation ==> opt_view(d.severity) == Some("http://www.w3.org/ns/shacl#Violation"@),
        r.severity is Warning ==> opt_view(d.severity) == Some("http://www.w3.org/ns/shacl#Warning"@),
        r.severity is Info ==> opt_view(d.severity) == Some("http://www.w3.org/ns/shacl#Info"@),
{
    let views = crate::text::views(d.message@);
    assert(views.len() == d.message@.len());
    assert forall|i: int| 0 <= i < d.message@.len() implies #[trigger] d.message@[i]@ == r.message.entries_view()[i].1 by {
        assert(views[i] == d.message@[i]@);
    }
    assert forall|i: int| 0 <= i < r.message.entries_view().len() implies crate::text::views(d.message@).contains(
        #[trigger] r.message.entries_view()[i].1,
    ) by {
        assert(views[i] == r.message.entries_view()[i].1);
    }
}

} // verus!
