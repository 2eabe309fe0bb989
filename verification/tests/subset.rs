use rudof_form::dto::RDFFormat;
use rudof_form::engine::FormEngine;
use rudof_form::graph::Graph;
use rudof_form::subset::{BuildRdfRecorder, NullRecorder, RecordingRdf};

fn ex(local: &str) -> String {
    format!("http://example.org/{local}")
}

fn sample_graph() -> Graph {
    let data = r#"
        @prefix ex: <http://example.org/> .
        ex:a ex:p ex:b .
        ex:a ex:q ex:c .
        ex:b ex:p ex:d .
    "#;
    FormEngine::parse_graph(data, &RDFFormat::Turtle).expect("sample turtle parses")
}

#[test]
fn records_visited_triples_into_sink() {
    let graph = sample_graph();
    let recorder = BuildRdfRecorder::new(Graph::new());
    let mut recording = RecordingRdf::new(&graph, recorder);

    let all = recording.triples_matching(&None, &None, &None);
    assert_eq!(all.len(), 3, "decorator yields the inner graph's triples unchanged");

    let _ = recording.triples_matching(&None, &None, &None).len();

    let recorder = recording.into_recorder();
    assert_eq!(recorder.len(), 3, "recorder captured every distinct visited triple");

    let subset = recorder.into_inner();
    let subset_triples = subset.triples();
    assert_eq!(subset_triples.len(), 3, "sink holds the recorded subgraph");
}

#[test]
fn null_recorder_is_inert() {
    let graph = sample_graph();
    let mut recording = RecordingRdf::new(&graph, NullRecorder);
    let n = recording.triples_matching(&None, &None, &None).len();
    assert_eq!(n, 3, "NullRecorder leaves the query results untouched");
}

#[test]
fn narrower_query_records_only_what_it_visits() {
    let graph = sample_graph();
    let mut recording = RecordingRdf::new(&graph, BuildRdfRecorder::new(Graph::new()));
    let found = recording.triples_matching(&None, &Some(ex("q")), &None);
    assert_eq!(found.len(), 1);
    let recorder = recording.into_recorder();
    assert_eq!(recorder.len(), 1);
    assert!(!recorder.is_empty());
}

#[test]
fn sink_keeps_its_own_triples_and_adds_the_kept_ones() {
    let graph = sample_graph();
    let mut start = Graph::new();
    let first = graph.triples()[0].clone();
    start.add_triple(first.subject.clone(), first.predicate.clone(), first.object.clone());
    start.add_triple(
        rudof_form::term::IriOrBlankNode::Iri(ex("z")),
        ex("p"),
        rudof_form::term::Object::Iri(ex("y")),
    );
    let mut recording = RecordingRdf::new(&graph, BuildRdfRecorder::new(start));
    let _ = recording.triples_matching(&None, &None, &None);
    let recorder = recording.into_recorder();
    assert_eq!(recorder.len(), 3);
    let sink = recorder.into_inner();
    assert_eq!(sink.len(), 4, "the two starting triples, plus the two kept ones it lacked");
}

#[test]
fn recording_graph_keeps_the_prefixes() {
    let graph = sample_graph();
    let recording = RecordingRdf::new(&graph, NullRecorder);
    assert_eq!(recording.prefixmap(), vec![("ex".to_string(), ex(""))]);
}
