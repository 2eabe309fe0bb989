# rudof_form

The core of a SHACL form engine over an in-memory RDF graph, written in Verus.
The logic under `src/` is verified against its contracts; the calls into oxrdf,
oxttl, oxjsonld and rudof_iri, and a few std string operations, stand behind
small trusted wrappers whose contracts say what that code is taken to do.

- `term`, `graph`, `order`, `text`, `vocab`: RDF terms, graphs as duplicate-free
  triple sequences, the SPARQL order of terms, string helpers and well-known IRIs.
- `path`: SHACL property paths, their semantics as a relation and as the list
  an evaluation yields, and a path evaluator proved to yield exactly that list.
- `focus`, `parse`: a focus cursor with save/restore/commit, and readers for
  properties, RDF lists and SHACL paths.
- `ast`, `types`, `message_map`: the SHACL schema (node and property shapes,
  components, targets), its builders, and language-tagged messages.
- `ir`, `ir_text`, `visitor`: compiled components, the triples each one
  writes back, their textual form, and visitors over components.
- `subset`: a graph decorator that records the triples a query visits.
- `shapes`, `model`: the shape model a form is built from (constraints,
  annotations, default editors, nested logical branches).
- `engine`, `project`, `report`: a form session (data graph, loaded shapes,
  edits, focus-scoped subgraph), form projection, and validation reports.
- `rdfio`: reading and writing Turtle, N-Triples and JSON-LD through oxttl
  and oxjsonld.
- `qualify`: terms written with prefixed names through prefixmap.

`app/` is the wasm binding: the JSON records and the `Session` object. `tests/` exercises the library from outside.
