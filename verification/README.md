# graphql-strip-sensitive-literals

Redact sensitive literals from a GraphQL document before logging or usage
reporting: integers and floats become `0`, strings and descriptions become
`""`, and, with `hide_list_and_object_literals`, lists become `[]` and objects
`{}`. Everything else is kept.

The redactor is written in Verus and proved against its specification.

## Layout

- `src/ast.rs` — the document AST the redactor walks, and the view of each
  node.
- `src/model.rs` — the mathematical model of a document (text as `Seq<char>`,
  lists as `Seq`).
- `src/redact.rs` — what redaction does to each node, as spec functions.
- `src/strip.rs` — the redaction walk; each function is proved to build the
  redacted copy its spec function describes.
- `src/laws.rs` — proofs about redaction as a whole: no literal data is left,
  an already redacted document is unchanged, redaction is idempotent,
  documents that differ only in literal content (and, when hidden, list and
  object contents) redact to the same document,
  non-sensitive values and, by default, list and object shapes are kept.
- `src/copy.rs` — verified copies of document nodes, and `Clone` for every
  AST type.
- `src/options.rs` — `StripOptions` and its builder.
- `app/` — the same entry point on `apollo_compiler` documents: it converts a
  parsed `apollo_compiler::ast::Document` into the library's document,
  redacts it, and converts the result back for printing, each node keeping
  the source location of the node it came from.
