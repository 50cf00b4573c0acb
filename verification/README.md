# plec_query_core

A SQL query builder for several dialects, a semantic graph of TypeScript/JSX modules,
and their contracts, proved with Verus.

## Layout

- `src/` — the verified library.
  - `types.rs`, `sql.rs`, `text.rs` — values, compiled fragments, identifier quoting and
    the character-level string helpers everything else is built on.
  - `dialect.rs`, `backend.rs` — dialect names, capabilities, policies, placeholder styles
    and pagination rendering.
  - `expressions.rs`, `expr_node.rs`, `expr_copy.rs` — expression fragments and the
    evaluation of expression trees, with dialect checks and rewrite warnings.
  - `builder/` — builder state (`state.rs`), the operations on it (`methods.rs`,
    `api.rs`), validation (`checks.rs`), rendering (`render.rs`), the handle registry
    and its caches (`registry.rs`), outputs (`output.rs`), the compact and binary
    encodings of operation batches (`compact.rs`), the canonical form and its digest
    (`canonical.rs`), placeholder counts of rendered queries (`placeholders.rs`), and laws
    over several calls (`laws.rs`).
  - `parser.rs`, `syntax.rs`, `model.rs` — parsing TSX modules, the top-level items of
    their syntax trees held as plain values, what is read from those items (imports,
    exports, dependencies, declared names, component properties), and the semantic graph
    with name resolution.
  - `error.rs` — error types and their messages.
- `tests/` — tests of the library.
- `app/` — the string-and-JSON API over one process-wide registry and the serde forms of
  the library's types.

Lowering components to their executable form is not here beyond its error type and the
fetch options it accepts: it reads and builds the types of the `plec_hir` and `plec_ir`
crates, whose sources are not available to this project.
