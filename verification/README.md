# ultrasql_planner

Binding of SQL statements to typed logical plans, written and proved in Verus.

Binding resolves the names of a statement against a catalog, checks the types of
its expressions, and puts its parts into the order in which they are evaluated:
the `FROM` source first, then filters, grouping, the projection with its order,
and limits.

## Layout

- `src/ast.rs`, `src/query.rs`, `src/plan.rs`: statements, query plans and
  logical plans. Each type has a model, `XView`, over which contracts speak.
- `src/ast_text.rs`, `src/ast_alike.rs`: expressions spelled out as texts, which
  name the columns of aggregate calls, and the proof that equal texts come from
  expressions that are alike.
- `src/binder/`: the core binder. `bind` is its entry point. `bound.rs` says what
  expressions and `SELECT` statements are bound to, `select.rs` computes it, and
  `soundness.rs` proves what holds of every bound query.
- `src/dialect/`: the wider dialect, with literals of all types, coercions,
  built-in functions, `MERGE`, and the definition statements under `ddl/`.
- `src/catalog.rs`: the catalog that names are looked up in.
- `src/datatype.rs`, `src/debug.rs`: data types, their SQL names, and their
  spelling by variant in some messages.
- `app/`: floating-point arithmetic, and the text syntaxes of a store.
- `tests/`: statements with the plans or the errors that they are bound to.

Floating-point constants are kept as the computations that give them, and what a
store reads from a text comes in as a table of readings
(`src/dialect/reading.rs`); `app/` fills it.
