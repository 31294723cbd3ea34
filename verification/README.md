# codegen

The code generator of the Brix language, verified with Verus. It turns the
statements and expressions of a parsed Brix program into LLVM IR through
`inkwell` (LLVM 14).

The parser's syntax tree is not part of this crate. The generator is generic
over the parser's statement, expression and definition types and reaches them
through the `StatementCompiler` trait: the parser side builds a `StmtView` or
`ExprView` of a node and hands it to `compile_stmt_view` or
`compile_expr_view`, which dispatch each form to the function that compiles
it. Literals are compiled on the parser side.

## Layout

- `types`, `typeparse`: Brix types, their models, and the resolution of type
  texts (aliases, unions, intersections, optionals).
- `strmap`, `text`, `generics`: name-keyed registries, text helpers, type
  substitution, inference of type arguments and the record of instances.
- `ops`, `binary`: the typing of operators and the emission of operations.
- `decl`, `declare`, `arc`: declarations, storage and reference counting.
- `compiler`: the generator's state and the `StatementCompiler` trait.
- `llvm`: the calls into `inkwell`, each behind a trusted wrapper. Calls of
  runtime and declared functions go through a `Signature` the library made.
  Wrappers that emit an instruction, a call, a store, a load, a global
  string, a constant or a `ret` hand back a record of what they were asked
  for: a value with private fields that only those wrappers make. The
  contracts of the emitting functions (operations, retain and release,
  printing, number formatting, loops, patterns, comprehensions, closures,
  test matchers, declarations, the end of `main`) state these records.
  Context types have names; integer constants have none.
- `emit`, `layout`, `stmts`, `loops`, `closures`, `access`, `patterns`,
  `comprehension`, `stringify`, `format`, `calls`, `invoke`, `instances`,
  `builtins`, `testlib`, `testgen`: the compilation of each construct.
- `syntax`: the statement and expression views and their dispatch.
- `laws`: properties of the generator proved over its specifications.

Tests under `tests/` drive the generator with small syntax trees and check the
emitted IR.
