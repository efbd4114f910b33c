# pyrefly solver answers, verified

A verified library of the answers that a Python type checker's solver gives for the
bindings of a module: annotations and their qualifiers, type forms (`untype`, the
type-form checks), type aliases and their type parameters, iteration and unpacking,
`super()`, `yield` and `yield from`, `with` and `except` clauses, assignments, expression
statements, `del` and assignments to subscripts, declared function return types and
parameters, inferred return types (the join of the returns and its width cap; the truncation of deep nesting is an input), the
forcing of solver variables for narrowing, and the per-class answers and checks. Every
function states its result and the errors it reports in its contract, over a model of
types (`src/types.rs`) and of what the solver knows of the program (`src/solver.rs`); the
contracts are proved with Verus. Where an answer depends on a judgement of the solver that
lies outside this library (whether one type is assignable to another, what an expression
or a method call gives), that judgement is an input, named as the solver's verdict.

Layout of `src/`:

- `types.rs`, `type_ops.rs`, `union.rs`: the type language, structural operations on it,
  and the join of types into a union.
- `errors.rs`: diagnostics and the collector they are reported to.
- `solver.rs`: the classes the solver knows, the standard library classes it refers to,
  and the answers already computed for class keys and type aliases.
- `small_map.rs`: the insertion-ordered maps and sets of `starlark_map`, declared with the
  contracts that the library relies on.
- `type_form.rs`, `untype.rs`, `annotation.rs`, `legacy_scoping.rs`: positions of type
  expressions, untyping of values used as types, annotations with their qualifiers, and the
  scoping of legacy type variables in annotations.
- `tparams.rs`, `tvar_default.rs`: type parameter lists and defaults.
- `alias*.rs`, `type_alias.rs`: type aliases: cyclic self-references, collecting and
  declaring their parameters, expanding references to other aliases, and wrapping.
- `classes.rs`, `class_answers.rs`, `super_call.rs`: class answers, class-level checks and
  `super()`.
- `iterable.rs`, `expectation.rs`, `yields.rs`, `context_managers.rs`, `exceptions.rs`,
  `narrowing.rs`, `assignment.rs`, `statements.rs`, `function_types.rs`, `deletion.rs`,
  `subscript_assign.rs`, `bindings.rs`: the answers for the bindings of statements and expressions.
- `test_env.rs`: test environments with stub modules for Polars and pandas.

The laws of the library are the public proof functions named `law_*`.
