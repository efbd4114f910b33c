//! The answers that a Python type checker's solver gives for bindings: annotations and their
//! qualifiers, type forms, type aliases and their parameters, iteration and unpacking,
//! `super()`, `yield`, `with` and `except` clauses, assignments, `del`, function returns and
//! parameters, and the class-level answers and checks. Each answer is stated in the contracts of its function, over a model of types
//! and of what the solver knows of the program.

// The type language and what the solver knows.
pub mod types;
pub mod type_ops;
pub mod union;
pub mod errors;
pub mod solver;
pub mod small_map;

// Type forms and annotations.
pub mod type_form;
pub mod untype;
pub mod annotation;
pub mod legacy_scoping;

// Type parameters and type aliases.
pub mod tparams;
pub mod tvar_default;
pub mod alias;
pub mod alias_params;
pub mod alias_decl;
pub mod alias_expand;
pub mod alias_wrap;
pub mod type_alias;

// Classes.
pub mod classes;
pub mod class_answers;
pub mod super_call;

// Bindings.
pub mod iterable;
pub mod expectation;
pub mod yields;
pub mod context_managers;
pub mod exceptions;
pub mod narrowing;
pub mod assignment;
pub mod statements;
pub mod function_types;
pub mod deletion;
pub mod subscript_assign;
pub mod bindings;

// Test environments.
pub mod test_env;
