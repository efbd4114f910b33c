//! Statements: what is reported of a value computed and then dropped, and what a missing
//! `from ... import` gives.

use vstd::prelude::*;
use crate::errors::{ErrorCollector, ErrorKind, ErrorMsg, TextRange, TypeError};
use crate::solver::AnswersSolver;
use crate::types::{AnyStyle, Type};
use crate::untype::one_error;

verus! {

/// `from m import name` where neither `m` nor a submodule `m.name` gives the name: whether
/// `m` itself could not be found (the import system's verdict; that is reported where the
/// module is bound), where the statement stands, and whether it is unreachable.
pub struct ImportMissing {
    pub name: u64,
    pub module: u64,
    pub module_missing: bool,
    pub stmt_range: TextRange,
    pub is_unreachable: bool,
}

/// The type that a missing import gives, and its errors: always the error type; the
/// missing attribute is reported at the statement unless the statement is unreachable or
/// the module itself could not be found.
pub open spec fn spec_import_missing(x: ImportMissing) -> (Type, Seq<TypeError>) {
    (
        Type::Any(AnyStyle::Error),
        if x.module_missing || x.is_unreachable {
            Seq::empty()
        } else {
            one_error(ErrorKind::MissingModuleAttribute, x.stmt_range, ErrorMsg::CouldNotImport(x.name, x.module))
        },
    )
}

/// The type that a missing import gives; see [`spec_import_missing`].
pub fn solve_import_missing(x: &ImportMissing, errors: &mut ErrorCollector) -> (r: Type)
    ensures
        r == spec_import_missing(*x).0,
        final(errors)@ == old(errors)@ + spec_import_missing(*x).1,
{
    // A module that cannot be found is reported where the module is bound.
    if !x.module_missing && !x.is_unreachable {
        errors.error(ErrorKind::MissingModuleAttribute, x.stmt_range, ErrorMsg::CouldNotImport(x.name, x.module));
    } else {
        assert(old(errors)@ + Seq::<TypeError>::empty() =~= old(errors)@);
    }
    Type::Any(AnyStyle::Error)
}

/// `from m import name`, with what the import system knows of it: where the import
/// stands when it is checked for deprecation and `m` marks the name deprecated; the type
/// of `m`'s export `name` (as far as it has one); and, where the binder could not be sure
/// that `m` exports the name, what the fallbacks need.
pub struct ImportBinding {
    pub name: u64,
    pub module: u64,
    pub deprecated: Option<TextRange>,
    pub export: Type,
    pub fallback: Option<ImportFallback>,
}

/// The fallbacks of an import whose export is not known to exist: where the statement
/// stands and whether it is unreachable; whether `m` exports the name after all, and only
/// as an implicit re-export; the type of the submodule `m.name`, where there is one; where
/// `m` has a module-level `__getattr__`, what calling it returns (none where its type is
/// not callable); and whether `m` itself could not be found.
pub struct ImportFallback {
    pub stmt_range: TextRange,
    pub is_unreachable: bool,
    pub export_exists: bool,
    pub implicit_reexport: bool,
    pub submodule: Option<Type>,
    pub module_getattr: Option<Option<Type>>,
    pub module_missing: bool,
}

/// The errors of resolving an import's export: the name's deprecation, where it is checked.
pub open spec fn deprecation_errors(x: ImportBinding) -> Seq<TypeError> {
    match x.deprecated {
        Some(r) => one_error(ErrorKind::Deprecated, r, ErrorMsg::DeprecatedName(x.name)),
        None => Seq::empty(),
    }
}

/// The missing import that the last fallback reports.
pub open spec fn missing_of(x: ImportBinding, f: ImportFallback) -> ImportMissing {
    ImportMissing {
        name: x.name,
        module: x.module,
        module_missing: f.module_missing,
        stmt_range: f.stmt_range,
        is_unreachable: f.is_unreachable,
    }
}

impl AnswersSolver {
    /// What `from m import name` binds `name` to, and its errors: the export, where it is
    /// known to exist or (for another module than this one) exists after all, reported as
    /// an implicit re-export where it is one and the statement is reachable; else the
    /// submodule `m.name`; else what `m`'s `__getattr__` returns (an implicit `Any` where it
    /// is not callable); else what [`spec_import_missing`] says. Resolving the export
    /// reports its deprecation.
    pub open spec fn spec_solve_import(self, x: ImportBinding) -> (Type, Seq<TypeError>) {
        match x.fallback {
            None => (x.export, deprecation_errors(x)),
            Some(f) => if x.module != self.module && f.export_exists {
                (
                    x.export,
                    (if f.implicit_reexport && !f.is_unreachable {
                        one_error(ErrorKind::ImplicitReexport, f.stmt_range, ErrorMsg::NotReexported(x.name, x.module))
                    } else {
                        Seq::empty()
                    }) + deprecation_errors(x),
                )
            } else {
                match f.submodule {
                    Some(t) => (t, Seq::empty()),
                    None => match f.module_getattr {
                        Some(Some(t)) => (t, Seq::empty()),
                        Some(None) => (Type::Any(AnyStyle::Implicit), Seq::empty()),
                        None => spec_import_missing(missing_of(x, f)),
                    },
                }
            },
        }
    }

    /// The export an import resolves to, reporting its deprecation.
    fn resolve_export(&self, x: &ImportBinding, errors: &mut ErrorCollector) -> (r: Type)
        ensures
            r == x.export,
            final(errors)@ == old(errors)@ + deprecation_errors(*x),
    {
        match x.deprecated {
            Some(r) => errors.error(ErrorKind::Deprecated, r, ErrorMsg::DeprecatedName(x.name)),
            None => {
                assert(old(errors)@ + Seq::<TypeError>::empty() =~= old(errors)@);
            },
        }
        x.export.deep_clone()
    }

    /// What `from m import name` binds `name` to; see [`Self::spec_solve_import`].
    pub fn solve_import(&self, x: &ImportBinding, errors: &mut ErrorCollector) -> (r: Type)
        ensures
            r == self.spec_solve_import(*x).0,
            final(errors)@ == old(errors)@ + self.spec_solve_import(*x).1,
    {
        let f = match &x.fallback {
            // The binder verified that the export exists.
            None => return self.resolve_export(x, errors),
            Some(f) => f,
        };
        // A self-import goes to the submodule first, as Python prefers a submodule to a
        // name of the same name in `__init__.py`.
        if x.module != self.module && f.export_exists {
            if f.implicit_reexport && !f.is_unreachable {
                errors.error(ErrorKind::ImplicitReexport, f.stmt_range, ErrorMsg::NotReexported(x.name, x.module));
            } else {
                assert(old(errors)@ + Seq::<TypeError>::empty() =~= old(errors)@);
            }
            let ghost e1 = errors@;
            let r = self.resolve_export(x, errors);
            assert(errors@ =~= old(errors)@ + self.spec_solve_import(*x).1);
            return r;
        }
        assert(old(errors)@ + Seq::<TypeError>::empty() =~= old(errors)@);
        match &f.submodule {
            Some(t) => t.deep_clone(),
            None => match &f.module_getattr {
                Some(Some(t)) => t.deep_clone(),
                Some(None) => Type::Any(AnyStyle::Implicit),
                None => {
                    let m = ImportMissing {
                        name: x.name,
                        module: x.module,
                        module_missing: f.module_missing,
                                        stmt_range: f.stmt_range,
                        is_unreachable: f.is_unreachable,
                    };
                    solve_import_missing(&m, errors)
                },
            },
        }
    }
}

/// The special functions of `typing` (and its extensions) that the checker recognises in a
/// call.
#[derive(Clone, Copy, PartialEq, Eq, Structural, Debug)]
pub enum SpecialExport {
    TypeVar,
    IntVar,
    ParamSpec,
    TypeVarTuple,
    AssertType,
    RevealType,
    /// Any other special export.
    Other,
}

/// An expression used as a statement.
pub struct StmtExpr {
    /// The expression's type.
    pub result: Type,
    /// Whether the expression is an `await`.
    pub is_await: bool,
    /// Whether the expression is a call.
    pub is_call: bool,
    /// The special export the expression calls, if any.
    pub special: Option<SpecialExport>,
    /// The solver's verdict on whether the result is a coroutine.
    pub is_coroutine: bool,
    /// Whether the result's class (where it is a class instance) has `Any` among its
    /// ancestors.
    pub extends_any: bool,
    pub range: TextRange,
}

/// The error for calling a type-variable constructor without assigning its result.
pub open spec fn spec_special_export_errors(special: Option<SpecialExport>, range: TextRange) -> Seq<TypeError> {
    match special {
        Some(SpecialExport::TypeVar) => one_error(ErrorKind::InvalidTypeVar, range, ErrorMsg::MustBeAssigned(SpecialExport::TypeVar)),
        Some(SpecialExport::IntVar) => one_error(ErrorKind::InvalidTypeVar, range, ErrorMsg::MustBeAssigned(SpecialExport::IntVar)),
        Some(SpecialExport::ParamSpec) => one_error(ErrorKind::InvalidParamSpec, range, ErrorMsg::MustBeAssigned(SpecialExport::ParamSpec)),
        Some(SpecialExport::TypeVarTuple) => one_error(
            ErrorKind::InvalidTypeVarTuple,
            range,
            ErrorMsg::MustBeAssigned(SpecialExport::TypeVarTuple),
        ),
        _ => Seq::empty(),
    }
}

/// Whether a special export reports its own error when used as a bare statement (or is
/// meant to be used so).
pub open spec fn exempt_from_unused(special: Option<SpecialExport>) -> bool {
    match special {
        Some(SpecialExport::Other) | None => false,
        _ => true,
    }
}

/// The errors for an expression statement, in order: a type-variable constructor whose
/// result is dropped; then a dropped coroutine (not from `assert_type`, not of a class that
/// extends `Any`), or else the dropped result of a call that is neither `None`, `Any`,
/// `Never` nor an instance of a class that extends `Any`.
pub open spec fn spec_stmt_expr_errors(x: StmtExpr) -> Seq<TypeError> {
    spec_special_export_errors(x.special, x.range) + if x.special != Some(SpecialExport::AssertType) && x.result is ClassType
        && x.is_coroutine && !x.extends_any {
        one_error(
            ErrorKind::UnusedCoroutine,
            x.range,
            if x.is_await { ErrorMsg::AwaitedCoroutineUnused } else { ErrorMsg::CoroutineUnused },
        )
    } else if !exempt_from_unused(x.special) && x.is_call && !(x.result is NoneType) && !(x.result is Any)
        && !(x.result is Never) && !(x.result is ClassType && x.extends_any) {
        one_error(ErrorKind::UnusedCallResult, x.range, ErrorMsg::CallResultUnused(x.result))
    } else {
        Seq::empty()
    }
}

impl AnswersSolver {
    /// The type of an expression statement, which is its expression's; see
    /// [`spec_stmt_expr_errors`] for what is reported.
    pub fn binding_to_type_stmt_expr(&self, x: &StmtExpr, errors: &mut ErrorCollector) -> (r: Type)
        ensures
            r == x.result,
            final(errors)@ == old(errors)@ + spec_stmt_expr_errors(*x),
    {
        match x.special {
            Some(SpecialExport::TypeVar) => {
                errors.error(ErrorKind::InvalidTypeVar, x.range, ErrorMsg::MustBeAssigned(SpecialExport::TypeVar));
            },
            Some(SpecialExport::IntVar) => {
                errors.error(ErrorKind::InvalidTypeVar, x.range, ErrorMsg::MustBeAssigned(SpecialExport::IntVar));
            },
            Some(SpecialExport::ParamSpec) => {
                errors.error(ErrorKind::InvalidParamSpec, x.range, ErrorMsg::MustBeAssigned(SpecialExport::ParamSpec));
            },
            Some(SpecialExport::TypeVarTuple) => {
                errors.error(ErrorKind::InvalidTypeVarTuple, x.range, ErrorMsg::MustBeAssigned(SpecialExport::TypeVarTuple));
            },
            _ => {},
        }
        let ghost e1 = errors@;
        let is_class = matches!(x.result, Type::ClassType(_));
        let is_assert_type = match x.special {
            Some(SpecialExport::AssertType) => true,
            _ => false,
        };
        let exempt = match x.special {
            Some(SpecialExport::Other) | None => false,
            _ => true,
        };
        if !is_assert_type && is_class && x.is_coroutine && !x.extends_any {
            let msg = if x.is_await { ErrorMsg::AwaitedCoroutineUnused } else { ErrorMsg::CoroutineUnused };
            errors.error(ErrorKind::UnusedCoroutine, x.range, msg);
        } else if !exempt && x.is_call && !matches!(x.result, Type::NoneType) && !x.result.is_any() && !x.result.is_never()
            && !(is_class && x.extends_any) {
            errors.error(ErrorKind::UnusedCallResult, x.range, ErrorMsg::CallResultUnused(x.result.deep_clone()));
        }
        proof {
            assert(errors@ =~= old(errors)@ + spec_stmt_expr_errors(*x));
        }
        x.result.deep_clone()
    }
}

} // verus!
