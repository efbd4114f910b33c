//! Answers about classes, and the class-level checks.

use vstd::prelude::*;
use crate::errors::{ErrorCollector, ErrorKind, ErrorMsg, NameList, TextRange, TypeError};
use crate::expectation::EmptyAnswer;
use crate::solver::{
    AnswersSolver, ClassField, ClassMetadata, ClassTParam, PreInferenceVariance, Variance,
};
use crate::types::{type_any, AnyStyle, ClassType, Lit, Type, TypeList, TypePred};
use crate::union::{spec_unions, unions};

verus! {

/// A key whose answer is about the class defined at class key `class_idx`.
#[derive(Clone, Copy, PartialEq, Eq, Structural, Debug)]
pub struct BindingClassKey {
    pub class_idx: usize,
}

/// The ancestors of a class in method resolution order.
pub struct ClassMro {
    pub ancestors: Vec<ClassType>,
}

/// The base classes of a class.
pub struct ClassBases {
    pub bases: Vec<ClassType>,
}

/// The inferred variance of each type parameter of a class.
pub struct VarianceMap {
    pub variances: Vec<(u64, Variance)>,
}

/// The abstract members that a class leaves unimplemented.
pub struct AbstractClassMembers {
    pub unimplemented: Vec<u64>,
}

impl AnswersSolver {
    /// The class defined at class key `idx`, if it has been solved.
    pub open spec fn class_answer(self, idx: usize) -> Option<u64> {
        if idx < self.class_answers@.len() {
            self.class_answers@[idx as int]
        } else {
            None
        }
    }

    pub fn get_class_answer(&self, idx: usize) -> (r: Option<u64>)
        ensures
            r == self.class_answer(idx),
    {
        if idx < self.class_answers.len() {
            self.class_answers[idx]
        } else {
            None
        }
    }

    /// The known class `cls`.
    pub open spec fn class(self, cls: u64) -> crate::solver::ClassInfo
        recommends
            cls < self.classes@.len(),
    {
        self.classes@[cls as int]
    }

    /// The known class `cls`.
    pub fn class_info(&self, cls: u64) -> (r: &crate::solver::ClassInfo)
        requires
            cls < self.classes@.len(),
        ensures
            *r == self.class(cls),
    {
        let n = self.classes.len();
        assert(cls < n);
        &self.classes[cls as usize]
    }

    /// The MRO of the class at `binding`; a recursive reference has an empty one.
    pub fn solve_class_mro(&self, binding: &BindingClassKey, errors: &mut ErrorCollector) -> (r: ClassMro)
        ensures
            r.ancestors@ == match self.class_answer(binding.class_idx) {
                None => Seq::empty(),
                Some(cls) => self.mro(cls),
            },
            final(errors)@ == old(errors)@,
    {
        match self.get_class_answer(binding.class_idx) {
            None => ClassMro { ancestors: Vec::new() },
            Some(cls) => {
                let mut ancestors: Vec<ClassType> = Vec::new();
                if cls < self.classes.len() as u64 {
                    let mro = &self.classes[cls as usize].mro;
                    let mut i: usize = 0;
                    while i < mro.len()
                        invariant
                            i <= mro@.len(),
                            mro@ == self.mro(cls),
                            ancestors@ == mro@.take(i as int),
                        decreases mro.len() - i,
                    {
                        ancestors.push(mro[i].deep_clone());
                        i += 1;
                        assert(ancestors@ =~= mro@.take(i as int));
                    }
                    assert(mro@.take(i as int) =~= mro@);
                }
                ClassMro { ancestors }
            },
        }
    }

    /// The metadata of the class at `binding`; a recursive reference has plain metadata.
    pub fn solve_class_metadata(&self, binding: &BindingClassKey, errors: &mut ErrorCollector) -> (r: ClassMetadata)
        ensures
            r == match self.class_answer(binding.class_idx) {
                None => ClassMetadata::spec_plain(self.stdlib.builtins_type),
                Some(cls) => self.metadata(cls),
            },
            final(errors)@ == old(errors)@,
    {
        match self.get_class_answer(binding.class_idx) {
            None => ClassMetadata::plain(self.stdlib.builtins_type),
            Some(cls) => self.get_metadata_for_class(cls),
        }
    }

    /// The base classes of the class at `binding`; a recursive reference has none.
    pub fn solve_class_base_type(&self, binding: &BindingClassKey, errors: &mut ErrorCollector) -> (r: ClassBases)
        ensures
            r.bases@ == match self.class_answer(binding.class_idx) {
                None => Seq::empty(),
                Some(cls) => if cls < self.classes@.len() {
                    self.classes@[cls as int].bases@
                } else {
                    Seq::empty()
                },
            },
            final(errors)@ == old(errors)@,
    {
        let mut bases: Vec<ClassType> = Vec::new();
        if let Some(cls) = self.get_class_answer(binding.class_idx) {
            if cls < self.classes.len() as u64 {
                let src = &self.classes[cls as usize].bases;
                let mut i: usize = 0;
                while i < src.len()
                    invariant
                        i <= src@.len(),
                        bases@ == src@.take(i as int),
                    decreases src.len() - i,
                {
                    bases.push(src[i].deep_clone());
                    i += 1;
                    assert(bases@ =~= src@.take(i as int));
                }
                assert(src@.take(i as int) =~= src@);
            }
        }
        ClassBases { bases }
    }

    /// The inferred variance of each type parameter of the class at `binding`, in order; a
    /// recursive reference has none.
    pub fn solve_variance_binding(&self, binding: &BindingClassKey, errors: &mut ErrorCollector) -> (r: VarianceMap)
        ensures
            r.variances@ == match self.class_answer(binding.class_idx) {
                None => Seq::empty(),
                Some(cls) => if cls < self.classes@.len() {
                    self.classes@[cls as int].tparams@.map_values(|p: ClassTParam| (p.name, p.inferred))
                } else {
                    Seq::empty()
                },
            },
            final(errors)@ == old(errors)@,
    {
        let mut variances: Vec<(u64, Variance)> = Vec::new();
        if let Some(cls) = self.get_class_answer(binding.class_idx) {
            if cls < self.classes.len() as u64 {
                let tparams = &self.classes[cls as usize].tparams;
                let mut i: usize = 0;
                while i < tparams.len()
                    invariant
                        i <= tparams@.len(),
                        variances@ == tparams@.take(i as int).map_values(|p: ClassTParam| (p.name, p.inferred)),
                    decreases tparams.len() - i,
                {
                    variances.push((tparams[i].name, tparams[i].inferred));
                    i += 1;
                    assert(variances@ =~= tparams@.take(i as int).map_values(|p: ClassTParam| (p.name, p.inferred)));
                }
                assert(tparams@.take(i as int) =~= tparams@);
            }
        }
        VarianceMap { variances }
    }
}


/// The `Self` misuses in the fields of a TypedDict: each field declared in the class whose
/// type mentions a bound `Self`, reported where it is declared.
pub open spec fn typed_dict_self_errors(fields: Seq<ClassField>) -> Seq<TypeError>
    decreases fields.len(),
{
    if fields.len() == 0 {
        Seq::empty()
    } else {
        let f = fields.last();
        typed_dict_self_errors(fields.drop_last()) + if type_any(f.ty, TypePred::BoundSelf) && f.decl_range is Some {
            seq![TypeError { kind: ErrorKind::InvalidSelfType, range: f.decl_range->0, msg: ErrorMsg::SelfInTypedDict }]
        } else {
            Seq::empty()
        }
    }
}

/// The abstract methods declared in the class `cls_name`, reported where each is declared.
pub open spec fn abstract_method_errors(cls_name: u64, fields: Seq<ClassField>) -> Seq<TypeError>
    decreases fields.len(),
{
    if fields.len() == 0 {
        Seq::empty()
    } else {
        let f = fields.last();
        abstract_method_errors(cls_name, fields.drop_last()) + if f.is_abstract && f.decl_range is Some {
            seq![
                TypeError {
                    kind: ErrorKind::InvalidAbstractMethod,
                    range: f.decl_range->0,
                    msg: ErrorMsg::AbstractMethodInConcreteClass(cls_name, f.name),
                },
            ]
        } else {
            Seq::empty()
        }
    }
}

/// The variance an invariant type parameter could be declared with: a bivariant one could be
/// covariant.
pub open spec fn effective_variance(inferred: Variance) -> Variance {
    if inferred == Variance::Bivariant {
        Variance::Covariant
    } else {
        inferred
    }
}

/// The type parameters of a protocol declared invariant that could be declared with a
/// narrower variance, reported at the class.
pub open spec fn variance_suggestions(cls_name: u64, range: TextRange, tparams: Seq<ClassTParam>) -> Seq<TypeError>
    decreases tparams.len(),
{
    if tparams.len() == 0 {
        Seq::empty()
    } else {
        let p = tparams.last();
        variance_suggestions(cls_name, range, tparams.drop_last()) + if p.is_type_var && p.variance
            == PreInferenceVariance::Invariant && effective_variance(p.inferred) != Variance::Invariant {
            seq![
                TypeError {
                    kind: ErrorKind::VarianceMismatch,
                    range,
                    msg: ErrorMsg::InvariantCouldBe(p.name, cls_name, effective_variance(p.inferred)),
                },
            ]
        } else {
            Seq::empty()
        }
    }
}

impl AnswersSolver {
    /// What `solve_abstract_members` reports for class `cls`: a final class may not leave
    /// abstract members unimplemented; any other class that is not a protocol, a NewType or
    /// explicitly abstract is implicitly abstract when it does.
    pub open spec fn abstract_members_errors(self, cls: u64) -> Seq<TypeError>
        recommends
            cls < self.classes@.len(),
    {
        let info = self.class(cls);
        let m = info.metadata;
        let un = info.unimplemented_abstract@;
        if un.len() == 0 {
            Seq::empty()
        } else if !m.is_protocol && m.is_final {
            seq![
                TypeError {
                    kind: ErrorKind::BadClassDefinition,
                    range: info.range,
                    msg: ErrorMsg::FinalClassAbstractMembers(info.name, NameList::from_seq(un)),
                },
            ]
        } else if !m.is_protocol && !m.is_new_type && !m.is_explicitly_abstract {
            seq![
                TypeError {
                    kind: ErrorKind::ImplicitAbstractClass,
                    range: info.range,
                    msg: ErrorMsg::UnimplementedAbstractMembers(info.name, NameList::from_seq(un)),
                },
            ]
        } else {
            Seq::empty()
        }
    }

    /// The abstract members that class `cls` leaves unimplemented, reporting a class that
    /// may not leave any.
    pub fn solve_abstract_members(&self, cls: u64, errors: &mut ErrorCollector) -> (r: AbstractClassMembers)
        requires
            cls < self.classes@.len(),
        ensures
            r.unimplemented@ == self.class(cls).unimplemented_abstract@,
            final(errors)@ == old(errors)@ + self.abstract_members_errors(cls),
    {
        let info = self.class_info(cls);
        let metadata = info.metadata;
        let unimplemented = &info.unimplemented_abstract;
        let mut copy: Vec<u64> = Vec::new();
        let mut i: usize = 0;
        while i < unimplemented.len()
            invariant
                i <= unimplemented@.len(),
                copy@ == unimplemented@.take(i as int),
            decreases unimplemented.len() - i,
        {
            copy.push(unimplemented[i]);
            i += 1;
            assert(copy@ =~= unimplemented@.take(i as int));
        }
        assert(unimplemented@.take(i as int) =~= unimplemented@);
        if unimplemented.len() > 0 {
            if !metadata.is_protocol && metadata.is_final {
                errors.error(
                    ErrorKind::BadClassDefinition,
                    info.range,
                    ErrorMsg::FinalClassAbstractMembers(info.name, NameList::from_names(unimplemented)),
                );
            } else if !metadata.is_protocol && !metadata.is_new_type && !metadata.is_explicitly_abstract {
                errors.error(
                    ErrorKind::ImplicitAbstractClass,
                    info.range,
                    ErrorMsg::UnimplementedAbstractMembers(info.name, NameList::from_names(unimplemented)),
                );
            } else {
                assert(old(errors)@ + Seq::<TypeError>::empty() =~= old(errors)@);
            }
        } else {
            assert(old(errors)@ + Seq::<TypeError>::empty() =~= old(errors)@);
        }
        AbstractClassMembers { unimplemented: copy }
    }

    /// What the class-level checks report for class `cls`, in order: the override checks of
    /// its fields, the multiple-inheritance check (for a class with more than one base),
    /// the variance suggestions, the checks of shape-flag constructor sources, `Self` in a
    /// TypedDict, and abstract methods of a concrete class. The override, multiple
    /// inheritance and shape-flag checks are the solver's, whose reports `reports` holds.
    pub open spec fn class_check_errors(self, cls: u64, reports: ClassCheckReports) -> Seq<TypeError>
        recommends
            cls < self.classes@.len(),
    {
        let info = self.class(cls);
        let m = info.metadata;
        let tparams = info.tparams@;
        reports.overrides@ + (if info.bases@.len() > 1 {
            reports.multiple_inheritance@
        } else {
            Seq::empty()
        }) + (if m.is_protocol && (exists|i: int|
            0 <= i < tparams.len() && #[trigger] tparams[i].is_type_var && tparams[i].variance
                == PreInferenceVariance::Invariant) {
            variance_suggestions(info.name, info.range, tparams)
        } else {
            Seq::empty()
        }) + reports.shape_flag_sources@ + (if m.is_typed_dict {
            typed_dict_self_errors(info.fields@)
        } else {
            Seq::empty()
        }) + (if m.extends_abc || m.is_protocol || m.is_new_type {
            Seq::empty()
        } else {
            abstract_method_errors(info.name, info.fields@)
        })
    }

    /// For a protocol with an invariant TypeVar: warns when such a TypeVar could be declared
    /// with a narrower variance, based on its usage.
    fn check_variance_for_class(&self, cls: u64, errors: &mut ErrorCollector)
        requires
            cls < self.classes@.len(),
        ensures
            ({
                let info = self.class(cls);
                final(errors)@ == old(errors)@ + if info.metadata.is_protocol && (exists|i: int|
                    0 <= i < info.tparams@.len() && #[trigger] info.tparams@[i].is_type_var
                        && info.tparams@[i].variance == PreInferenceVariance::Invariant) {
                    variance_suggestions(info.name, info.range, info.tparams@)
                } else {
                    Seq::empty()
                }
            }),
    {
        let info = self.class_info(cls);
        let tparams = &info.tparams;
        let mut any_invariant = false;
        let mut i: usize = 0;
        while i < tparams.len()
            invariant
                i <= tparams@.len(),
                any_invariant == exists|j: int|
                    0 <= j < i && #[trigger] tparams@[j].is_type_var && tparams@[j].variance
                        == PreInferenceVariance::Invariant,
            decreases tparams.len() - i,
        {
            if tparams[i].is_type_var && tparams[i].variance == PreInferenceVariance::Invariant {
                any_invariant = true;
            }
            i += 1;
        }
        if info.metadata.is_protocol && any_invariant {
            let mut k: usize = 0;
            while k < tparams.len()
                invariant
                    k <= tparams@.len(),
                    errors@ == old(errors)@ + variance_suggestions(info.name, info.range, tparams@.take(k as int)),
                decreases tparams.len() - k,
            {
                proof {
                    assert(tparams@.take(k + 1).drop_last() =~= tparams@.take(k as int));
                }
                let tparam = tparams[k];
                if tparam.is_type_var && tparam.variance == PreInferenceVariance::Invariant {
                    let effective_v = if tparam.inferred == Variance::Bivariant {
                        Variance::Covariant
                    } else {
                        tparam.inferred
                    };
                    if effective_v != Variance::Invariant {
                        errors.error(
                            ErrorKind::VarianceMismatch,
                            info.range,
                            ErrorMsg::InvariantCouldBe(tparam.name, info.name, effective_v),
                        );
                    }
                }
                k += 1;
                assert(errors@ =~= old(errors)@ + variance_suggestions(info.name, info.range, tparams@.take(k as int)));
            }
            assert(tparams@.take(k as int) =~= tparams@);
        } else {
            assert(old(errors)@ + Seq::<TypeError>::empty() =~= old(errors)@);
        }
    }

    /// Reports `Self` in the fields a TypedDict declares.
    fn check_self_in_typed_dict(&self, cls: u64, errors: &mut ErrorCollector)
        requires
            cls < self.classes@.len(),
        ensures
            final(errors)@ == old(errors)@ + if self.class(cls).metadata.is_typed_dict {
                typed_dict_self_errors(self.class(cls).fields@)
            } else {
                Seq::empty()
            },
    {
        let info = self.class_info(cls);
        if !info.metadata.is_typed_dict {
            assert(old(errors)@ + Seq::<TypeError>::empty() =~= old(errors)@);
            return;
        }
        let fields = &info.fields;
        let mut k: usize = 0;
        while k < fields.len()
            invariant
                k <= fields@.len(),
                errors@ == old(errors)@ + typed_dict_self_errors(fields@.take(k as int)),
            decreases fields.len() - k,
        {
            proof {
                assert(fields@.take(k + 1).drop_last() =~= fields@.take(k as int));
            }
            let field = &fields[k];
            // `decl_range` is `None` for inherited fields, so we only report `Self` misuses
            // declared directly in this `TypedDict`.
            if field.ty.any(TypePred::BoundSelf) {
                if let Some(range) = field.decl_range {
                    errors.error(ErrorKind::InvalidSelfType, range, ErrorMsg::SelfInTypedDict);
                }
            }
            k += 1;
            assert(errors@ =~= old(errors)@ + typed_dict_self_errors(fields@.take(k as int)));
        }
        assert(fields@.take(k as int) =~= fields@);
    }

    /// Flags `@abstractmethod` on a method of a class that is not abstract (not an ABC, not a
    /// `Protocol` or `NewType`): such a class is directly instantiable yet carries an
    /// unimplemented method.
    fn check_invalid_abstract_methods(&self, cls: u64, errors: &mut ErrorCollector)
        requires
            cls < self.classes@.len(),
        ensures
            ({
                let m = self.class(cls).metadata;
                final(errors)@ == old(errors)@ + if m.extends_abc || m.is_protocol || m.is_new_type {
                    Seq::empty()
                } else {
                    abstract_method_errors(self.class(cls).name, self.class(cls).fields@)
                }
            }),
    {
        let info = self.class_info(cls);
        let metadata = info.metadata;
        if metadata.extends_abc || metadata.is_protocol || metadata.is_new_type {
            assert(old(errors)@ + Seq::<TypeError>::empty() =~= old(errors)@);
            return;
        }
        let fields = &info.fields;
        let mut k: usize = 0;
        while k < fields.len()
            invariant
                k <= fields@.len(),
                errors@ == old(errors)@ + abstract_method_errors(info.name, fields@.take(k as int)),
            decreases fields.len() - k,
        {
            proof {
                assert(fields@.take(k + 1).drop_last() =~= fields@.take(k as int));
            }
            let field = &fields[k];
            if field.is_abstract {
                if let Some(range) = field.decl_range {
                    errors.error(
                        ErrorKind::InvalidAbstractMethod,
                        range,
                        ErrorMsg::AbstractMethodInConcreteClass(info.name, field.name),
                    );
                }
            }
            k += 1;
            assert(errors@ =~= old(errors)@ + abstract_method_errors(info.name, fields@.take(k as int)));
        }
        assert(fields@.take(k as int) =~= fields@);
    }

    /// Runs the class-level diagnostics of the class at `binding`; see
    /// [`Self::class_check_errors`].
    pub fn solve_class_checks(&self, binding: &BindingClassKey, reports: ClassCheckReports, errors: &mut ErrorCollector) -> (r: EmptyAnswer)
        ensures
            final(errors)@ == old(errors)@ + match self.class_answer(binding.class_idx) {
                Some(cls) => if cls < self.classes@.len() {
                    self.class_check_errors(cls, reports)
                } else {
                    Seq::empty()
                },
                None => Seq::empty(),
            },
    {
        if let Some(cls) = self.get_class_answer(binding.class_idx) {
            if cls < self.classes.len() as u64 {
                errors.extend(reports.overrides);
                if self.classes[cls as usize].bases.len() > 1 {
                    errors.extend(reports.multiple_inheritance);
                } else {
                    assert(errors@ + Seq::<TypeError>::empty() =~= errors@);
                }
                let ghost e0 = errors@;
                self.check_variance_for_class(cls, errors);
                errors.extend(reports.shape_flag_sources);
                let ghost e1 = errors@;
                self.check_self_in_typed_dict(cls, errors);
                let ghost e2 = errors@;
                self.check_invalid_abstract_methods(cls, errors);
                assert(errors@ =~= old(errors)@ + self.class_check_errors(cls, reports));
                return EmptyAnswer;
            }
        }
        assert(old(errors)@ + Seq::<TypeError>::empty() =~= old(errors)@);
        EmptyAnswer
    }
}


/// What the solver's own class checks report for a class: the override checks of its
/// fields, in order, the check of its multiple inheritance, and the check of its shape-flag
/// constructor sources.
pub struct ClassCheckReports {
    pub overrides: Vec<TypeError>,
    pub multiple_inheritance: Vec<TypeError>,
    pub shape_flag_sources: Vec<TypeError>,
}

impl AnswersSolver {
    /// The class of a literal's values.
    pub open spec fn literal_class(self, lit: Lit) -> u64 {
        match lit {
            Lit::Str(_) => self.stdlib.str,
            Lit::Bytes(_) => self.stdlib.bytes,
            Lit::Int(_) => self.stdlib.int,
            Lit::Bool(_) => self.stdlib.bool,
        }
    }

    /// The result of calling `type()` on a value of type `ty`, approximated.
    pub open spec fn spec_type_of(self, ty: Type) -> Type
        decreases ty,
    {
        match ty {
            Type::ClassType(_) | Type::SelfType(_) => Type::TypeOf(Box::new(ty)),
            Type::Literal(lit) => Type::ClassDef(self.literal_class(lit)),
            Type::LiteralString => Type::ClassDef(self.stdlib.str),
            Type::NoneType => Type::ClassDef(self.stdlib.none_type),
            Type::Tuple(_) => Type::ClassDef(self.stdlib.tuple),
            Type::TypedDict(_) => Type::ClassDef(self.stdlib.dict),
            Type::Union(l) => if l != TypeList::Nil {
                spec_unions(self.type_of_list(l))
            } else {
                Type::ClassType(ClassType { class: self.stdlib.builtins_type, targs: TypeList::Nil })
            },
            Type::Any(style) => Type::TypeOf(Box::new(Type::Any(style.spec_propagate()))),
            Type::ClassDef(cls) => Type::TypeOf(Box::new(Type::ClassType(self.metaclass_type(cls)))),
            _ => Type::ClassType(ClassType { class: self.stdlib.builtins_type, targs: TypeList::Nil }),
        }
    }

    pub open spec fn type_of_list(self, l: TypeList) -> Seq<Type>
        decreases l,
    {
        match l {
            TypeList::Nil => Seq::empty(),
            TypeList::Cons(h, t) => seq![self.spec_type_of(*h)] + self.type_of_list(*t),
        }
    }

    fn type_of_members(&self, l: &TypeList) -> (r: Vec<Type>)
        ensures
            r@ == self.type_of_list(*l),
        decreases l,
    {
        match l {
            TypeList::Nil => Vec::new(),
            TypeList::Cons(h, t) => {
                let first = self.type_of(h.deep_clone());
                let mut rest = self.type_of_members(t);
                let mut r: Vec<Type> = Vec::new();
                r.push(first);
                r.append(&mut rest);
                r
            },
        }
    }

    /// Approximate the result of calling `type()` on something of type `ty`.
    pub fn type_of(&self, ty: Type) -> (r: Type)
        ensures
            r == self.spec_type_of(ty),
        decreases ty,
    {
        match ty {
            Type::ClassType(_) | Type::SelfType(_) => Type::TypeOf(Box::new(ty)),
            Type::Literal(lit) => Type::ClassDef(
                match lit {
                    Lit::Str(_) => self.stdlib.str,
                    Lit::Bytes(_) => self.stdlib.bytes,
                    Lit::Int(_) => self.stdlib.int,
                    Lit::Bool(_) => self.stdlib.bool,
                },
            ),
            Type::LiteralString => Type::ClassDef(self.stdlib.str),
            Type::NoneType => Type::ClassDef(self.stdlib.none_type),
            Type::Tuple(_) => Type::ClassDef(self.stdlib.tuple),
            Type::TypedDict(_) => Type::ClassDef(self.stdlib.dict),
            Type::Union(l) if matches!(l, TypeList::Cons(..)) => unions(self.type_of_members(&l)),
            Type::Any(style) => Type::TypeOf(Box::new(Type::Any(style.propagate()))),
            Type::ClassDef(cls) => Type::TypeOf(Box::new(Type::ClassType(self.class_metaclass_type(cls)))),
            _ => Type::ClassType(ClassType { class: self.stdlib.builtins_type, targs: TypeList::Nil }),
        }
    }
}


/// `type(x)` of a literal is its own general class: `str` for a string, `bytes` for bytes,
/// `int` for an integer, `bool` for a boolean (not `int`); `str` for a `LiteralString` and
/// `NoneType` for `None`.
pub proof fn law_type_of_literal_is_its_class(solver: AnswersSolver, n: u64, k: u64, i: i64, b: bool)
    ensures
        solver.spec_type_of(Type::Literal(Lit::Str(n))) == Type::ClassDef(solver.stdlib.str),
        solver.spec_type_of(Type::Literal(Lit::Bytes(k))) == Type::ClassDef(solver.stdlib.bytes),
        solver.spec_type_of(Type::Literal(Lit::Int(i))) == Type::ClassDef(solver.stdlib.int),
        solver.spec_type_of(Type::Literal(Lit::Bool(b))) == Type::ClassDef(solver.stdlib.bool),
        solver.spec_type_of(Type::LiteralString) == Type::ClassDef(solver.stdlib.str),
        solver.spec_type_of(Type::NoneType) == Type::ClassDef(solver.stdlib.none_type),
{
}


/// `type(x)` of an instance is the class of the instance (`type[C[...]]`); of a tuple,
/// `tuple`; of a TypedDict, `dict`; of `Any`, `type[Any]` (an explicit `Any` made implicit).
pub proof fn law_type_of_instances(solver: AnswersSolver, c: ClassType, t: crate::types::Tuple, td: u64, s: AnyStyle)
    ensures
        solver.spec_type_of(Type::ClassType(c)) == Type::TypeOf(Box::new(Type::ClassType(c))),
        solver.spec_type_of(Type::SelfType(c)) == Type::TypeOf(Box::new(Type::SelfType(c))),
        solver.spec_type_of(Type::Tuple(t)) == Type::ClassDef(solver.stdlib.tuple),
        solver.spec_type_of(Type::TypedDict(td)) == Type::ClassDef(solver.stdlib.dict),
        solver.spec_type_of(Type::Any(s)) == Type::TypeOf(
            Box::new(Type::Any(if s == AnyStyle::Explicit { AnyStyle::Implicit } else { s })),
        ),
{
}

} // verus!
