//! `super()`: which class attribute lookup starts from.

use vstd::prelude::*;
use crate::errors::{ErrorCollector, ErrorKind, ErrorMsg, TextRange, TypeError};
use crate::solver::AnswersSolver;
use crate::types::{AnyStyle, ClassType, SuperObj, Type, TypeList};

verus! {

/// The lookup class after scanning `chain` from position `i`, having `found` the class
/// `cls` already (with `lookup` the last candidate).
pub open spec fn super_scan(chain: Seq<ClassType>, cls: u64, i: int, found: bool, lookup: Option<ClassType>) -> Option<ClassType>
    decreases chain.len() - i,
{
    if i < 0 || i >= chain.len() {
        lookup
    } else if chain[i].class == cls {
        super_scan(chain, cls, i + 1, true, Some(chain[i]))
    } else if found {
        Some(chain[i])
    } else {
        super_scan(chain, cls, i + 1, found, lookup)
    }
}

/// How the method containing an argument-less `super()` is declared.
#[derive(Clone, Copy, PartialEq, Eq, Structural, Debug)]
pub enum MethodKind {
    /// `__new__`
    New,
    StaticMethod,
    ClassMethod,
    Instance,
}

/// A `super` call, with its arguments solved.
pub enum SuperStyle {
    /// `super(cls, obj)`, with the types of `cls` and `obj`.
    ExplicitArgs(Type, Type),
    /// `super()` in a method of kind `method` of the class `class` (`None` while the class is
    /// being solved).
    ImplicitArgs(Option<u64>, MethodKind),
    Any,
}

impl AnswersSolver {
    /// `obj`'s class followed by its ancestors.
    pub open spec fn super_chain(self, obj: ClassType) -> Seq<ClassType> {
        seq![obj] + self.mro(obj.class)
    }

    /// The class that attribute lookup on `super(cls, obj)` is done on: the class after `cls`
    /// in `obj`'s MRO (or `cls` itself when nothing follows it), if `cls` is in it.
    pub open spec fn spec_super_lookup_class(self, cls: u64, obj: ClassType) -> Option<ClassType> {
        super_scan(self.super_chain(obj), cls, 0, false, None)
    }

    /// Get the class that attribute lookup on `super(cls, obj)` should be done on.
    /// This is the class above `cls` in `obj`'s MRO.
    pub fn get_super_lookup_class(&self, cls: u64, obj: &ClassType) -> (r: Option<ClassType>)
        ensures
            r == self.spec_super_lookup_class(cls, *obj),
    {
        let ghost chain = self.super_chain(*obj);
        let empty: Vec<ClassType> = Vec::new();
        let mro = if obj.class < self.classes.len() as u64 {
            &self.classes[obj.class as usize].mro
        } else {
            &empty
        };
        proof {
            assert(chain =~= seq![*obj] + mro@);
        }
        let mut lookup_cls: Option<ClassType> = None;
        let mut found = false;
        assert(chain[0] == *obj);
        if obj.class == cls {
            found = true;
            lookup_cls = Some(obj.deep_clone());
        }
        let mut j: usize = 0;
        while j < mro.len()
            invariant
                j <= mro@.len(),
                chain == seq![*obj] + mro@,
                super_scan(chain, cls, j + 1, found, lookup_cls) == self.spec_super_lookup_class(cls, *obj),
            decreases mro@.len() - j,
        {
            let ancestor = &mro[j];
            assert(chain[j + 1] == *ancestor);
            if ancestor.class == cls {
                found = true;
                // Handle the corner case of `ancestor` being `object` (and therefore having no
                // ancestor of its own).
                lookup_cls = Some(ancestor.deep_clone());
            } else if found {
                return Some(ancestor.deep_clone());
            }
            j += 1;
        }
        lookup_cls
    }
}


impl AnswersSolver {
    /// `super(<cls_type>, ...)` on behalf of `super_obj`, an instance or subclass of `obj_cls`.
    pub open spec fn spec_make_super(
        self,
        cls: u64,
        dynamic_start: bool,
        cls_type: Type,
        obj_cls: ClassType,
        super_obj: SuperObj,
        range: TextRange,
    ) -> (Type, Seq<TypeError>) {
        match self.spec_super_lookup_class(cls, obj_cls) {
            None => (
                Type::any_error(),
                seq![
                    TypeError {
                        kind: ErrorKind::InvalidSuperCall,
                        range,
                        msg: ErrorMsg::IllegalSuperCall(cls_type, obj_cls),
                    },
                ],
            ),
            // `Self` may be any subclass, so there is no sound fixed MRO lookup class.
            Some(lookup) => if dynamic_start {
                (Type::Any(AnyStyle::Implicit), Seq::empty())
            } else {
                (Type::SuperInstance(lookup, super_obj), Seq::empty())
            },
        }
    }

    /// The value of a `super` call, and the errors it reports at `range`.
    pub open spec fn spec_solve_super(self, style: SuperStyle, range: TextRange) -> (Type, Seq<TypeError>) {
        match style {
            SuperStyle::ExplicitArgs(cls_type, obj_type) => {
                let first = match cls_type {
                    Type::ClassDef(c) => Some((c, false)),
                    Type::TypeOf(inner) => match *inner {
                        Type::SelfType(c) => Some((c.class, true)),
                        _ => None,
                    },
                    _ => None,
                };
                if cls_type is Any {
                    (Type::Any(cls_type->Any_0.spec_propagate()), Seq::empty())
                } else if first is None {
                    (
                        Type::any_error(),
                        seq![
                            TypeError {
                                kind: ErrorKind::InvalidArgument,
                                range,
                                msg: ErrorMsg::SuperFirstArgument(cls_type),
                            },
                        ],
                    )
                } else {
                    let (cls, dynamic_start) = first->0;
                    match obj_type {
                        Type::Any(style) => (Type::Any(style.spec_propagate()), Seq::empty()),
                        Type::ClassType(o) => self.spec_make_super(cls, dynamic_start, cls_type, o, SuperObj::Instance(o), range),
                        Type::ClassDef(o) => {
                            let obj = self.spec_as_class_type_unchecked(o);
                            self.spec_make_super(cls, dynamic_start, cls_type, obj, SuperObj::Class(obj), range)
                        },
                        Type::SelfType(o) => self.spec_make_super(cls, dynamic_start, cls_type, o, SuperObj::Instance(o), range),
                        Type::TypeOf(inner) => match *inner {
                            Type::ClassType(o) => self.spec_make_super(cls, dynamic_start, cls_type, o, SuperObj::Class(o), range),
                            Type::SelfType(o) => self.spec_make_super(cls, dynamic_start, cls_type, o, SuperObj::Class(o), range),
                            _ => (
                                Type::any_error(),
                                seq![
                                    TypeError {
                                        kind: ErrorKind::InvalidArgument,
                                        range,
                                        msg: ErrorMsg::SuperSecondArgument(obj_type),
                                    },
                                ],
                            ),
                        },
                        _ => (
                            Type::any_error(),
                            seq![
                                TypeError {
                                    kind: ErrorKind::InvalidArgument,
                                    range,
                                    msg: ErrorMsg::SuperSecondArgument(obj_type),
                                },
                            ],
                        ),
                    }
                }
            },
            SuperStyle::ImplicitArgs(Some(obj_cls), method) => {
                let obj_type = self.spec_as_class_type_unchecked(obj_cls);
                let lookup = self.spec_super_lookup_class(obj_cls, obj_type)->0;
                if method is StaticMethod {
                    (
                        Type::any_error(),
                        seq![TypeError { kind: ErrorKind::InvalidSuperCall, range, msg: ErrorMsg::SuperInStaticMethod }],
                    )
                } else {
                    let obj = if method is Instance {
                        SuperObj::Instance(obj_type)
                    } else {
                        SuperObj::Class(obj_type)
                    };
                    (
                        Type::SuperInstance(lookup, obj),
                        if self.metadata(obj_cls).is_named_tuple && self.metadata(obj_cls).directly_extends_named_tuple {
                            seq![TypeError { kind: ErrorKind::InvalidSuperCall, range, msg: ErrorMsg::SuperInNamedTuple }]
                        } else {
                            Seq::empty()
                        },
                    )
                }
            },
            SuperStyle::ImplicitArgs(None, _) => (Type::Any(AnyStyle::Implicit), Seq::empty()),
            SuperStyle::Any => (Type::Any(AnyStyle::Implicit), Seq::empty()),
        }
    }

    fn make_super_instance(
        &self,
        cls: u64,
        dynamic_start: bool,
        cls_type: &Type,
        obj_cls: &ClassType,
        super_obj: SuperObj,
        range: TextRange,
        errors: &mut ErrorCollector,
    ) -> (r: Type)
        ensures
            ({
                let (t, es) = self.spec_make_super(cls, dynamic_start, *cls_type, *obj_cls, super_obj, range);
                r == t && final(errors)@ == old(errors)@ + es
            }),
    {
        match self.get_super_lookup_class(cls, obj_cls) {
            None => {
                errors.error(
                    ErrorKind::InvalidSuperCall,
                    range,
                    ErrorMsg::IllegalSuperCall(cls_type.deep_clone(), obj_cls.deep_clone()),
                );
                assert(errors@ =~= old(errors)@ + self.spec_make_super(cls, dynamic_start, *cls_type, *obj_cls, super_obj, range).1);
                Type::Any(AnyStyle::Error)
            },
            Some(lookup_cls) => {
                assert(old(errors)@ + Seq::<TypeError>::empty() =~= old(errors)@);
                if dynamic_start {
                    Type::Any(AnyStyle::Implicit)
                } else {
                    Type::SuperInstance(lookup_cls, super_obj)
                }
            },
        }
    }

    /// The value of a `super` call, reporting at `range` what is wrong with it.
    pub fn solve_super_binding(&self, style: &SuperStyle, range: TextRange, errors: &mut ErrorCollector) -> (r: Type)
        ensures
            ({
                let (t, es) = self.spec_solve_super(*style, range);
                r == t && final(errors)@ == old(errors)@ + es
            }),
    {
        match style {
            SuperStyle::ExplicitArgs(cls_type, obj_type) => {
                let (cls, dynamic_start) = match cls_type {
                    Type::Any(style) => {
                        assert(old(errors)@ + Seq::<TypeError>::empty() =~= old(errors)@);
                        return Type::Any(style.propagate());
                    },
                    Type::ClassDef(cls) => (*cls, false),
                    Type::TypeOf(inner) if matches!(&**inner, Type::SelfType(_)) => {
                        let c = match &**inner {
                            Type::SelfType(c) => c.class,
                            _ => 0,
                        };
                        (c, true)
                    },
                    t => {
                        errors.error(ErrorKind::InvalidArgument, range, ErrorMsg::SuperFirstArgument(t.deep_clone()));
                        assert(errors@ =~= old(errors)@ + self.spec_solve_super(*style, range).1);
                        return Type::Any(AnyStyle::Error);
                    },
                };
                match obj_type {
                    Type::Any(style) => {
                        assert(old(errors)@ + Seq::<TypeError>::empty() =~= old(errors)@);
                        Type::Any(style.propagate())
                    },
                    Type::ClassType(obj_cls) => self.make_super_instance(
                        cls,
                        dynamic_start,
                        cls_type,
                        obj_cls,
                        SuperObj::Instance(obj_cls.deep_clone()),
                        range,
                        errors,
                    ),
                    Type::ClassDef(obj_cls) => {
                        let obj = self.as_class_type_unchecked(*obj_cls);
                        let super_obj = SuperObj::Class(self.as_class_type_unchecked(*obj_cls));
                        self.make_super_instance(cls, dynamic_start, cls_type, &obj, super_obj, range, errors)
                    },
                    Type::SelfType(obj_cls) => self.make_super_instance(
                        cls,
                        dynamic_start,
                        cls_type,
                        obj_cls,
                        SuperObj::Instance(obj_cls.deep_clone()),
                        range,
                        errors,
                    ),
                    Type::TypeOf(inner) if matches!(&**inner, Type::ClassType(_) | Type::SelfType(_)) => {
                        match &**inner {
                            Type::ClassType(obj_cls) | Type::SelfType(obj_cls) => self.make_super_instance(
                                cls,
                                dynamic_start,
                                cls_type,
                                obj_cls,
                                SuperObj::Class(obj_cls.deep_clone()),
                                range,
                                errors,
                            ),
                            _ => Type::Any(AnyStyle::Error),
                        }
                    },
                    t => {
                        errors.error(ErrorKind::InvalidArgument, range, ErrorMsg::SuperSecondArgument(t.deep_clone()));
                        assert(errors@ =~= old(errors)@ + self.spec_solve_super(*style, range).1);
                        Type::Any(AnyStyle::Error)
                    },
                }
            },
            SuperStyle::ImplicitArgs(Some(obj_cls), method) => {
                let obj_type = self.as_class_type_unchecked(*obj_cls);
                let lookup_cls = self.get_super_lookup_class(*obj_cls, &obj_type);
                proof {
                    // `obj_cls` itself heads its own chain, so the lookup always finds a class.
                    let chain = self.super_chain(obj_type);
                    assert(chain[0] == obj_type);
                    lemma_super_scan_some(chain, *obj_cls, 1, true, Some(obj_type));
                }
                let lookup_cls = match lookup_cls {
                    Some(l) => l,
                    None => ClassType { class: *obj_cls, targs: TypeList::Nil },
                };
                let obj = match method {
                    // __new__ is special: it's the only static method in which the no-argument
                    // form of super is allowed.
                    MethodKind::New => SuperObj::Class(obj_type),
                    MethodKind::StaticMethod => {
                        errors.error(ErrorKind::InvalidSuperCall, range, ErrorMsg::SuperInStaticMethod);
                        assert(errors@ =~= old(errors)@ + self.spec_solve_super(*style, range).1);
                        return Type::Any(AnyStyle::Error);
                    },
                    MethodKind::ClassMethod => SuperObj::Class(obj_type),
                    MethodKind::Instance => SuperObj::Instance(obj_type),
                };
                // A zero-arg `super()` in a method of a class that directly subclasses
                // `NamedTuple` makes the class fail to define at runtime.
                let metadata = self.get_metadata_for_class(*obj_cls);
                if metadata.is_named_tuple && metadata.directly_extends_named_tuple {
                    errors.error(ErrorKind::InvalidSuperCall, range, ErrorMsg::SuperInNamedTuple);
                } else {
                    assert(old(errors)@ + Seq::<TypeError>::empty() =~= old(errors)@);
                }
                Type::SuperInstance(lookup_cls, obj)
            },
            SuperStyle::ImplicitArgs(None, _) | SuperStyle::Any => {
                assert(old(errors)@ + Seq::<TypeError>::empty() =~= old(errors)@);
                Type::Any(AnyStyle::Implicit)
            },
        }
    }
}

/// Once the class has been found with a candidate, the scan ends with a candidate.
pub proof fn lemma_super_scan_some(chain: Seq<ClassType>, cls: u64, i: int, found: bool, lookup: Option<ClassType>)
    requires
        found,
        lookup is Some,
        i >= 0,
    ensures
        super_scan(chain, cls, i, found, lookup) is Some,
    decreases chain.len() - i,
{
    if i < chain.len() {
        if chain[i].class == cls {
            lemma_super_scan_some(chain, cls, i + 1, true, Some(chain[i]));
        }
    }
}


proof fn lemma_scan_skips(chain: Seq<ClassType>, cls: u64, i: int, k: int)
    requires
        0 <= i <= k <= chain.len(),
        forall|j: int| i <= j < k ==> chain[j].class != cls,
    ensures
        super_scan(chain, cls, i, false, None) == super_scan(chain, cls, k, false, None),
    decreases k - i,
{
    if i < k {
        lemma_scan_skips(chain, cls, i + 1, k);
    }
}

/// Attribute lookup on `super(cls, obj)` starts at the class just above `cls` in `obj`'s
/// class and ancestors; when `cls` does not occur there, there is no lookup class. (When
/// `cls` is repeated or last, the scan takes the last of its run.)
pub proof fn law_super_lookup_is_next_in_mro(solver: AnswersSolver, cls: u64, obj: ClassType, i: int)
    requires
        0 <= i < solver.super_chain(obj).len() - 1,
        solver.super_chain(obj)[i].class == cls,
        solver.super_chain(obj)[i + 1].class != cls,
        forall|j: int| 0 <= j < i ==> solver.super_chain(obj)[j].class != cls,
    ensures
        solver.spec_super_lookup_class(cls, obj) == Some(solver.super_chain(obj)[i + 1]),
{
    let chain = solver.super_chain(obj);
    lemma_scan_skips(chain, cls, 0, i);
    assert(super_scan(chain, cls, i, false, None) == super_scan(chain, cls, i + 1, true, Some(chain[i])));
    assert(super_scan(chain, cls, i + 1, true, Some(chain[i])) == Some(chain[i + 1]));
}

/// When `cls` is not among `obj`'s class and ancestors, `super(cls, obj)` has no lookup class.
pub proof fn law_super_lookup_absent(solver: AnswersSolver, cls: u64, obj: ClassType)
    requires
        forall|j: int| 0 <= j < solver.super_chain(obj).len() ==> solver.super_chain(obj)[j].class != cls,
    ensures
        solver.spec_super_lookup_class(cls, obj) is None,
{
    let chain = solver.super_chain(obj);
    lemma_scan_skips(chain, cls, 0, chain.len() as int);
}


/// A `super()` with no arguments in a method of class `cls` stands for `cls` with its own
/// type parameters: as an instance in an instance method, as the class in a class method
/// and in `__new__`; in a static method it is reported, once, and gives the error type.
pub proof fn law_zero_argument_super_object(solver: AnswersSolver, cls: u64, method: MethodKind, range: TextRange)
    ensures
        ({
            let own = solver.spec_as_class_type_unchecked(cls);
            let (t, e) = solver.spec_solve_super(SuperStyle::ImplicitArgs(Some(cls), method), range);
            &&& method is Instance ==> (t matches Type::SuperInstance(_, o) && o == SuperObj::Instance(own))
            &&& (method is New || method is ClassMethod) ==> (t matches Type::SuperInstance(_, o) && o == SuperObj::Class(own))
            &&& method is StaticMethod ==> t == Type::Any(AnyStyle::Error) && e == seq![
                TypeError { kind: ErrorKind::InvalidSuperCall, range, msg: ErrorMsg::SuperInStaticMethod },
            ]
        }),
{
}


/// `super(C, obj)` with `C` a class object: the super object is `obj` as given (an instance
/// for an instance, the class for a class object or `type[...]`), and when `C` does not
/// occur among `obj`'s class and ancestors it is reported, once, as illegal.
pub proof fn law_explicit_super_object(solver: AnswersSolver, cls: u64, obj: ClassType, range: TextRange)
    ensures
        ({
            let (t, e) = solver.spec_solve_super(SuperStyle::ExplicitArgs(Type::ClassDef(cls), Type::ClassType(obj)), range);
            match solver.spec_super_lookup_class(cls, obj) {
                Some(l) => t == Type::SuperInstance(l, SuperObj::Instance(obj)) && e.len() == 0,
                None => t == Type::Any(AnyStyle::Error) && e == seq![
                    TypeError {
                        kind: ErrorKind::InvalidSuperCall,
                        range,
                        msg: ErrorMsg::IllegalSuperCall(Type::ClassDef(cls), obj),
                    },
                ],
            }
        }),
        ({
            let (t, e) = solver.spec_solve_super(
                SuperStyle::ExplicitArgs(Type::ClassDef(cls), Type::TypeOf(Box::new(Type::ClassType(obj)))),
                range,
            );
            solver.spec_super_lookup_class(cls, obj) matches Some(l) ==> t == Type::SuperInstance(l, SuperObj::Class(obj))
        }),
{
}

} // verus!
