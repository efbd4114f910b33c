//! Diagnostics: what the solver reports, and the collector it reports them to.

use vstd::prelude::*;

verus! {

/// A span of the module's source text.
#[derive(Clone, Copy, PartialEq, Eq, Structural, Debug)]
pub struct TextRange {
    pub start: u32,
    pub end: u32,
}

/// The category of a diagnostic.
#[derive(Clone, Copy, PartialEq, Eq, Structural, Debug)]
pub enum ErrorKind {
    BadAssignment,
    BadClassDefinition,
    BadContextManager,
    BadMatch,
    BadRaise,
    BadReturn,
    BadTypedDictKey,
    BadUnpacking,
    Deprecated,
    ExplicitAny,
    ImplicitAbstractClass,
    ImplicitReexport,
    InternalError,
    InvalidAbstractMethod,
    InvalidAnnotation,
    InvalidArgument,
    InvalidInheritance,
    InvalidParamSpec,
    InvalidSelfType,
    InvalidSuperCall,
    InvalidTypeAlias,
    InvalidTypeCheckingConstant,
    InvalidTypeVar,
    InvalidTypeVarTuple,
    InvalidVariance,
    InvalidYield,
    MissingModuleAttribute,
    NoAccess,
    NoAnyReturnExplicit,
    NoAnyReturnImplicit,
    NotAType,
    NotAsync,
    NotIterable,
    Unreachable,
    ReadOnly,
    Redefinition,
    UnboundName,
    Unsupported,
    UnsupportedDelete,
    UntypedClassDecorator,
    UnusedCallResult,
    UnknownName,
    UnknownVariableType,
    UnusedCoroutine,
    VarianceMismatch,
}

/// A list of names (interned identifiers), in order.
#[derive(Debug, PartialEq)]
pub enum NameList {
    Nil,
    Cons(u64, Box<NameList>),
}

impl NameList {
    pub open spec fn seq(self) -> Seq<u64>
        decreases self,
    {
        match self {
            NameList::Nil => Seq::empty(),
            NameList::Cons(h, t) => seq![h] + t.seq(),
        }
    }

    /// The list holding the names of `s`, in order.
    pub open spec fn from_seq(s: Seq<u64>) -> NameList
        decreases s.len(),
    {
        if s.len() == 0 {
            NameList::Nil
        } else {
            NameList::Cons(s[0], Box::new(NameList::from_seq(s.drop_first())))
        }
    }

    pub proof fn lemma_from_seq(s: Seq<u64>)
        ensures
            NameList::from_seq(s).seq() == s,
        decreases s.len(),
    {
        if s.len() > 0 {
            NameList::lemma_from_seq(s.drop_first());
            assert(seq![s[0]] + s.drop_first() =~= s);
        }
    }

    pub proof fn lemma_seq_injective(a: NameList, b: NameList)
        requires
            a.seq() == b.seq(),
        ensures
            a == b,
        decreases a,
    {
        match (a, b) {
            (NameList::Cons(ha, ta), NameList::Cons(hb, tb)) => {
                assert(a.seq()[0] == ha);
                assert(b.seq()[0] == hb);
                assert(ta.seq() =~= a.seq().drop_first());
                assert(tb.seq() =~= b.seq().drop_first());
                NameList::lemma_seq_injective(*ta, *tb);
            },
            (NameList::Nil, NameList::Cons(_, _)) => {
                assert(b.seq().len() > 0);
            },
            (NameList::Cons(_, _), NameList::Nil) => {
                assert(a.seq().len() > 0);
            },
            _ => {},
        }
    }

    /// The list holding `s`'s names, built from a vector that holds them.
    pub fn from_names(v: &Vec<u64>) -> (r: NameList)
        ensures
            r == NameList::from_seq(v@),
    {
        let r = NameList::from_vec(v);
        proof {
            NameList::lemma_from_seq(v@);
            NameList::lemma_seq_injective(r, NameList::from_seq(v@));
        }
        r
    }

    /// The list holding the names of `v`, in order.
    pub fn from_vec(v: &Vec<u64>) -> (r: NameList)
        ensures
            r.seq() == v@,
    {
        let mut l = NameList::Nil;
        let mut i: usize = v.len();
        while i > 0
            invariant
                i <= v.len(),
                l.seq() == v@.skip(i as int),
            decreases i,
        {
            i -= 1;
            let ghost prev = l.seq();
            l = NameList::Cons(v[i], Box::new(l));
            assert(l.seq() =~= v@.skip(i as int));
        }
        assert(v@.skip(0) =~= v@);
        l
    }
}

/// What a diagnostic says, with the names and numbers that it mentions.
#[derive(Debug, PartialEq)]
pub enum ErrorMsg {
    // --- type forms ---
    /// `Unpack` with a `TypedDict` is only allowed in a **kwargs annotation
    UnpackTypedDictOutsideKwargs,
    /// `Unpack` in **kwargs annotation must be used only with a `TypedDict`
    KwargsUnpackNotTypedDict,
    /// `ParamSpec` **kwargs is only allowed in a **kwargs annotation
    KwargsOutsideKwargs,
    /// `ParamSpec` *args is only allowed in an *args annotation
    ArgsOutsideArgs,
    /// `Unpack` is not allowed in this context
    UnpackNotAllowed,
    /// `<type>` is not allowed in this context (a ParamSpec-like type)
    ParamSpecNotAllowed,
    /// `TypeVarTuple` must be unpacked
    TypeVarTupleMustBeUnpacked,
    /// `TypeVarTuple` is not allowed in this context
    TypeVarTupleNotAllowed,
    /// Expected a type argument for `<special form>`
    ExpectedTypeArgument(crate::types::SpecialForm),
    /// `<special form>` is not allowed in this context
    SpecialFormNotAllowed(crate::types::SpecialForm),
    /// Type variable bounds and constraints must be concrete
    ConstraintNotConcrete,
    /// NewType `<class>` is not a class and cannot be used with `type` or `Type`
    NewTypeInType(u64),
    /// `<name>` is an `IntVar` and cannot be used as an ordinary type
    IntVarAsType(u64),
    /// `<name>` must be an `IntVar` to be used in a dimension position
    NotAnIntVar(u64),
    /// Explicit `Any` is not allowed
    ExplicitAnyNotAllowed,
    /// Expected a type form, got instance of `<type>`
    ExpectedTypeForm(crate::types::Type),
    /// `Self` must appear within a class
    SelfOutsideClass,
    /// Could not resolve the class for `typing.Self`
    SelfClassUnresolved,
    /// `Self` cannot be used in a metaclass
    SelfInMetaclass,
    // --- iteration and unpacking ---
    /// Type `<type>` is not iterable
    NotIterable(crate::types::Type),
    /// Type `<type>` is not an async iterable
    NotAsyncIterable(crate::types::Type),
    /// Cannot unpack `<type>` (of size `<prefix + suffix>`+) into `<expectation>`
    UnpackVariadic(crate::types::Type, usize, usize, crate::iterable::SizeExpectation),
    /// Cannot unpack `<type>` (of unknown size) into `<expectation>`
    UnpackUnknownSize(crate::types::Type, crate::iterable::SizeExpectation),
    /// Cannot unpack `<type>` (of size `<len>`) into `<expectation>`
    UnpackFixed(crate::types::Type, usize, crate::iterable::SizeExpectation),
    /// `<name>` may be uninitialized
    MayBeUninitialized(u64),
    /// `<name>` cannot be annotated with `<new>`, it is already defined with type `<existing>`
    Redefinition(u64, crate::types::Type, crate::types::Type),
    /// `|` union syntax does not work with string literals
    ForwardRefUnion,
    /// `<name>` is not a valid type alias: `<problem>` cannot be used in annotations
    InvalidImplicitAlias(u64, u64),
    /// Expected `<name>` to be a type alias, got `<type>`
    ExpectedTypeAlias(u64, crate::types::Type),
    /// `<got>` (what iteration gives) is not assignable to `<want>`, the declared type of the
    /// iteration variable `<name>` (or `_`)
    IterationVariableMismatch(crate::types::Type, Option<u64>, crate::types::Type),
    /// `<got>` (the default or factory of an attrs field) is not assignable to the declared
    /// type `<want>`
    AttrsFieldValueMismatch(crate::types::Type, crate::types::Type),
    /// `<got>` (what unpacking gives) is not assignable to the declared type `<want>`
    UnpackedAssignMismatch(crate::types::Type, crate::types::Type),
    /// `<got>` is not assignable to the declared type `<want>`
    AnnAssignMismatch(crate::types::Type, crate::types::Type),
    /// `<got>` is not assignable to `<name>`, of type `<class type>`
    AnnotatedNameMismatch(crate::types::Type, u64, crate::types::Type),
    /// Cannot assign to `<target>` because it is marked final
    AssignToFinal(crate::type_alias::AnnotationTarget),
    /// A bare `yield` where a value of type `<type>` must be yielded
    UnexpectedBareYield(crate::types::Type),
    /// Invalid `yield` outside of a function
    YieldOutsideFunction,
    /// Invalid `yield from` in async function
    YieldFromInAsync,
    /// yield from value must be iterable, got `<type>`
    YieldFromNotIterable(crate::types::Type),
    /// `<got>` (what `yield from` delegates to) is not assignable to `<want>`
    YieldFromNotAssignable(crate::types::Type, crate::types::Type),
    /// Invalid `yield from` outside of a function
    YieldFromOutsideFunction,
    /// `__exit__` returns `<type>`, which is not assignable to `bool | None`
    ExitReturnNotOptionalBool(crate::types::Type),
    /// `<got>` (the value a `with` statement binds) is not assignable to the declared type
    /// `<want>`
    ContextValueMismatch(crate::types::Type, crate::types::Type),
    // --- exception handlers ---
    /// `except*` is unsupported until Python 3.11
    ExceptStarUnsupported,
    /// `<type>` (an exception handler's class) is not assignable to `BaseException`
    NotAnExceptionClass(crate::types::Type),
    /// Exception handler annotation in `except*` clause may not extend `BaseExceptionGroup`
    ExceptStarExtendsGroup,
    // --- expression statements ---
    /// `<kind>` must be assigned to a variable
    MustBeAssigned(crate::statements::SpecialExport),
    /// Result of async function call is unused. Did you forget to `await`?
    CoroutineUnused,
    /// Result of `await` is itself a coroutine that is silently discarded
    AwaitedCoroutineUnused,
    /// Result of call expression is of type `<type>` and is not used; assign to `_` if this
    /// is intentional
    CallResultUnused(crate::types::Type),
    /// Expression of type `<type>` is raised, expected `BaseException` (or `None`, where
    /// the flag says so)
    RaiseNotException(crate::types::Type, bool),
    /// Untyped class decorator may modify `<class>` in unexpected ways
    UntypedClassDecorator(u64),
    /// Final name must be initialized with a value
    FinalNotInitialized,
    /// Private attribute `<name>` cannot be accessed outside of its defining class
    PrivateAttributeAccess(u64),
    /// `<name>` is deprecated
    DeprecatedName(u64),
    /// `<name>` is not exported from module `<module>`
    NotReexported(u64, u64),
    /// `TypeForm[<type>]` (from a string literal) is not assignable to `<hint>`
    TypeFormMismatch(crate::types::Type, crate::types::Type),
    /// Could not import `<name>` from `<module>`
    CouldNotImport(u64, u64),
    /// Could not find name `<name>`, with the name suggested in its place, if any
    CouldNotFindName(u64, Option<u64>),
    /// The type of `<name>` is unknown; it is inferred as an implicit `Any`
    UnknownVariableType(u64),
    /// `<name>` must have type `bool`, got `<type>`
    TypeCheckingConstantNotBool(u64, crate::types::Type),
    // --- class patterns ---
    /// Expected literal string in `__match_args__`, got `<type>`
    MatchArgsNotLiteral(crate::types::Type),
    /// Index `<index>` out of range for `__match_args__`
    MatchArgsIndexOutOfRange(u64),
    /// Expected concrete tuple for `__match_args__`, got `<type>`
    MatchArgsNotTuple(crate::types::Type),
    // --- narrowing ---
    /// Type narrowing encountered a cycle in Type::Var
    NarrowingCycle,
    // --- context managers ---
    /// Expected `__aenter__` to be async
    AenterNotAsync,
    /// Expected `__aexit__` to be async
    AexitNotAsync,
    /// `__exit__` (or `__aexit__`, where async) must be callable with the argument types
    /// (type[BaseException], BaseException, TracebackType)
    ExitNotCallableWithException(bool),
    /// `__exit__` (or `__aexit__`, where async) must be callable with the argument types
    /// (None, None, None)
    ExitNotCallableWithNone(bool),
    /// Invalid target for `del`
    InvalidDelTarget,
    /// Key `<field>` in TypedDict `<typed dict>` may not be deleted
    KeyMayNotBeDeleted(u64, Option<u64>),
    /// Key `<field>` (or `extra_items`) in TypedDict `<typed dict>` is read-only
    TypedDictKeyReadOnly(u64, Option<u64>),
    /// `<got>` is not assignable to the type `<want>` of key `<field>` (or of the extra
    /// items) of a TypedDict
    TypedDictValueMismatch(crate::types::Type, Option<u64>, crate::types::Type),
    /// TypedDict `<typed dict>` does not have key `<field>`
    TypedDictMissingKey(u64, u64),
    /// Async generator function should return `AsyncGenerator`
    AsyncGeneratorShouldReturnAsyncGenerator,
    /// Generator function should return `Generator`
    GeneratorShouldReturnGenerator,
    /// The implicit return (`None`) is not assignable to the return type `<type>`
    ImplicitReturnNotAssignable(crate::types::Type),
    /// This `return` statement is unreachable
    UnreachableReturn,
    /// Return statement with value is not allowed in async generator
    AsyncGeneratorReturnValue,
    /// `None` is not assignable to the declared return type `<type>`
    BareReturnNotAssignable(crate::types::Type),
    /// Returning Any from function declared to return `<type>`
    ReturningAny(crate::types::Type),
    /// Returning implicit Any from function declared to return `<type>`
    ReturningImplicitAny(crate::types::Type),
    // --- type parameters ---
    /// Type parameter `<name>` without a default cannot follow type parameter `<previous>`
    /// with a default
    DefaultOrder(u64, u64),
    /// Default of type parameter `<name>` refers to out-of-scope type parameters `<names>`
    OutOfScopeDefault(u64, NameList),
    /// TypeVar `<name>` with a default cannot follow TypeVarTuple `<tvt>`
    TypeVarDefaultAfterTypeVarTuple(u64, u64),
    /// Type parameters for `<source>` may not have more than one TypeVarTuple
    MultipleTypeVarTuples(crate::tparams::TParamsSource),
    /// Expected default `<default>` of `<name>` to be assignable to the upper bound
    DefaultNotAssignableToBound(u64, crate::types::Type),
    /// Expected default `<default>` of `<name>` to be one of the constraints
    DefaultNotInConstraints(u64, crate::types::Type),
    /// Default for `ParamSpec` must be a parameter list, `...`, or another `ParamSpec`
    ParamSpecDefault(crate::types::Type),
    /// Default for `TypeVarTuple` must be an unpacked tuple form or another `TypeVarTuple`
    TypeVarTupleDefault(crate::types::Type),
    /// Default for `<kind>` may not be a `TypeVarTuple` or `ParamSpec`
    TypeVarDefaultKind(crate::types::QuantifiedKind, crate::types::Type),
    /// Expected at least 2 constraints in TypeVar `<name>`, got `<n>`
    TooFewConstraints(u64, usize),
    /// Type parameters used in `<alias>` but not declared
    UndeclaredTypeParams(u64),
    /// Found cyclic self-reference in `<alias>`
    CyclicSelfReference(u64),
    /// Type parameter `<name>` is not included in the type parameter list
    TypeParamNotInList(u64),
    /// Type parameter `<name>` shadows a type parameter of the same name from an enclosing
    /// scope
    TypeParamShadowsEnclosing(u64),
    /// Type variable `<name>` is not in scope
    TypeVarNotInScope(u64),
    /// Duplicate type variable `<name>`
    DuplicateTypeVariable(u64),
    /// Expected a type variable, got `<type>`
    ExpectedTypeVariable(crate::types::Type),
    /// Type variable `<name>` is out of scope for this `TypeAliasType`
    OutOfScopeTypeVariable(u64),
    // --- super ---
    /// Expected first argument to `super` to be a class object, got `<type>`
    SuperFirstArgument(crate::types::Type),
    /// Expected second argument to `super` to be a class object or instance, got `<type>`
    SuperSecondArgument(crate::types::Type),
    /// Illegal `super(<cls>, <obj>)` call: `<obj>` is not an instance or subclass of `<cls>`
    IllegalSuperCall(crate::types::Type, crate::types::ClassType),
    /// `super` call with no arguments is not valid inside a staticmethod
    SuperInStaticMethod,
    /// `super` call with no arguments is not allowed in a `NamedTuple` method
    SuperInNamedTuple,
    // --- annotations ---
    /// `<form>` is only allowed inside a class body
    OnlyInClassBody(crate::types::SpecialForm),
    /// `<form>` is only allowed inside a class body or class keyword
    OnlyInClassBodyOrKeyword(crate::types::SpecialForm),
    /// `<form>` is only allowed on a class or local variable annotation
    FinalOnlyOnVariable(crate::types::SpecialForm),
    /// `TypeAlias` is only allowed on variable annotations
    TypeAliasOnlyOnVariable,
    /// Expected a type argument for `<qualifier>`
    ExpectedQualifierArgument(crate::types::Qualifier),
    /// `Annotated` needs at least one piece of metadata in addition to the type
    AnnotatedNeedsMetadata,
    /// Expected 1 type argument for `<qualifier>`, got `<n>`
    ExpectedOneTypeArgument(crate::types::Qualifier, usize),
    /// `ClassVar` arguments may not contain any type variables
    ClassVarWithTypeVariable,
    /// `ClassVar` may not be nested inside `Final`
    ClassVarInFinal,
    /// Cannot combine `Required` and `NotRequired` for a TypedDict field
    RequiredAndNotRequired,
    /// Duplicate qualifier `<qualifier>`
    DuplicateQualifier(crate::types::Qualifier),
    /// `<problem>` cannot be used in annotations
    AnnotationSyntax(u64),
    /// `ProxyMethod` is only valid as a direct class member annotation
    ProxyMethodNotDirect,
    /// Cannot use scoped type alias `<name>` as a base class. Use a legacy type alias instead
    ScopedAliasAsBase(u64),
    // --- classes ---
    /// Final class `<class>` cannot have unimplemented abstract members: `<members>`
    FinalClassAbstractMembers(u64, NameList),
    /// Class `<class>` has unimplemented abstract members: `<members>`
    UnimplementedAbstractMembers(u64, NameList),
    /// `Self` is not allowed in a `TypedDict`
    SelfInTypedDict,
    /// `<class>.<field>` is decorated with `@abstractmethod` but `<class>` is not an abstract
    /// class
    AbstractMethodInConcreteClass(u64, u64),
    /// Type variable `<tparam>` in class `<class>` is declared as invariant, but could be
    /// `<variance>` based on its usage
    InvariantCouldBe(u64, u64, crate::solver::Variance),
}

/// A diagnostic at a place in the source.
#[derive(Debug, PartialEq)]
pub struct TypeError {
    pub kind: ErrorKind,
    pub range: TextRange,
    pub msg: ErrorMsg,
}

/// Collects the diagnostics reported while solving.
pub struct ErrorCollector {
    errors: Vec<TypeError>,
}

impl View for ErrorCollector {
    type V = Seq<TypeError>;

    closed spec fn view(&self) -> Seq<TypeError> {
        self.errors@
    }
}

impl ErrorCollector {
    pub fn new() -> (r: ErrorCollector)
        ensures
            r@ == Seq::<TypeError>::empty(),
    {
        ErrorCollector { errors: Vec::new() }
    }

    /// Reports one diagnostic.
    pub fn error(&mut self, kind: ErrorKind, range: TextRange, msg: ErrorMsg)
        ensures
            final(self)@ == old(self)@.push(TypeError { kind, range, msg }),
    {
        self.errors.push(TypeError { kind, range, msg });
    }

    /// Appends `more`, in order.
    pub fn extend(&mut self, more: Vec<TypeError>)
        ensures
            final(self)@ == old(self)@ + more@,
    {
        let mut more = more;
        self.errors.append(&mut more);
    }

    pub fn len(&self) -> (r: usize)
        ensures
            r == self@.len(),
    {
        self.errors.len()
    }

    pub fn is_empty(&self) -> (r: bool)
        ensures
            r == (self@.len() == 0),
    {
        self.errors.len() == 0
    }

    /// The diagnostics reported so far, in order.
    pub fn errors(&self) -> (r: &Vec<TypeError>)
        ensures
            r@ == self@,
    {
        &self.errors
    }
}

} // verus!
