//! The solver's view of the program: the classes it knows, the standard library's classes,
//! and the answers it has already computed for class keys.

use vstd::prelude::*;
use crate::errors::TextRange;
use crate::types::{ClassType, Quantified, QuantifiedIdentity, Type, TypeList};

verus! {

/// What is known of a class from its definition.
#[derive(Clone, Copy, PartialEq, Eq, Structural, Debug)]
pub struct ClassMetadata {
    pub is_protocol: bool,
    pub is_final: bool,
    pub is_new_type: bool,
    pub is_explicitly_abstract: bool,
    pub is_typed_dict: bool,
    pub extends_abc: bool,
    pub is_metaclass: bool,
    /// The class's metaclass.
    pub metaclass: u64,
    /// Whether the class is a named tuple.
    pub is_named_tuple: bool,
    /// Whether the class directly subclasses `NamedTuple`.
    pub directly_extends_named_tuple: bool,
}

impl ClassMetadata {
    /// The metadata of a class that nothing special is known of.
    pub open spec fn spec_plain(metaclass: u64) -> ClassMetadata {
        ClassMetadata {
            is_protocol: false,
            is_final: false,
            is_new_type: false,
            is_explicitly_abstract: false,
            is_typed_dict: false,
            extends_abc: false,
            is_metaclass: false,
            metaclass,
            is_named_tuple: false,
            directly_extends_named_tuple: false,
        }
    }

    pub fn plain(metaclass: u64) -> (r: ClassMetadata)
        ensures
            r == ClassMetadata::spec_plain(metaclass),
    {
        ClassMetadata {
            is_protocol: false,
            is_final: false,
            is_new_type: false,
            is_explicitly_abstract: false,
            is_typed_dict: false,
            extends_abc: false,
            is_metaclass: false,
            metaclass,
            is_named_tuple: false,
            directly_extends_named_tuple: false,
        }
    }
}

/// The classes of the standard library that the solver refers to by name.
#[derive(Clone, Copy, PartialEq, Eq, Structural, Debug)]
pub struct Stdlib {
    pub object: u64,
    pub builtins_type: u64,
    pub int: u64,
    pub bool: u64,
    pub str: u64,
    pub bytes: u64,
    pub none_type: u64,
    pub tuple: u64,
    pub dict: u64,
    pub list: u64,
    /// `dataclasses.InitVar`
    pub init_var: u64,
    /// The `builtins` module.
    pub builtins_module: u64,
    /// `shape_extensions.IntTuple`
    pub shape_int_tuple: u64,
    /// `shape_extensions.Int`
    pub shape_int: u64,
    /// `typing.Generator`
    pub generator: u64,
    /// `typing.AsyncGenerator`
    pub async_generator: u64,
    /// `shape_extensions.ProxyMethod`
    pub proxy_method: u64,
    /// `typing.Coroutine`
    pub coroutine: u64,
    /// `BaseException`
    pub base_exception: u64,
    /// `BaseExceptionGroup`, where the Python version has it
    pub base_exception_group: Option<u64>,
    /// `ExceptionGroup`, where the Python version has it
    pub exception_group: Option<u64>,
}

/// The variance a type parameter was declared with.
#[derive(Clone, Copy, PartialEq, Eq, Structural, Debug)]
pub enum PreInferenceVariance {
    Covariant,
    Contravariant,
    Invariant,
    Undefined,
}

/// The variance of a type parameter, as inferred from its uses.
#[derive(Clone, Copy, PartialEq, Eq, Structural, Debug)]
pub enum Variance {
    Covariant,
    Contravariant,
    Invariant,
    Bivariant,
}

/// A type parameter of a class: its name, whether it is a TypeVar, the variance it was
/// declared with, and the variance its uses in the class imply.
#[derive(Clone, Copy, PartialEq, Eq, Structural, Debug)]
pub struct ClassTParam {
    pub name: u64,
    /// The parameter as bound in the class body.
    pub quantified: Quantified,
    pub is_type_var: bool,
    pub variance: PreInferenceVariance,
    pub inferred: Variance,
}

/// A field of a class (declared in it or inherited).
#[derive(Debug, PartialEq)]
pub struct ClassField {
    pub name: u64,
    pub ty: Type,
    pub is_abstract: bool,
    /// Where the field is declared, for a field declared in the class itself.
    pub decl_range: Option<TextRange>,
}

/// A class the solver knows.
pub struct ClassInfo {
    pub name: u64,
    /// The module that defines the class.
    pub module: u64,
    /// Where the class is defined.
    pub range: TextRange,
    pub metadata: ClassMetadata,
    /// The ancestors, nearest first, not including the class itself.
    pub mro: Vec<ClassType>,
    /// The base classes, as written.
    pub bases: Vec<ClassType>,
    /// The fields that the class itself declares (not those it inherits).
    pub fields: Vec<ClassField>,
    /// The abstract members that neither the class nor its ancestors implement.
    pub unimplemented_abstract: Vec<u64>,
    pub tparams: Vec<ClassTParam>,
    /// The type that iterating over an instance yields, if the class is iterable.
    pub iter_item: Option<Type>,
    /// What calling `__getitem__` on an instance with an `int` gives, where the class has
    /// that method (the older iteration protocol, for a class that is not iterable).
    pub getitem_item: Option<Type>,
    /// For a class whose instances are tuples of a fixed length (such as a named tuple),
    /// the types of their elements.
    pub tuple_elements: Option<Vec<Type>>,
    /// Whether the class is a named tuple that defines its own `__iter__`.
    pub iter_override: bool,
    /// The type that `async for` over an instance yields, if the class is async iterable.
    pub async_iter_item: Option<Type>,
    /// The type arguments of the class's metaclass (see [`ClassMetadata::metaclass`]).
    pub metaclass_targs: TypeList,
    /// The disjoint base of the class, if it has one.
    pub disjoint_base: Option<u64>,
    /// The fields that each synthesizer makes for the class.
    pub synthesized: Synthesizers,
}

/// The fields that each synthesizer makes for a class, where it makes any.
pub struct Synthesizers {
    /// For a `torch.nn` module, from its registrations.
    pub nn_module: Option<Vec<SynthesizedField>>,
    pub typed_dict: Option<Vec<SynthesizedField>>,
    pub dataclass: Option<Vec<SynthesizedField>>,
    pub named_tuple: Option<Vec<SynthesizedField>>,
    pub new_type: Option<Vec<SynthesizedField>>,
    pub total_ordering: Option<Vec<SynthesizedField>>,
    pub django_enum: Option<Vec<SynthesizedField>>,
    pub django_model: Option<Vec<SynthesizedField>>,
    pub factory_boy: Option<Vec<SynthesizedField>>,
}

impl Synthesizers {
    /// A class that no synthesizer makes fields for.
    pub fn none() -> (r: Synthesizers)
        ensures
            r.nn_module is None && r.typed_dict is None && r.dataclass is None && r.named_tuple is None
                && r.new_type is None && r.total_ordering is None && r.django_enum is None
                && r.django_model is None && r.factory_boy is None,
    {
        Synthesizers {
            nn_module: None,
            typed_dict: None,
            dataclass: None,
            named_tuple: None,
            new_type: None,
            total_ordering: None,
            django_enum: None,
            django_model: None,
            factory_boy: None,
        }
    }
}

/// A field that a class gets from what it is (a dataclass, a named tuple, ...) rather than
/// from its body.
pub struct SynthesizedField {
    pub name: u64,
    pub ty: Type,
}

/// The solver, with what it knows of the module it checks.
pub struct AnswersSolver {
    /// The module being checked.
    pub module: u64,
    pub stdlib: Stdlib,
    /// The known classes; a class's identifier is its index here.
    pub classes: Vec<ClassInfo>,
    /// The answers for class keys: the class defined there, or `None` while it is being
    /// solved (a recursive reference).
    pub class_answers: Vec<Option<u64>>,
    /// Whether the module is a stub (`.pyi`) file.
    pub is_interface: bool,
    /// The class bodies of the module, each with the class key of its class, an enclosing
    /// body listed before the bodies nested in it.
    pub class_scopes: Vec<ClassScope>,
    /// The module's type aliases, by index, as solved so far.
    pub type_aliases: Vec<crate::alias::TypeAlias>,
    /// The upper bounds of the bound type parameters that have one, by identity: the bound,
    /// or the union of the constraints.
    pub upper_bounds: Vec<(QuantifiedIdentity, Type)>,
}

/// The type that the first entry of `bounds` for `id` records, if there is one.
pub open spec fn bound_lookup(bounds: Seq<(QuantifiedIdentity, Type)>, id: QuantifiedIdentity) -> Option<Type>
    decreases bounds.len(),
{
    if bounds.len() == 0 {
        None
    } else if bounds[0].0 == id {
        Some(bounds[0].1)
    } else {
        bound_lookup(bounds.drop_first(), id)
    }
}

proof fn lemma_bound_lookup_skip(bounds: Seq<(QuantifiedIdentity, Type)>, id: QuantifiedIdentity, i: int)
    requires
        0 <= i <= bounds.len(),
        forall|k: int| 0 <= k < i ==> (#[trigger] bounds[k]).0 != id,
    ensures
        bound_lookup(bounds, id) == bound_lookup(bounds.skip(i), id),
    decreases i,
{
    if i > 0 {
        let d = bounds.drop_first();
        assert forall|k: int| 0 <= k < i - 1 implies (#[trigger] d[k]).0 != id by {
            assert(d[k] == bounds[k + 1]);
        }
        lemma_bound_lookup_skip(d, id, i - 1);
        assert(d.skip(i - 1) =~= bounds.skip(i));
    } else {
        assert(bounds.skip(0) =~= bounds);
    }
}

/// The body of a class definition: its place in the source, and the key of its class.
#[derive(Clone, Copy, PartialEq, Eq, Structural, Debug)]
pub struct ClassScope {
    pub range: TextRange,
    pub class_key: usize,
}

impl AnswersSolver {
    /// The metadata of class `cls`; a class the solver does not know has plain metadata
    /// with `type` as its metaclass.
    pub open spec fn metadata(self, cls: u64) -> ClassMetadata {
        if cls < self.classes@.len() {
            self.classes@[cls as int].metadata
        } else {
            ClassMetadata::spec_plain(self.stdlib.builtins_type)
        }
    }

    /// The ancestors of `cls` in method resolution order; none for a class the solver does
    /// not know.
    pub open spec fn mro(self, cls: u64) -> Seq<ClassType> {
        if cls < self.classes@.len() {
            self.classes@[cls as int].mro@
        } else {
            Seq::empty()
        }
    }

    /// The upper bound of the type parameter `q`: what `upper_bounds` records for it, and
    /// `object` for a parameter with neither a bound nor constraints.
    pub open spec fn upper_bound(self, q: Quantified) -> Type {
        match bound_lookup(self.upper_bounds@, q.identity) {
            Some(b) => b,
            None => Type::ClassType(ClassType { class: self.stdlib.object, targs: TypeList::Nil }),
        }
    }

    pub fn quantified_upper_bound(&self, q: &Quantified) -> (r: Type)
        ensures
            r == self.upper_bound(*q),
    {
        let mut i: usize = 0;
        while i < self.upper_bounds.len()
            invariant
                i <= self.upper_bounds@.len(),
                forall|k: int| 0 <= k < i ==> (#[trigger] self.upper_bounds@[k]).0 != q.identity,
            decreases self.upper_bounds.len() - i,
        {
            if self.upper_bounds[i].0 == q.identity {
                proof {
                    lemma_bound_lookup_skip(self.upper_bounds@, q.identity, i as int);
                    assert(self.upper_bounds@.skip(i as int)[0] == self.upper_bounds@[i as int]);
                }
                return self.upper_bounds[i].1.deep_clone();
            }
            i += 1;
        }
        proof {
            lemma_bound_lookup_skip(self.upper_bounds@, q.identity, i as int);
        }
        Type::ClassType(ClassType { class: self.stdlib.object, targs: TypeList::Nil })
    }

    /// Whether class `cls` declares a field named `name` (a class the solver does not know
    /// declares none).
    pub open spec fn declares_field(self, cls: u64, name: u64) -> bool {
        cls < self.classes@.len() && exists|i: int|
            0 <= i < self.classes@[cls as int].fields@.len() && (#[trigger] self.classes@[cls as int].fields@[i]).name == name
    }

    pub fn class_declares_field(&self, cls: u64, name: u64) -> (r: bool)
        ensures
            r == self.declares_field(cls, name),
    {
        if cls >= self.classes.len() as u64 {
            return false;
        }
        let fields = &self.classes[cls as usize].fields;
        let mut i: usize = 0;
        while i < fields.len()
            invariant
                i <= fields@.len(),
                cls < self.classes@.len(),
                fields@ == self.classes@[cls as int].fields@,
                forall|k: int| 0 <= k < i ==> (#[trigger] fields@[k]).name != name,
            decreases fields.len() - i,
        {
            if fields[i].name == name {
                assert(self.classes@[cls as int].fields@[i as int].name == name);
                return true;
            }
            i += 1;
        }
        false
    }

    /// Whether `cls` is defined in the `builtins` module.
    pub open spec fn is_builtin_class(self, cls: u64) -> bool {
        cls < self.classes@.len() && self.classes@[cls as int].module == self.stdlib.builtins_module
    }

    pub fn class_is_builtin(&self, cls: u64) -> (r: bool)
        ensures
            r == self.is_builtin_class(cls),
    {
        cls < self.classes.len() as u64 && self.classes[cls as usize].module == self.stdlib.builtins_module
    }

    /// The type that iterating over an instance of `cls` yields, if it is iterable.
    pub open spec fn iter_item(self, cls: u64) -> Option<Type> {
        if cls < self.classes@.len() {
            self.classes@[cls as int].iter_item
        } else {
            None
        }
    }

    /// The metaclass of `cls`, with its type arguments (`type` for a class the solver does
    /// not know).
    pub open spec fn metaclass_type(self, cls: u64) -> ClassType {
        if cls < self.classes@.len() {
            ClassType { class: self.classes@[cls as int].metadata.metaclass, targs: self.classes@[cls as int].metaclass_targs }
        } else {
            ClassType { class: self.stdlib.builtins_type, targs: TypeList::Nil }
        }
    }

    pub fn class_metaclass_type(&self, cls: u64) -> (r: ClassType)
        ensures
            r == self.metaclass_type(cls),
    {
        if cls < self.classes.len() as u64 {
            let info = &self.classes[cls as usize];
            ClassType { class: info.metadata.metaclass, targs: info.metaclass_targs.deep_clone() }
        } else {
            ClassType { class: self.stdlib.builtins_type, targs: TypeList::Nil }
        }
    }

    /// What calling `__getitem__` with an `int` on an instance of `cls` gives, if it can be.
    pub open spec fn getitem_item(self, cls: u64) -> Option<Type> {
        if cls < self.classes@.len() {
            self.classes@[cls as int].getitem_item
        } else {
            None
        }
    }

    pub fn class_getitem_item(&self, cls: u64) -> (r: Option<Type>)
        ensures
            r == self.getitem_item(cls),
    {
        if cls < self.classes.len() as u64 {
            match &self.classes[cls as usize].getitem_item {
                Some(t) => Some(t.deep_clone()),
                None => None,
            }
        } else {
            None
        }
    }

    /// The type that `async for` over an instance of `cls` yields, if it is async iterable.
    pub open spec fn async_iter_item(self, cls: u64) -> Option<Type> {
        if cls < self.classes@.len() {
            self.classes@[cls as int].async_iter_item
        } else {
            None
        }
    }

    pub fn class_async_iter_item(&self, cls: u64) -> (r: Option<Type>)
        ensures
            r == self.async_iter_item(cls),
    {
        if cls < self.classes.len() as u64 {
            match &self.classes[cls as usize].async_iter_item {
                Some(t) => Some(t.deep_clone()),
                None => None,
            }
        } else {
            None
        }
    }

    /// The element types of the instances of `cls`, where they are tuples of a fixed length.
    pub open spec fn tuple_elements(self, cls: u64) -> Option<Seq<Type>> {
        if cls < self.classes@.len() {
            match self.classes@[cls as int].tuple_elements {
                Some(v) => Some(v@),
                None => None,
            }
        } else {
            None
        }
    }

    pub fn class_tuple_elements(&self, cls: u64) -> (r: Option<Vec<Type>>)
        ensures
            match r {
                Some(v) => self.tuple_elements(cls) == Some(v@),
                None => self.tuple_elements(cls) is None,
            },
    {
        if cls < self.classes.len() as u64 {
            match &self.classes[cls as usize].tuple_elements {
                Some(v) => Some(crate::type_ops::clone_types(v)),
                None => None,
            }
        } else {
            None
        }
    }

    /// The element types of the instances of `cls`, where they are tuples of a fixed
    /// length that iterate as such (the class does not define its own `__iter__`).
    pub open spec fn fixed_tuple_elements(self, cls: u64) -> Option<Seq<Type>> {
        if cls < self.classes@.len() && !self.classes@[cls as int].iter_override {
            match self.classes@[cls as int].tuple_elements {
                Some(v) => Some(v@),
                None => None,
            }
        } else {
            None
        }
    }

    pub fn class_fixed_tuple_elements(&self, cls: u64) -> (r: Option<Vec<Type>>)
        ensures
            match r {
                Some(v) => self.fixed_tuple_elements(cls) == Some(v@),
                None => self.fixed_tuple_elements(cls) is None,
            },
    {
        if cls < self.classes.len() as u64 && !self.classes[cls as usize].iter_override {
            match &self.classes[cls as usize].tuple_elements {
                Some(v) => Some(crate::type_ops::clone_types(v)),
                None => None,
            }
        } else {
            None
        }
    }

    pub fn class_iter_item(&self, cls: u64) -> (r: Option<Type>)
        ensures
            r == self.iter_item(cls),
    {
        if cls < self.classes.len() as u64 {
            match &self.classes[cls as usize].iter_item {
                Some(t) => Some(t.deep_clone()),
                None => None,
            }
        } else {
            None
        }
    }

    pub fn get_metadata_for_class(&self, cls: u64) -> (r: ClassMetadata)
        ensures
            r == self.metadata(cls),
    {
        if cls < self.classes.len() as u64 {
            self.classes[cls as usize].metadata
        } else {
            ClassMetadata::plain(self.stdlib.builtins_type)
        }
    }
}

} // verus!
