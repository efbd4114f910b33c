//! The per-class answers that are looked up or put together from what is known of a class:
//! its disjoint base, its fields, and its synthesized fields.

use vstd::prelude::*;
use crate::classes::BindingClassKey;
use crate::errors::{ErrorCollector, TextRange};
use crate::solver::{AnswersSolver, ClassField, SynthesizedField, Synthesizers};
use crate::types::{AnyStyle, Type};

verus! {

broadcast use vstd::std_specs::vec::axiom_vec_index_decreases;

/// The disjoint base of a class, if it has one.
pub struct ClassDisjointBase {
    pub base: Option<u64>,
}

/// A field of a class to solve: the class's key, the field's name, and where it is defined.
pub struct BindingClassField {
    pub class_idx: usize,
    pub name: u64,
    pub range: TextRange,
}

/// The fields a class gets from what it is, as name and type, in order of first
/// synthesis.
pub struct ClassSynthesizedFields {
    pub fields: Vec<(u64, Type)>,
}

/// The field that stands in for `name` while its class is being solved: of implicit `Any`
/// type, and declared nowhere.
pub open spec fn recursive_field(name: u64) -> ClassField {
    ClassField { name, ty: Type::Any(AnyStyle::Implicit), is_abstract: false, decl_range: None }
}

/// The first field of `fields` named `name`.
pub open spec fn field_named(fields: Seq<ClassField>, name: u64) -> Option<ClassField>
    decreases fields.len(),
{
    if fields.len() == 0 {
        None
    } else if fields[0].name == name {
        Some(fields[0])
    } else {
        field_named(fields.drop_first(), name)
    }
}

/// `acc` with `(name, ty)` put in: a field of that name takes the new type in its place,
/// otherwise the field goes at the end.
pub open spec fn put_field(acc: Seq<(u64, Type)>, name: u64, ty: Type) -> Seq<(u64, Type)> {
    if exists|i: int| 0 <= i < acc.len() && acc[i].0 == name {
        let i = choose|i: int| 0 <= i < acc.len() && acc[i].0 == name;
        acc.update(i, (name, ty))
    } else {
        acc.push((name, ty))
    }
}

/// `acc` with each field of `group` put in, in order.
pub open spec fn combine(acc: Seq<(u64, Type)>, group: Seq<SynthesizedField>) -> Seq<(u64, Type)>
    decreases group.len(),
{
    if group.len() == 0 {
        acc
    } else {
        put_field(combine(acc, group.drop_last()), group.last().name, group.last().ty)
    }
}

/// `acc` with the fields of a synthesizer put in, where it makes any.
pub open spec fn combine_opt(acc: Seq<(u64, Type)>, group: Option<Vec<SynthesizedField>>) -> Seq<(u64, Type)> {
    match group {
        Some(g) => combine(acc, g@),
        None => acc,
    }
}

/// The fields of the synthesizers, combined in this order: `torch.nn` modules (only where
/// the class has module registrations), TypedDicts, dataclasses, named tuples, NewTypes,
/// `total_ordering`, Django enums, Django models, factory_boy factories. A later field of a
/// name already there takes its place.
pub open spec fn combine_synthesizers(s: Synthesizers, nn_module_registrations: bool) -> Seq<(u64, Type)> {
    let a0 = if nn_module_registrations { combine_opt(Seq::empty(), s.nn_module) } else { Seq::empty() };
    let a1 = combine_opt(a0, s.typed_dict);
    let a2 = combine_opt(a1, s.dataclass);
    let a3 = combine_opt(a2, s.named_tuple);
    let a4 = combine_opt(a3, s.new_type);
    let a5 = combine_opt(a4, s.total_ordering);
    let a6 = combine_opt(a5, s.django_enum);
    let a7 = combine_opt(a6, s.django_model);
    combine_opt(a7, s.factory_boy)
}

/// Puts the fields of a synthesizer into `acc`; see [`combine_opt`].
fn combine_group(acc: &mut Vec<(u64, Type)>, group: &Option<Vec<SynthesizedField>>)
    requires
        names_distinct(old(acc)@),
    ensures
        final(acc)@ == combine_opt(old(acc)@, *group),
        names_distinct(final(acc)@),
{
    if let Some(group) = group {
        let ghost start = acc@;
        let mut k: usize = 0;
        while k < group.len()
            invariant
                k <= group@.len(),
                acc@ == combine(start, group@.take(k as int)),
                names_distinct(acc@),
            decreases group.len() - k,
        {
            assert(group@.take(k + 1).drop_last() =~= group@.take(k as int));
            put_field_into(acc, group[k].name, group[k].ty.deep_clone());
            k += 1;
        }
        assert(group@.take(k as int) =~= group@);
    }
}

/// The class whose synthesized fields are asked for, and whether it has `torch.nn` module
/// registrations.
pub struct BindingClassSynthesizedFields {
    pub class_idx: usize,
    pub nn_module_registrations: bool,
}

/// At most one field of each name.
pub open spec fn names_distinct(acc: Seq<(u64, Type)>) -> bool {
    forall|i: int, j: int| 0 <= i < j < acc.len() ==> acc[i].0 != acc[j].0
}

/// Puts `(name, ty)` into `acc`; see [`put_field`].
fn put_field_into(acc: &mut Vec<(u64, Type)>, name: u64, ty: Type)
    requires
        names_distinct(old(acc)@),
    ensures
        final(acc)@ == put_field(old(acc)@, name, ty),
        names_distinct(final(acc)@),
{
    let mut i: usize = 0;
    while i < acc.len()
        invariant
            i <= acc@.len(),
            acc@ == old(acc)@,
            names_distinct(old(acc)@),
            forall|k: int| 0 <= k < i ==> acc@[k].0 != name,
        decreases acc.len() - i,
    {
        if acc[i].0 == name {
            proof {
                let j = choose|j: int| 0 <= j < acc@.len() && acc@[j].0 == name;
                assert(j == i as int) by {
                    if j < i {
                    } else if j > i {
                        assert(acc@[i as int].0 != acc@[j].0);
                    }
                }
            }
            acc.set(i, (name, ty));
            return;
        }
        i += 1;
    }
    acc.push((name, ty));
}

impl AnswersSolver {
    /// The synthesized fields of the class at `class_idx`; none while it is being solved.
    pub open spec fn spec_synthesized_fields(self, class_idx: usize, nn_module_registrations: bool) -> Seq<(u64, Type)> {
        match self.class_answer(class_idx) {
            Some(cls) => if cls < self.classes@.len() {
                combine_synthesizers(self.classes@[cls as int].synthesized, nn_module_registrations)
            } else {
                Seq::empty()
            },
            None => Seq::empty(),
        }
    }

    /// The disjoint base of the class at `binding`; none while it is being solved.
    pub fn solve_class_disjoint_base(&self, binding: &BindingClassKey, errors: &mut ErrorCollector) -> (r: ClassDisjointBase)
        ensures
            r.base == match self.class_answer(binding.class_idx) {
                Some(cls) => if cls < self.classes@.len() {
                    self.classes@[cls as int].disjoint_base
                } else {
                    None
                },
                None => None,
            },
            final(errors)@ == old(errors)@,
    {
        match self.get_class_answer(binding.class_idx) {
            Some(cls) => {
                if cls < self.classes.len() as u64 {
                    ClassDisjointBase { base: self.classes[cls as usize].disjoint_base }
                } else {
                    ClassDisjointBase { base: None }
                }
            },
            None => ClassDisjointBase { base: None },
        }
    }

    /// The field `binding.name` of its class: the class's field of that name, or the
    /// stand-in of [`recursive_field`] while the class is being solved (or when the class has
    /// no such field).
    pub fn solve_class_field(&self, binding: &BindingClassField, errors: &mut ErrorCollector) -> (r: ClassField)
        ensures
            r == match self.class_answer(binding.class_idx) {
                Some(cls) => if cls < self.classes@.len() {
                    match field_named(self.classes@[cls as int].fields@, binding.name) {
                        Some(f) => f,
                        None => recursive_field(binding.name),
                    }
                } else {
                    recursive_field(binding.name)
                },
                None => recursive_field(binding.name),
            },
            final(errors)@ == old(errors)@,
    {
        let placeholder = ClassField { name: binding.name, ty: Type::Any(AnyStyle::Implicit), is_abstract: false, decl_range: None };
        match self.get_class_answer(binding.class_idx) {
            Some(cls) => {
                if cls < self.classes.len() as u64 {
                    let fields = &self.classes[cls as usize].fields;
                    let mut i: usize = 0;
                    assert(fields@.skip(0) =~= fields@);
                    while i < fields.len()
                        invariant
                            i <= fields@.len(),
                            cls < self.classes@.len(),
                            self.class_answer(binding.class_idx) == Some(cls),
                            fields@ == self.classes@[cls as int].fields@,
                            field_named(fields@, binding.name) == field_named(fields@.skip(i as int), binding.name),
                        decreases fields.len() - i,
                    {
                        assert(fields@.skip(i as int).drop_first() =~= fields@.skip(i + 1));
                        if fields[i].name == binding.name {
                            assert(fields@.skip(i as int)[0] == fields@[i as int]);
                            assert(field_named(fields@, binding.name) == Some(fields@[i as int]));
                            let f = &fields[i];
                            let r = ClassField { name: f.name, ty: f.ty.deep_clone(), is_abstract: f.is_abstract, decl_range: f.decl_range };
                            assert(r == fields@[i as int]);
                            return r;
                        }
                        i += 1;
                    }
                    placeholder
                } else {
                    placeholder
                }
            },
            None => placeholder,
        }
    }

    /// The synthesized fields of the class at `binding`: the fields of each synthesizer, in
    /// the order of [`combine_synthesizers`], a later field taking the place of an earlier
    /// one of the same name.
    pub fn solve_class_synthesized_fields(&self, errors: &mut ErrorCollector, binding: &BindingClassSynthesizedFields) -> (r: ClassSynthesizedFields)
        ensures
            r.fields@ == self.spec_synthesized_fields(binding.class_idx, binding.nn_module_registrations),
            names_distinct(r.fields@),
            final(errors)@ == old(errors)@,
    {
        let mut acc: Vec<(u64, Type)> = Vec::new();
        if let Some(cls) = self.get_class_answer(binding.class_idx) {
            if cls < self.classes.len() as u64 {
                let syn = &self.classes[cls as usize].synthesized;
                if binding.nn_module_registrations {
                    combine_group(&mut acc, &syn.nn_module);
                }
                combine_group(&mut acc, &syn.typed_dict);
                combine_group(&mut acc, &syn.dataclass);
                combine_group(&mut acc, &syn.named_tuple);
                combine_group(&mut acc, &syn.new_type);
                combine_group(&mut acc, &syn.total_ordering);
                combine_group(&mut acc, &syn.django_enum);
                combine_group(&mut acc, &syn.django_model);
                combine_group(&mut acc, &syn.factory_boy);
            }
        }
        ClassSynthesizedFields { fields: acc }
    }
}

} // verus!
