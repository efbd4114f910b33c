//! Assignment to `obj[key]`: TypedDict keys are checked against their declared types; any
//! other object's `__setitem__` is called.

use vstd::prelude::*;
use crate::deletion::SubscriptKey;
use crate::errors::{ErrorCollector, ErrorKind, ErrorMsg, TextRange, TypeError};
use crate::solver::AnswersSolver;
use crate::types::{AnyStyle, Type};
use crate::union::{spec_unions, unions};
use crate::untype::one_error;

verus! {

/// A key of a TypedDict, with its declared type.
pub struct TypedDictFieldType {
    pub name: u64,
    pub ty: Type,
    pub read_only: bool,
}

/// A TypedDict, as assignments to its keys see it.
pub struct AssignTypedDict {
    pub name: u64,
    pub fields: Vec<TypedDictFieldType>,
    /// The type of its extra items, and whether they are read-only, where it allows them.
    pub extra_items: Option<(Type, bool)>,
    /// The value type it has when read as a `dict[str, V]`, where it can be.
    pub as_dict: Option<Type>,
}

/// A member of the type of the object in `obj[key] = value` (the type itself where it is
/// no union).
pub enum AssignBase {
    TypedDict(AssignTypedDict),
    /// Anything else, whose `__setitem__` is called.
    Other,
}

/// The value assigned.
pub enum AssignedValue {
    /// An expression, with its type and range.
    Expr { ty: Type, range: TextRange },
    /// The answer of another binding, with its type.
    Binding(Type),
}

impl AssignedValue {
    pub open spec fn ty(self) -> Type {
        match self {
            AssignedValue::Expr { ty, .. } => ty,
            AssignedValue::Binding(ty) => ty,
        }
    }
}

/// The declared type and read-only flag of the first key of `fields` named `name`.
pub open spec fn field_type_of(fields: Seq<TypedDictFieldType>, name: u64) -> Option<(Type, bool)>
    decreases fields.len(),
{
    if fields.len() == 0 {
        None
    } else if fields[0].name == name {
        Some((fields[0].ty, fields[0].read_only))
    } else {
        field_type_of(fields.drop_first(), name)
    }
}

/// Assigning `value` to a key (named `field`, or an extra item) of the TypedDict
/// `typed_dict` declared as `field_ty`: a read-only key is reported at the key, and gives
/// the error type; otherwise the value is checked against the declared type, which the
/// solver found it assignable to exactly when `assignable_to` holds that type. A value that
/// is not assignable is reported (at an expression value, or at the assignment for the
/// answer of a binding, which then gives the declared type).
pub open spec fn spec_assign_field(
    value: AssignedValue,
    assignable_to: Seq<Type>,
    typed_dict: u64,
    field: Option<u64>,
    field_ty: Type,
    read_only: bool,
    key_range: TextRange,
    assign_range: TextRange,
) -> (Type, Seq<TypeError>) {
    if read_only {
        (Type::any_error(), one_error(ErrorKind::ReadOnly, key_range, ErrorMsg::TypedDictKeyReadOnly(typed_dict, field)))
    } else {
        let fits = assignable_to.contains(field_ty);
        match value {
            AssignedValue::Expr { ty, range } => (
                ty,
                if fits {
                    Seq::empty()
                } else {
                    one_error(ErrorKind::BadTypedDictKey, range, ErrorMsg::TypedDictValueMismatch(ty, field, field_ty))
                },
            ),
            AssignedValue::Binding(ty) => if fits {
                (ty, Seq::empty())
            } else {
                (
                    field_ty,
                    one_error(ErrorKind::BadTypedDictKey, assign_range, ErrorMsg::TypedDictValueMismatch(ty, field, field_ty)),
                )
            },
        }
    }
}

/// Assigning to the key `name` of `td`, written as a literal: a declared key, else an extra
/// item, else an error for a key the TypedDict does not have.
pub open spec fn spec_assign_literal(
    td: AssignTypedDict,
    name: u64,
    value: AssignedValue,
    assignable_to: Seq<Type>,
    key_range: TextRange,
    assign_range: TextRange,
) -> (Type, Seq<TypeError>) {
    match field_type_of(td.fields@, name) {
        Some((t, ro)) => spec_assign_field(value, assignable_to, td.name, Some(name), t, ro, key_range, assign_range),
        None => match td.extra_items {
            Some((t, ro)) => spec_assign_field(value, assignable_to, td.name, Some(name), t, ro, key_range, assign_range),
            None => (Type::any_error(), one_error(ErrorKind::BadTypedDictKey, key_range, ErrorMsg::TypedDictMissingKey(td.name, name))),
        },
    }
}

/// Assigning through key member `k` to base member `b`: the type assigned, whether
/// `__setitem__` is to be called, and the errors.
pub open spec fn spec_assign_pair(
    b: AssignBase,
    k: SubscriptKey,
    value: AssignedValue,
    assignable_to: Seq<Type>,
    key_range: TextRange,
    assign_range: TextRange,
) -> (Type, bool, Seq<TypeError>) {
    match b {
        AssignBase::TypedDict(td) => match k {
            SubscriptKey::Literal(name) => {
                let (t, e) = spec_assign_literal(td, name, value, assignable_to, key_range, assign_range);
                (t, false, e)
            },
            SubscriptKey::Str => match td.as_dict {
                Some(vt) => {
                    let (t, e) = spec_assign_field(value, assignable_to, td.name, None, vt, false, key_range, assign_range);
                    (t, false, e)
                },
                None => (value.ty(), true, Seq::empty()),
            },
            SubscriptKey::Other => (value.ty(), true, Seq::empty()),
        },
        AssignBase::Other => (value.ty(), true, Seq::empty()),
    }
}

/// Assigning through each key member of `keys` to base member `b` (the `bi`-th): the types
/// assigned, the pairs whose `__setitem__` is to be called, and the errors, in order.
pub open spec fn spec_assign_row(
    b: AssignBase,
    bi: usize,
    keys: Seq<SubscriptKey>,
    value: AssignedValue,
    assignable_to: Seq<Type>,
    key_range: TextRange,
    assign_range: TextRange,
) -> (Seq<Type>, Seq<(usize, usize)>, Seq<TypeError>)
    decreases keys.len(),
{
    if keys.len() == 0 {
        (Seq::empty(), Seq::empty(), Seq::empty())
    } else {
        let n = keys.len() - 1;
        let (ts, calls, errors) = spec_assign_row(b, bi, keys.take(n), value, assignable_to, key_range, assign_range);
        let (t, call, e) = spec_assign_pair(b, keys[n], value, assignable_to, key_range, assign_range);
        (ts.push(t), if call { calls.push((bi, n as usize)) } else { calls }, errors + e)
    }
}

/// Assigning through every key member to every base member, base by base: the union, for
/// each base member, of the types assigned through its key members; the pairs whose
/// `__setitem__` is to be called; and the errors, in order.
pub open spec fn spec_assign_rows(
    bases: Seq<AssignBase>,
    keys: Seq<SubscriptKey>,
    value: AssignedValue,
    assignable_to: Seq<Type>,
    key_range: TextRange,
    assign_range: TextRange,
) -> (Seq<Type>, Seq<(usize, usize)>, Seq<TypeError>)
    decreases bases.len(),
{
    if bases.len() == 0 {
        (Seq::empty(), Seq::empty(), Seq::empty())
    } else {
        let n = bases.len() - 1;
        let (ts, calls, errors) = spec_assign_rows(bases.take(n), keys, value, assignable_to, key_range, assign_range);
        let (row, c, e) = spec_assign_row(bases[n], n as usize, keys, value, assignable_to, key_range, assign_range);
        (ts.push(spec_unions(row)), calls + c, errors + e)
    }
}

/// The type assigned by `obj[key] = value`: the union over the base members of the union
/// over the key members of the type assigned through each pair.
pub open spec fn spec_assign_to_subscript(
    bases: Seq<AssignBase>,
    keys: Seq<SubscriptKey>,
    value: AssignedValue,
    assignable_to: Seq<Type>,
    key_range: TextRange,
    assign_range: TextRange,
) -> (Type, Seq<(usize, usize)>, Seq<TypeError>) {
    let (ts, calls, errors) = spec_assign_rows(bases, keys, value, assignable_to, key_range, assign_range);
    (spec_unions(ts), calls, errors)
}

/// Whether `ts` holds `t`.
fn contains_type(ts: &Vec<Type>, t: &Type) -> (r: bool)
    ensures
        r == ts@.contains(*t),
{
    let mut i: usize = 0;
    while i < ts.len()
        invariant
            i <= ts@.len(),
            forall|k: int| 0 <= k < i ==> ts@[k] != *t,
        decreases ts.len() - i,
    {
        if ts[i].same_as(t) {
            assert(ts@[i as int] == *t);
            return true;
        }
        i += 1;
    }
    false
}

impl AnswersSolver {
    /// Assigns to a key of a TypedDict; see [`spec_assign_field`].
    pub fn check_assign_to_typed_dict_field(
        &self,
        typed_dict: u64,
        field_name: Option<u64>,
        field_ty: &Type,
        read_only: bool,
        value: &AssignedValue,
        assignable_to: &Vec<Type>,
        key_range: TextRange,
        assign_range: TextRange,
        errors: &mut ErrorCollector,
    ) -> (r: Type)
        ensures
            r == spec_assign_field(*value, assignable_to@, typed_dict, field_name, *field_ty, read_only, key_range, assign_range).0,
            final(errors)@ == old(errors)@ + spec_assign_field(
                *value,
                assignable_to@,
                typed_dict,
                field_name,
                *field_ty,
                read_only,
                key_range,
                assign_range,
            ).1,
    {
        if read_only {
            errors.error(ErrorKind::ReadOnly, key_range, ErrorMsg::TypedDictKeyReadOnly(typed_dict, field_name));
            return Type::Any(AnyStyle::Error);
        }
        let fits = contains_type(assignable_to, field_ty);
        match value {
            AssignedValue::Expr { ty, range } => {
                if !fits {
                    errors.error(ErrorKind::BadTypedDictKey, *range, ErrorMsg::TypedDictValueMismatch(ty.deep_clone(), field_name, field_ty.deep_clone()));
                } else {
                    assert(old(errors)@ + Seq::<TypeError>::empty() =~= old(errors)@);
                }
                ty.deep_clone()
            },
            AssignedValue::Binding(ty) => {
                if fits {
                    assert(old(errors)@ + Seq::<TypeError>::empty() =~= old(errors)@);
                    ty.deep_clone()
                } else {
                    errors.error(
                        ErrorKind::BadTypedDictKey,
                        assign_range,
                        ErrorMsg::TypedDictValueMismatch(ty.deep_clone(), field_name, field_ty.deep_clone()),
                    );
                    field_ty.deep_clone()
                }
            },
        }
    }

    /// Assigns to a key of a TypedDict written as a literal; see [`spec_assign_literal`].
    pub fn check_assign_to_typed_dict_literal_subscript(
        &self,
        td: &AssignTypedDict,
        name: u64,
        value: &AssignedValue,
        assignable_to: &Vec<Type>,
        key_range: TextRange,
        assign_range: TextRange,
        errors: &mut ErrorCollector,
    ) -> (r: Type)
        ensures
            r == spec_assign_literal(*td, name, *value, assignable_to@, key_range, assign_range).0,
            final(errors)@ == old(errors)@ + spec_assign_literal(*td, name, *value, assignable_to@, key_range, assign_range).1,
    {
        let fields = &td.fields;
        let mut i: usize = 0;
        assert(fields@.skip(0) =~= fields@);
        while i < fields.len()
            invariant
                i <= fields@.len(),
                fields@ == td.fields@,
                errors@ == old(errors)@,
                field_type_of(fields@, name) == field_type_of(fields@.skip(i as int), name),
            decreases fields.len() - i,
        {
            assert(fields@.skip(i as int).drop_first() =~= fields@.skip(i + 1));
            assert(fields@.skip(i as int)[0] == fields@[i as int]);
            if fields[i].name == name {
                return self.check_assign_to_typed_dict_field(
                    td.name,
                    Some(name),
                    &fields[i].ty,
                    fields[i].read_only,
                    value,
                    assignable_to,
                    key_range,
                    assign_range,
                    errors,
                );
            }
            i += 1;
        }
        match &td.extra_items {
            Some((t, ro)) => self.check_assign_to_typed_dict_field(
                td.name,
                Some(name),
                t,
                *ro,
                value,
                assignable_to,
                key_range,
                assign_range,
                errors,
            ),
            None => {
                errors.error(ErrorKind::BadTypedDictKey, key_range, ErrorMsg::TypedDictMissingKey(td.name, name));
                Type::Any(AnyStyle::Error)
            },
        }
    }

    /// Assigns through key member `k` to base member `b`; see [`spec_assign_pair`].
    fn assign_pair(
        &self,
        b: &AssignBase,
        k: SubscriptKey,
        value: &AssignedValue,
        assignable_to: &Vec<Type>,
        key_range: TextRange,
        assign_range: TextRange,
        errors: &mut ErrorCollector,
    ) -> (r: (Type, bool))
        ensures
            r.0 == spec_assign_pair(*b, k, *value, assignable_to@, key_range, assign_range).0,
            r.1 == spec_assign_pair(*b, k, *value, assignable_to@, key_range, assign_range).1,
            final(errors)@ == old(errors)@ + spec_assign_pair(*b, k, *value, assignable_to@, key_range, assign_range).2,
    {
        let value_ty = match value {
            AssignedValue::Expr { ty, .. } => ty.deep_clone(),
            AssignedValue::Binding(ty) => ty.deep_clone(),
        };
        match b {
            AssignBase::TypedDict(td) => match k {
                SubscriptKey::Literal(name) => {
                    let t = self.check_assign_to_typed_dict_literal_subscript(td, name, value, assignable_to, key_range, assign_range, errors);
                    (t, false)
                },
                SubscriptKey::Str => match &td.as_dict {
                    Some(vt) => {
                        let t = self.check_assign_to_typed_dict_field(td.name, None, vt, false, value, assignable_to, key_range, assign_range, errors);
                        (t, false)
                    },
                    None => {
                        assert(old(errors)@ + Seq::<TypeError>::empty() =~= old(errors)@);
                        (value_ty, true)
                    },
                },
                SubscriptKey::Other => {
                    assert(old(errors)@ + Seq::<TypeError>::empty() =~= old(errors)@);
                    (value_ty, true)
                },
            },
            AssignBase::Other => {
                assert(old(errors)@ + Seq::<TypeError>::empty() =~= old(errors)@);
                (value_ty, true)
            },
        }
    }

    /// Checks `obj[key] = value`, with the members of the object's type and of the key's
    /// type; returns the type assigned and the pairs (base member, key member) whose
    /// `__setitem__` is to be called. See [`spec_assign_to_subscript`].
    pub fn check_assign_to_subscript(
        &self,
        bases: &Vec<AssignBase>,
        keys: &Vec<SubscriptKey>,
        value: &AssignedValue,
        assignable_to: &Vec<Type>,
        key_range: TextRange,
        assign_range: TextRange,
        errors: &mut ErrorCollector,
    ) -> (r: (Type, Vec<(usize, usize)>))
        ensures
            r.0 == spec_assign_to_subscript(bases@, keys@, *value, assignable_to@, key_range, assign_range).0,
            r.1@ == spec_assign_to_subscript(bases@, keys@, *value, assignable_to@, key_range, assign_range).1,
            final(errors)@ == old(errors)@ + spec_assign_to_subscript(bases@, keys@, *value, assignable_to@, key_range, assign_range).2,
    {
        let mut row_types: Vec<Type> = Vec::new();
        let mut calls: Vec<(usize, usize)> = Vec::new();
        let mut bi: usize = 0;
        assert(old(errors)@ + Seq::<TypeError>::empty() =~= old(errors)@);
        while bi < bases.len()
            invariant
                bi <= bases@.len(),
                row_types@ == spec_assign_rows(bases@.take(bi as int), keys@, *value, assignable_to@, key_range, assign_range).0,
                calls@ == spec_assign_rows(bases@.take(bi as int), keys@, *value, assignable_to@, key_range, assign_range).1,
                errors@ == old(errors)@ + spec_assign_rows(bases@.take(bi as int), keys@, *value, assignable_to@, key_range, assign_range).2,
            decreases bases.len() - bi,
        {
            assert(bases@.take(bi + 1).take(bi as int) =~= bases@.take(bi as int));
            assert(bases@.take(bi + 1)[bi as int] == bases@[bi as int]);
            let ghost calls0 = calls@;
            let ghost errors0 = errors@;
            let mut row: Vec<Type> = Vec::new();
            let mut ki: usize = 0;
            while ki < keys.len()
                invariant
                    ki <= keys@.len(),
                    bi < bases@.len(),
                    row@ == spec_assign_row(bases@[bi as int], bi, keys@.take(ki as int), *value, assignable_to@, key_range, assign_range).0,
                    calls@ == calls0 + spec_assign_row(bases@[bi as int], bi, keys@.take(ki as int), *value, assignable_to@, key_range, assign_range).1,
                    errors@ == errors0 + spec_assign_row(bases@[bi as int], bi, keys@.take(ki as int), *value, assignable_to@, key_range, assign_range).2,
                decreases keys.len() - ki,
            {
                assert(keys@.take(ki + 1).take(ki as int) =~= keys@.take(ki as int));
                assert(keys@.take(ki + 1)[ki as int] == keys@[ki as int]);
                let (t, call) = self.assign_pair(&bases[bi], keys[ki], value, assignable_to, key_range, assign_range, errors);
                row.push(t);
                if call {
                    calls.push((bi, ki));
                }
                ki += 1;
                proof {
                    assert(row@ =~= spec_assign_row(bases@[bi as int], bi, keys@.take(ki as int), *value, assignable_to@, key_range, assign_range).0);
                    assert(calls@ =~= calls0 + spec_assign_row(bases@[bi as int], bi, keys@.take(ki as int), *value, assignable_to@, key_range, assign_range).1);
                    assert(errors@ =~= errors0 + spec_assign_row(bases@[bi as int], bi, keys@.take(ki as int), *value, assignable_to@, key_range, assign_range).2);
                }
            }
            assert(keys@.take(ki as int) =~= keys@);
            row_types.push(unions(row));
            bi += 1;
            proof {
                assert(row_types@ =~= spec_assign_rows(bases@.take(bi as int), keys@, *value, assignable_to@, key_range, assign_range).0);
                assert(calls@ =~= spec_assign_rows(bases@.take(bi as int), keys@, *value, assignable_to@, key_range, assign_range).1);
                assert(errors@ =~= old(errors)@ + spec_assign_rows(bases@.take(bi as int), keys@, *value, assignable_to@, key_range, assign_range).2);
            }
        }
        assert(bases@.take(bi as int) =~= bases@);
        (unions(row_types), calls)
    }
}

} // verus!
