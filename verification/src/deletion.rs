//! `del` on the keys of a TypedDict: which keys may be deleted.

use vstd::prelude::*;
use crate::errors::{ErrorCollector, ErrorKind, ErrorMsg, TextRange, TypeError};
use crate::solver::AnswersSolver;
use crate::untype::one_error;

verus! {

/// A field of a TypedDict: its name, and whether it is read-only and required.
#[derive(Clone, Copy, PartialEq, Eq, Structural, Debug)]
pub struct TypedDictField {
    pub name: u64,
    pub read_only: bool,
    pub required: bool,
}

/// A TypedDict: its name, its fields, and, when it allows extra items, whether they are
/// read-only.
pub struct TypedDictInfo {
    pub name: u64,
    pub fields: Vec<TypedDictField>,
    pub extra_items: Option<bool>,
}

/// The field of `fields` named `name`, the first if there are several.
pub open spec fn field_of(fields: Seq<TypedDictField>, name: u64) -> Option<TypedDictField>
    decreases fields.len(),
{
    if fields.len() == 0 {
        None
    } else if fields[0].name == name {
        Some(fields[0])
    } else {
        field_of(fields.drop_first(), name)
    }
}

/// The error for deleting at `range` a key (named `field`, if known) of the TypedDict
/// `typed_dict` that is read-only or required.
pub open spec fn spec_del_field_errors(typed_dict: u64, field: Option<u64>, read_only: bool, required: bool, range: TextRange) -> Seq<TypeError> {
    if read_only || required {
        one_error(ErrorKind::UnsupportedDelete, range, ErrorMsg::KeyMayNotBeDeleted(typed_dict, field))
    } else {
        Seq::empty()
    }
}

/// The errors for `del td[key]` with a literal `key`: a field is checked as above, an extra
/// item as a key that is not required; a key the TypedDict does not have is reported.
pub open spec fn spec_del_literal_key_errors(td: TypedDictInfo, key: u64, range: TextRange) -> Seq<TypeError> {
    match field_of(td.fields@, key) {
        Some(f) => spec_del_field_errors(td.name, Some(key), f.read_only, f.required, range),
        None => match td.extra_items {
            Some(read_only) => spec_del_field_errors(td.name, Some(key), read_only, false, range),
            None => one_error(ErrorKind::BadTypedDictKey, range, ErrorMsg::TypedDictMissingKey(td.name, key)),
        },
    }
}

impl AnswersSolver {
    /// Reports deleting a read-only or required key; see [`spec_del_field_errors`].
    pub fn check_del_typed_dict_field(
        &self,
        typed_dict: u64,
        field_name: Option<u64>,
        read_only: bool,
        required: bool,
        range: TextRange,
        errors: &mut ErrorCollector,
    )
        ensures
            final(errors)@ == old(errors)@ + spec_del_field_errors(typed_dict, field_name, read_only, required, range),
    {
        if read_only || required {
            errors.error(ErrorKind::UnsupportedDelete, range, ErrorMsg::KeyMayNotBeDeleted(typed_dict, field_name));
        } else {
            assert(old(errors)@ + Seq::<TypeError>::empty() =~= old(errors)@);
        }
    }

    /// Reports what is wrong with `del td[key]` for a literal `key`; see
    /// [`spec_del_literal_key_errors`].
    pub fn check_del_typed_dict_literal_key(&self, typed_dict: &TypedDictInfo, field_name: u64, range: TextRange, errors: &mut ErrorCollector)
        ensures
            final(errors)@ == old(errors)@ + spec_del_literal_key_errors(*typed_dict, field_name, range),
    {
        let fields = &typed_dict.fields;
        let mut i: usize = 0;
        assert(fields@.skip(0) =~= fields@);
        while i < fields.len()
            invariant
                i <= fields@.len(),
                fields@ == typed_dict.fields@,
                errors@ == old(errors)@,
                field_of(fields@, field_name) == field_of(fields@.skip(i as int), field_name),
            decreases fields.len() - i,
        {
            assert(fields@.skip(i as int).drop_first() =~= fields@.skip(i + 1));
            assert(fields@.skip(i as int)[0] == fields@[i as int]);
            if fields[i].name == field_name {
                let f = fields[i];
                self.check_del_typed_dict_field(typed_dict.name, Some(field_name), f.read_only, f.required, range, errors);
                return;
            }
            i += 1;
        }
        match typed_dict.extra_items {
            Some(read_only) => self.check_del_typed_dict_field(typed_dict.name, Some(field_name), read_only, false, range, errors),
            None => {
                errors.error(ErrorKind::BadTypedDictKey, range, ErrorMsg::TypedDictMissingKey(typed_dict.name, field_name));
            },
        }
    }
}

/// A member of the type of the object in `del obj[key]` (the type itself where it is no
/// union).
pub enum DelBase {
    /// A TypedDict, and whether it can be read as a `dict[str, V]` for keys that are only
    /// known to be strings.
    TypedDict { info: TypedDictInfo, as_dict: bool },
    /// Anything else, whose `__delitem__` is called.
    Other,
}

/// A member of the type of the key in `obj[key]`.
#[derive(Clone, Copy, PartialEq, Eq, Structural, Debug)]
pub enum SubscriptKey {
    /// A string literal naming a key.
    Literal(u64),
    /// A key the solver found assignable to `str`, not a literal.
    Str,
    /// Anything else.
    Other,
}

/// The target of a `del` statement.
pub enum DelTarget {
    /// A name.
    Name,
    /// An attribute (checked by the attribute machinery).
    Attribute,
    /// `obj[key]`: the members of the object's type and of the key's type, in order; the key
    /// at `key_range`.
    Subscript { bases: Vec<DelBase>, keys: Vec<SubscriptKey>, key_range: TextRange },
    /// Anything else, at `range`.
    Other { range: TextRange },
}

/// Deleting the key `k` from the member `b`: whether `__delitem__` is to be called, and the
/// errors. A TypedDict checks a literal key against its fields, and takes a string key
/// where it reads as a dict; anything else calls `__delitem__`.
pub open spec fn spec_del_pair(b: DelBase, k: SubscriptKey, key_range: TextRange) -> (bool, Seq<TypeError>) {
    match b {
        DelBase::TypedDict { info, as_dict } => match k {
            SubscriptKey::Literal(name) => (false, spec_del_literal_key_errors(info, name, key_range)),
            SubscriptKey::Str => if as_dict {
                (false, spec_del_field_errors(info.name, None, false, false, key_range))
            } else {
                (true, Seq::empty())
            },
            SubscriptKey::Other => (true, Seq::empty()),
        },
        DelBase::Other => (true, Seq::empty()),
    }
}

/// The pairs (base member `bi`, key member) of `keys` whose `__delitem__` is to be called,
/// and the errors, in order.
pub open spec fn spec_del_row(b: DelBase, bi: usize, keys: Seq<SubscriptKey>, key_range: TextRange) -> (Seq<(usize, usize)>, Seq<TypeError>)
    decreases keys.len(),
{
    if keys.len() == 0 {
        (Seq::empty(), Seq::empty())
    } else {
        let n = keys.len() - 1;
        let (calls, errors) = spec_del_row(b, bi, keys.take(n), key_range);
        let (call, e) = spec_del_pair(b, keys[n], key_range);
        (if call { calls.push((bi, n as usize)) } else { calls }, errors + e)
    }
}

/// The pairs of base and key members whose `__delitem__` is to be called, and the errors,
/// in order: each base member with each key member.
pub open spec fn spec_del_rows(bases: Seq<DelBase>, keys: Seq<SubscriptKey>, key_range: TextRange) -> (Seq<(usize, usize)>, Seq<TypeError>)
    decreases bases.len(),
{
    if bases.len() == 0 {
        (Seq::empty(), Seq::empty())
    } else {
        let n = bases.len() - 1;
        let (calls, errors) = spec_del_rows(bases.take(n), keys, key_range);
        let (c, e) = spec_del_row(bases[n], n as usize, keys, key_range);
        (calls + c, errors + e)
    }
}

/// What a `del` statement does beyond evaluating its target: for `obj[key]`, the pairs of
/// members whose `__delitem__` is to be called, and the errors of the others; a target that
/// cannot be deleted is reported.
pub open spec fn spec_del_statement(target: DelTarget) -> (Seq<(usize, usize)>, Seq<TypeError>) {
    match target {
        DelTarget::Name | DelTarget::Attribute => (Seq::empty(), Seq::empty()),
        DelTarget::Subscript { bases, keys, key_range } => spec_del_rows(bases@, keys@, key_range),
        DelTarget::Other { range } => (Seq::empty(), one_error(ErrorKind::UnsupportedDelete, range, ErrorMsg::InvalidDelTarget)),
    }
}

impl AnswersSolver {
    /// Deletes key `k` from member `b`; see [`spec_del_pair`].
    fn del_pair(&self, b: &DelBase, k: SubscriptKey, key_range: TextRange, errors: &mut ErrorCollector) -> (r: bool)
        ensures
            r == spec_del_pair(*b, k, key_range).0,
            final(errors)@ == old(errors)@ + spec_del_pair(*b, k, key_range).1,
    {
        match b {
            DelBase::TypedDict { info, as_dict } => match k {
                SubscriptKey::Literal(name) => {
                    self.check_del_typed_dict_literal_key(info, name, key_range, errors);
                    false
                },
                SubscriptKey::Str => if *as_dict {
                    self.check_del_typed_dict_field(info.name, None, false, false, key_range, errors);
                    false
                } else {
                    assert(old(errors)@ + Seq::<TypeError>::empty() =~= old(errors)@);
                    true
                },
                SubscriptKey::Other => {
                    assert(old(errors)@ + Seq::<TypeError>::empty() =~= old(errors)@);
                    true
                },
            },
            DelBase::Other => {
                assert(old(errors)@ + Seq::<TypeError>::empty() =~= old(errors)@);
                true
            },
        }
    }

    /// Checks a `del` statement's target; returns the pairs (base member, key member) whose
    /// `__delitem__` is to be called. See [`spec_del_statement`].
    pub fn check_del_statement(&self, target: &DelTarget, errors: &mut ErrorCollector) -> (r: Vec<(usize, usize)>)
        ensures
            r@ == spec_del_statement(*target).0,
            final(errors)@ == old(errors)@ + spec_del_statement(*target).1,
    {
        match target {
            DelTarget::Name | DelTarget::Attribute => {
                assert(old(errors)@ + Seq::<TypeError>::empty() =~= old(errors)@);
                Vec::new()
            },
            DelTarget::Other { range } => {
                errors.error(ErrorKind::UnsupportedDelete, *range, ErrorMsg::InvalidDelTarget);
                Vec::new()
            },
            DelTarget::Subscript { bases, keys, key_range } => {
                let mut calls: Vec<(usize, usize)> = Vec::new();
                let mut bi: usize = 0;
                assert(old(errors)@ + Seq::<TypeError>::empty() =~= old(errors)@);
                while bi < bases.len()
                    invariant
                        bi <= bases@.len(),
                        calls@ == spec_del_rows(bases@.take(bi as int), keys@, *key_range).0,
                        errors@ == old(errors)@ + spec_del_rows(bases@.take(bi as int), keys@, *key_range).1,
                    decreases bases.len() - bi,
                {
                    assert(bases@.take(bi + 1).take(bi as int) =~= bases@.take(bi as int));
                    assert(bases@.take(bi + 1)[bi as int] == bases@[bi as int]);
                    let ghost calls0 = calls@;
                    let ghost errors0 = errors@;
                    let mut ki: usize = 0;
                    while ki < keys.len()
                        invariant
                            ki <= keys@.len(),
                            bi < bases@.len(),
                            calls@ == calls0 + spec_del_row(bases@[bi as int], bi, keys@.take(ki as int), *key_range).0,
                            errors@ == errors0 + spec_del_row(bases@[bi as int], bi, keys@.take(ki as int), *key_range).1,
                        decreases keys.len() - ki,
                    {
                        assert(keys@.take(ki + 1).take(ki as int) =~= keys@.take(ki as int));
                        assert(keys@.take(ki + 1)[ki as int] == keys@[ki as int]);
                        let call = self.del_pair(&bases[bi], keys[ki], *key_range, errors);
                        if call {
                            calls.push((bi, ki));
                        }
                        ki += 1;
                        proof {
                            assert(calls@ =~= calls0 + spec_del_row(bases@[bi as int], bi, keys@.take(ki as int), *key_range).0);
                            assert(errors@ =~= errors0 + spec_del_row(bases@[bi as int], bi, keys@.take(ki as int), *key_range).1);
                        }
                    }
                    assert(keys@.take(ki as int) =~= keys@);
                    bi += 1;
                    proof {
                        assert(calls@ =~= spec_del_rows(bases@.take(bi as int), keys@, *key_range).0);
                        assert(errors@ =~= old(errors)@ + spec_del_rows(bases@.take(bi as int), keys@, *key_range).1);
                    }
                }
                assert(bases@.take(bi as int) =~= bases@);
                calls
            },
        }
    }
}

} // verus!
