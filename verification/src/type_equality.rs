use crate::type_resolution::InstancedType;
use crate::types::{
    entry_names, lemma_entries_domain, lemma_entries_last, types_model, Type, TypeMap,
};
use std::rc::Rc;
use vstd::prelude::*;
use vstd::std_specs::cmp::PartialEqSpecImpl;

verus! {

/// Whether two lists of types have the same model.
#[verifier::rlimit(50)]
pub fn type_lists_equal(a: &Vec<Rc<Type>>, b: &Vec<Rc<Type>>) -> (r: bool)
    ensures
        r == (types_model(a@) == types_model(b@)),
    decreases a, 0int,
{
    if a.len() != b.len() {
        proof {
            assert(types_model(a@).len() != types_model(b@).len());
        }
        return false;
    }
    let mut i: usize = 0;
    while i < a.len()
        invariant
            i <= a@.len(),
            a@.len() == b@.len(),
            forall|j: int| 0 <= j < i ==> (#[trigger] a@[j])@ == b@[j]@,
        decreases a@.len() - i,
    {
        if !types_equal(&a[i], &b[i]) {
            proof {
                assert(types_model(a@)[i as int] != types_model(b@)[i as int]);
            }
            return false;
        }
        i = i + 1;
    }
    proof {
        assert(types_model(a@) =~= types_model(b@));
    }
    true
}

/// Whether two optional lists of types have the same model.
pub fn opt_type_lists_equal(a: &Option<Vec<Rc<Type>>>, b: &Option<Vec<Rc<Type>>>) -> (r: bool)
    ensures
        r == (crate::types::opt_types_model(*a) == crate::types::opt_types_model(*b)),
    decreases a, 1int,
{
    match (a, b) {
        (Some(x), Some(y)) => type_lists_equal(x, y),
        (None, None) => true,
        _ => false,
    }
}

/// Whether every name of `a` is bound in `b` to a type with the same model.
#[verifier::rlimit(50)]
fn bindings_within(a: &TypeMap, b: &TypeMap) -> (r: bool)
    ensures
        r == (forall|k: Seq<char>| #[trigger]
            a@.contains_key(k) ==> b@.contains_key(k) && a@[k] == b@[k]),
    decreases a, 0int,
{
    let mut i: usize = 0;
    while i < a.entries.len()
        invariant
            i <= a.entries@.len(),
            forall|j: int|
                0 <= j < i ==> b@.contains_key((#[trigger] a.entries@[j]).0@) && a@[a.entries@[j].0@]
                    == b@[a.entries@[j].0@],
        decreases a.entries@.len() - i,
    {
        let key = &a.entries[i].0;
        let last = match a.position(key) {
            Some(j) => j,
            None => {
                proof {
                    assert(a.entries@[i as int].0@ == key@);
                }
                unreached()
            },
        };
        proof {
            lemma_entries_last(a.entries@, last as int, key@);
        }
        let same = match b.get(key.as_str()) {
            Some(other) => types_equal(&a.entries[last].1, other),
            None => false,
        };
        if !same {
            proof {
                assert(a@.contains_key(key@));
            }
            return false;
        }
        i = i + 1;
    }
    proof {
        lemma_entries_domain(a.entries@);
        assert forall|k: Seq<char>| a@.contains_key(k) implies b@.contains_key(k) && a@[k]
            == b@[k] by {
            let names = entry_names(a.entries@);
            assert(names.to_set().contains(k));
            let j = choose|j: int| 0 <= j < names.len() && names[j] == k;
            assert(a.entries@[j].0@ == k);
        }
    }
    true
}

/// Whether every name of `a` is a name of `b`.
#[verifier::rlimit(50)]
fn names_within(a: &TypeMap, b: &TypeMap) -> (r: bool)
    ensures
        r == (forall|k: Seq<char>| #[trigger] a@.contains_key(k) ==> b@.contains_key(k)),
{
    let mut i: usize = 0;
    while i < a.entries.len()
        invariant
            i <= a.entries@.len(),
            forall|j: int| 0 <= j < i ==> b@.contains_key((#[trigger] a.entries@[j]).0@),
        decreases a.entries@.len() - i,
    {
        if !b.contains_key(a.entries[i].0.as_str()) {
            proof {
                lemma_entries_domain(a.entries@);
                let names = entry_names(a.entries@);
                assert(names[i as int] == a.entries@[i as int].0@);
                assert(names.to_set().contains(a.entries@[i as int].0@));
                assert(a@.contains_key(a.entries@[i as int].0@));
                assert(!b@.contains_key(a.entries@[i as int].0@));
            }
            return false;
        }
        i = i + 1;
    }
    proof {
        lemma_entries_domain(a.entries@);
        assert forall|k: Seq<char>| a@.contains_key(k) implies b@.contains_key(k) by {
            let names = entry_names(a.entries@);
            assert(names.to_set().contains(k));
            let j = choose|j: int| 0 <= j < names.len() && names[j] == k;
            assert(a.entries@[j].0@ == k);
        }
    }
    true
}

/// Whether two tables bind the same names to types with the same models,
/// in whatever order their entries stand.
#[verifier::rlimit(50)]
pub fn type_maps_equal(a: &TypeMap, b: &TypeMap) -> (r: bool)
    ensures
        r == (a@ == b@),
    decreases a, 1int,
{
    if !bindings_within(a, b) {
        return false;
    }
    let r = names_within(b, a);
    proof {
        if r {
            assert forall|k: Seq<char>| a@.dom().contains(k) == b@.dom().contains(k) by {
                if a@.contains_key(k) {
                    assert(b@.contains_key(k));
                }
                if b@.contains_key(k) {
                    assert(a@.contains_key(k));
                }
            }
            assert(a@.dom() =~= b@.dom());
            assert forall|k: Seq<char>| a@.dom().contains(k) implies a@[k] == b@[k] by {
                assert(a@.contains_key(k));
            }
            assert(a@ =~= b@);
        }
    }
    r
}

/// Whether two types have the same model: equality by structure, not by identity.
#[verifier::rlimit(50)]
pub fn types_equal(a: &Type, b: &Type) -> (r: bool)
    ensures
        r == (a@ == b@),
    decreases a, 2int,
{
    match (a, b) {
        (Type::ArrayType(x), Type::ArrayType(y)) => x.arity == y.arity && types_equal(
            &x.ref_type,
            &y.ref_type,
        ),
        (Type::RefType(x), Type::RefType(y)) => x.name == y.name && opt_type_lists_equal(
            &x.generic_params,
            &y.generic_params,
        ),
        (Type::MethodType(x), Type::MethodType(y)) => type_lists_equal(&x.overloads, &y.overloads),
        (Type::MethodOverloadType(x), Type::MethodOverloadType(y)) => type_lists_equal(
            &x.params,
            &y.params,
        ) && opt_type_lists_equal(&x.generic_types, &y.generic_types) && (match (
            &x.return_type,
            &y.return_type,
        ) {
            (Some(s), Some(t)) => types_equal(s, t),
            (None, None) => true,
            _ => false,
        }),
        (Type::MethodParamType(x), Type::MethodParamType(y)) => x.is_variadic == y.is_variadic
            && types_equal(&x.ref_type, &y.ref_type),
        (Type::GenericType(x), Type::GenericType(y)) => x.name == y.name,
        (Type::ObjectType(x), Type::ObjectType(y)) => x.name == y.name && opt_type_lists_equal(
            &x.inherits,
            &y.inherits,
        ) && opt_type_lists_equal(&x.generic_params, &y.generic_params) && type_maps_equal(
            &x.body,
            &y.body,
        ),
        (Type::FieldType(x), Type::FieldType(y)) => x.is_static == y.is_static && types_equal(
            &x.identifier_type,
            &y.identifier_type,
        ),
        (Type::ProgramType(x), Type::ProgramType(y)) => type_maps_equal(&x.types, &y.types),
        _ => false,
    }
}

impl PartialEq for Type {
    fn eq(&self, other: &Type) -> (r: bool) {
        types_equal(self, other)
    }
}

impl PartialEqSpecImpl for Type {
    open spec fn obeys_eq_spec() -> bool {
        true
    }

    open spec fn eq_spec(&self, other: &Type) -> bool {
        self@ == other@
    }
}

impl PartialEq for TypeMap {
    fn eq(&self, other: &TypeMap) -> (r: bool) {
        type_maps_equal(self, other)
    }
}

impl PartialEqSpecImpl for TypeMap {
    open spec fn obeys_eq_spec() -> bool {
        true
    }

    open spec fn eq_spec(&self, other: &TypeMap) -> bool {
        self@ == other@
    }
}

impl PartialEq for InstancedType {
    fn eq(&self, other: &InstancedType) -> (r: bool) {
        let r = types_equal(&self.source, &other.source) && type_lists_equal(
            &self.generic_args,
            &other.generic_args,
        );
        r
    }
}

impl PartialEqSpecImpl for InstancedType {
    open spec fn obeys_eq_spec() -> bool {
        true
    }

    open spec fn eq_spec(&self, other: &InstancedType) -> bool {
        self@ == other@
    }
}

} // verus!
