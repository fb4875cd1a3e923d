use crate::types::{ProgramType, TypeModel};
use vstd::prelude::*;

verus! {

/// A table from names to names, kept as a list of entries. Its model is the
/// map in which, of two entries with one name, the later one counts.
#[derive(Debug)]
pub struct NameMap {
    pub entries: Vec<(String, String)>,
}

/// The map that a list of entries stands for.
pub open spec fn names_model(s: Seq<(String, String)>) -> Map<Seq<char>, Seq<char>>
    decreases s.len(),
{
    if s.len() == 0 {
        Map::empty()
    } else {
        names_model(s.drop_last()).insert(s.last().0@, s.last().1@)
    }
}

/// No entry after position `i` of `s` has the name `k`.
pub open spec fn unnamed_after(s: Seq<(String, String)>, i: int, k: Seq<char>) -> bool {
    forall|j: int| i < j < s.len() ==> (#[trigger] s[j]).0@ != k
}

/// A name that no entry has is not in the map.
pub proof fn lemma_names_absent(s: Seq<(String, String)>, k: Seq<char>)
    requires
        unnamed_after(s, -1, k),
    ensures
        !names_model(s).contains_key(k),
    decreases s.len(),
{
    if s.len() > 0 {
        let t = s.drop_last();
        assert(s[s.len() - 1].0@ != k);
        assert forall|j: int| -1 < j < t.len() implies (#[trigger] t[j]).0@ != k by {
            assert(t[j] == s[j]);
        }
        lemma_names_absent(t, k);
    }
}

/// The last entry with a name decides what the map holds for it.
pub proof fn lemma_names_last(s: Seq<(String, String)>, i: int, k: Seq<char>)
    requires
        0 <= i < s.len(),
        s[i].0@ == k,
        unnamed_after(s, i, k),
    ensures
        names_model(s).contains_key(k),
        names_model(s)[k] == s[i].1@,
    decreases s.len(),
{
    if i < s.len() - 1 {
        let t = s.drop_last();
        assert(s[s.len() - 1].0@ != k);
        assert(t[i] == s[i]);
        assert forall|j: int| i < j < t.len() implies (#[trigger] t[j]).0@ != k by {
            assert(t[j] == s[j]);
        }
        lemma_names_last(t, i, k);
    }
}

impl View for NameMap {
    type V = Map<Seq<char>, Seq<char>>;

    open spec fn view(&self) -> Map<Seq<char>, Seq<char>> {
        names_model(self.entries@)
    }
}

impl NameMap {
    /// The empty table.
    pub fn new() -> (r: NameMap)
        ensures
            r@ == Map::<Seq<char>, Seq<char>>::empty(),
            r.entries@.len() == 0,
    {
        NameMap { entries: Vec::new() }
    }

    /// The table with the entries of `entries`, a later entry counting for
    /// more than an earlier one of the same name.
    pub fn from_entries(entries: Vec<(String, String)>) -> (r: NameMap)
        ensures
            r.entries == entries,
    {
        NameMap { entries }
    }

    /// The name bound to `key`, if the table has that name.
    pub fn get(&self, key: &str) -> (r: Option<&String>)
        ensures
            match r {
                Some(name) => self@.contains_key(key@) && name@ == self@[key@],
                None => !self@.contains_key(key@),
            },
    {
        let owned = key.to_owned();
        let mut i: usize = self.entries.len();
        while i > 0
            invariant
                i <= self.entries@.len(),
                owned@ == key@,
                unnamed_after(self.entries@, i as int - 1, key@),
            decreases i,
        {
            i = i - 1;
            if self.entries[i].0 == owned {
                proof {
                    lemma_names_last(self.entries@, i as int, key@);
                }
                return Some(&self.entries[i].1);
            }
        }
        proof {
            lemma_names_absent(self.entries@, key@);
        }
        None
    }
}

/// A scope of generic names inside a type program: what its names stand
/// for, and the scope around it.
#[derive(Debug)]
pub struct Scope<'program_type> {
    type_program: &'program_type ProgramType,
    generic_types: NameMap,
    parent: Option<Box<Scope<'program_type>>>,
}

/// Model of a scope: the program it belongs to, what its names stand for,
/// how many entries it has, and the scope around it.
pub ghost struct ScopeModel {
    pub program: TypeModel,
    pub generic_types: Map<Seq<char>, Seq<char>>,
    pub size: nat,
    pub parent: Option<Box<ScopeModel>>,
}

/// The outermost scope around a scope.
pub open spec fn global_of(scope: ScopeModel) -> ScopeModel
    decreases scope,
{
    match scope.parent {
        Some(p) => global_of(*p),
        None => scope,
    }
}

/// What `name` stands for in `scope`, if that is found with at most `fuel`
/// steps from name to name inside the scope. A name that the scope binds
/// stands for what the bound name stands for; any other name stands for
/// what it stands for in the scope around, and for itself where there is
/// none around. Every scope around starts with as many steps as it has
/// entries.
pub open spec fn resolved_in(scope: ScopeModel, name: Seq<char>, fuel: nat) -> Option<Seq<char>>
    decreases scope, fuel,
{
    if scope.generic_types.contains_key(name) {
        if fuel == 0 {
            None
        } else {
            resolved_in(scope, scope.generic_types[name], (fuel - 1) as nat)
        }
    } else {
        match scope.parent {
            Some(p) => resolved_in(*p, name, p.size),
            None => Some(name),
        }
    }
}

/// What `name` stands for in `scope`, if no scope needs more steps from
/// name to name than it has entries: that is so wherever no name stands
/// for itself, directly or by way of other names.
pub open spec fn resolved_name(scope: ScopeModel, name: Seq<char>) -> Option<Seq<char>> {
    resolved_in(scope, name, scope.size)
}

impl<'program_type> Scope<'program_type> {
    /// The model of the scope.
    pub closed spec fn model(self) -> ScopeModel
        decreases self,
    {
        ScopeModel {
            program: crate::types::type_model(crate::types::Type::ProgramType(*self.type_program)),
            generic_types: self.generic_types@,
            size: self.generic_types.entries@.len(),
            parent: match self.parent {
                Some(p) => Some(Box::new(p.model())),
                None => None,
            },
        }
    }

    fn new(
        type_program: &'program_type ProgramType,
        generic_types: NameMap,
        parent: Option<Box<Scope<'program_type>>>,
    ) -> (r: Scope<'program_type>)
        ensures
            r.model() == (ScopeModel {
                program: type_program@,
                generic_types: generic_types@,
                size: generic_types.entries@.len(),
                parent: match parent {
                    Some(p) => Some(Box::new(p.model())),
                    None => None,
                },
            }),
    {
        Scope { type_program, generic_types, parent }
    }

    /// The outermost scope of a program: it binds no name.
    pub fn from_program(type_program: &'program_type ProgramType) -> (r: Scope<'program_type>)
        ensures
            r.model() == (ScopeModel {
                program: type_program@,
                generic_types: Map::empty(),
                size: 0,
                parent: None,
            }),
    {
        Self::new(type_program, NameMap::new(), None)
    }

    /// The scope inside `self` that binds the names of `types`.
    pub fn push(self, types: NameMap) -> (r: Scope<'program_type>)
        ensures
            r.model() == (ScopeModel {
                program: self.model().program,
                generic_types: types@,
                size: types.entries@.len(),
                parent: Some(Box::new(self.model())),
            }),
    {
        Self::new(self.type_program, types, Some(Box::new(self)))
    }

    /// The outermost scope around `self`.
    pub fn to_global(self) -> (r: Scope<'program_type>)
        ensures
            r.model() == global_of(self.model()),
        decreases self,
    {
        match self.parent {
            Some(val) => (*val).to_global(),
            None => self,
        }
    }

    /// The outermost scope around `self`.
    pub fn to_global_ref(&self) -> (r: &Scope<'program_type>)
        ensures
            r.model() == global_of(self.model()),
        decreases self,
    {
        match &self.parent {
            Some(val) => val.to_global_ref(),
            None => self,
        }
    }

    /// What `name` stands for, or nothing if a scope needs more steps from
    /// name to name than it has entries, as it does where a name stands for
    /// itself by way of the names it is bound to.
    pub fn try_resolve_generic_name(&self, name: &str) -> (r: Option<String>)
        ensures
            match r {
                Some(found) => resolved_name(self.model(), name@) == Some(found@),
                None => resolved_name(self.model(), name@) is None,
            },
    {
        self.resolve_with_fuel(name, self.generic_types.entries.len())
    }

    fn resolve_with_fuel(&self, name: &str, fuel: usize) -> (r: Option<String>)
        ensures
            match r {
                Some(found) => resolved_in(self.model(), name@, fuel as nat) == Some(found@),
                None => resolved_in(self.model(), name@, fuel as nat) is None,
            },
        decreases self, fuel,
    {
        match self.generic_types.get(name) {
            Some(val) => {
                if fuel == 0 {
                    None
                } else {
                    self.resolve_with_fuel(val.as_str(), fuel - 1)
                }
            },
            None => match &self.parent {
                Some(x) => x.resolve_with_fuel(name, x.generic_types.entries.len()),
                None => Some(name.to_owned()),
            },
        }
    }

    /// What `name` stands for.
    pub fn resolve_generic_name(&self, name: &str) -> (r: String)
        requires
            resolved_name(self.model(), name@) is Some,
        ensures
            resolved_name(self.model(), name@) == Some(r@),
    {
        match self.try_resolve_generic_name(name) {
            Some(found) => found,
            None => unreached(),
        }
    }
}

} // verus!
