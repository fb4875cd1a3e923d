use std::rc::Rc;
use vstd::prelude::*;

verus! {

/// Mathematical model of a structural type: names are character sequences,
/// lists are sequences, and member tables are maps from a name to a model.
pub ghost enum TypeModel {
    Array { arity: usize, element: Box<TypeModel> },
    Ref { name: Seq<char>, generic_args: Option<Seq<TypeModel>> },
    Method { overloads: Seq<TypeModel> },
    Overload {
        params: Seq<TypeModel>,
        generics: Option<Seq<TypeModel>>,
        return_type: Option<Box<TypeModel>>,
    },
    Param { param_type: Box<TypeModel>, is_variadic: bool },
    Generic { name: Seq<char> },
    Object {
        name: Seq<char>,
        inherits: Option<Seq<TypeModel>>,
        generic_params: Option<Seq<TypeModel>>,
        body: Map<Seq<char>, TypeModel>,
    },
    Field { value_type: Box<TypeModel>, is_static: bool },
    Program { types: Map<Seq<char>, TypeModel> },
}

/// A structural type. Values are immutable and shared by reference counting.
#[derive(Debug)]
pub enum Type {
    ArrayType(ArrayType),
    RefType(RefType),
    MethodType(MethodType),
    MethodOverloadType(MethodOverloadType),
    MethodParamType(MethodParamType),
    GenericType(GenericType),
    ObjectType(ObjectType),
    FieldType(FieldType),
    ProgramType(ProgramType),
}

/// A reference to a named type, with the generic arguments of the use site.
#[derive(Debug)]
pub struct RefType {
    pub name: String,
    pub generic_params: Option<Vec<Rc<Type>>>,
}

/// Type for program arrays.
#[derive(Debug)]
pub struct ArrayType {
    pub arity: usize,
    pub ref_type: Rc<Type>,
}

/// Type for methods: the overload set of one method name.
#[derive(Debug)]
pub struct MethodType {
    pub overloads: Vec<Rc<Type>>,
}

/// Type for one method overload.
#[derive(Debug)]
pub struct MethodOverloadType {
    pub params: Vec<Rc<Type>>,
    pub generic_types: Option<Vec<Rc<Type>>>,
    pub return_type: Option<Rc<Type>>,
}

/// Type for method params.
#[derive(Debug)]
pub struct MethodParamType {
    pub ref_type: Rc<Type>,
    pub is_variadic: bool,
}

/// Type for generic declarations. A placeholder: it is never instanced.
#[derive(Debug)]
pub struct GenericType {
    pub name: String,
}

/// Abstract type of objects.
#[derive(Debug)]
pub struct ObjectType {
    pub name: String,
    pub inherits: Option<Vec<Rc<Type>>>,
    pub generic_params: Option<Vec<Rc<Type>>>,
    pub body: TypeMap,
}

/// The type of a field declaration.
#[derive(Debug)]
pub struct FieldType {
    pub identifier_type: Rc<Type>,
    pub is_static: bool,
}

/// The type of a type program.
#[derive(Debug)]
pub struct ProgramType {
    pub types: Rc<TypeMap>,
}

/// A table from names to types, kept as a list of entries. Its model is the
/// map in which, of two entries with one name, the later one counts.
#[derive(Debug)]
pub struct TypeMap {
    pub entries: Vec<(String, Rc<Type>)>,
}

/// The model of a list of shared types, element by element.
pub open spec fn types_model(s: Seq<Rc<Type>>) -> Seq<TypeModel>
    decreases s, 0int,
{
    Seq::new(
        s.len(),
        |i: int|
            if 0 <= i < s.len() {
                type_model(*s[i])
            } else {
                TypeModel::Method { overloads: Seq::empty() }
            },
    )
}

/// The model of an optional list of shared types.
pub open spec fn opt_types_model(o: Option<Vec<Rc<Type>>>) -> Option<Seq<TypeModel>> {
    match o {
        Some(v) => Some(types_model(v@)),
        None => None,
    }
}

/// The map that a list of entries stands for: later entries override earlier ones.
pub open spec fn entries_model(s: Seq<(String, Rc<Type>)>) -> Map<Seq<char>, TypeModel>
    decreases s, 0int,
{
    if s.len() == 0 {
        Map::empty()
    } else {
        entries_model(s.drop_last()).insert(s.last().0@, type_model(*s.last().1))
    }
}

/// The model of a type.
pub open spec fn type_model(t: Type) -> TypeModel
    decreases t, 1int,
{
    match t {
        Type::ArrayType(a) => TypeModel::Array {
            arity: a.arity,
            element: Box::new(type_model(*a.ref_type)),
        },
        Type::RefType(r) => TypeModel::Ref {
            name: r.name@,
            generic_args: match r.generic_params {
                Some(v) => Some(types_model(v@)),
                None => None,
            },
        },
        Type::MethodType(m) => TypeModel::Method { overloads: types_model(m.overloads@) },
        Type::MethodOverloadType(o) => TypeModel::Overload {
            params: types_model(o.params@),
            generics: match o.generic_types {
                Some(v) => Some(types_model(v@)),
                None => None,
            },
            return_type: match o.return_type {
                Some(r) => Some(Box::new(type_model(*r))),
                None => None,
            },
        },
        Type::MethodParamType(p) => TypeModel::Param {
            param_type: Box::new(type_model(*p.ref_type)),
            is_variadic: p.is_variadic,
        },
        Type::GenericType(g) => TypeModel::Generic { name: g.name@ },
        Type::ObjectType(o) => TypeModel::Object {
            name: o.name@,
            inherits: match o.inherits {
                Some(v) => Some(types_model(v@)),
                None => None,
            },
            generic_params: match o.generic_params {
                Some(v) => Some(types_model(v@)),
                None => None,
            },
            body: entries_model(o.body.entries@),
        },
        Type::FieldType(f) => TypeModel::Field {
            value_type: Box::new(type_model(*f.identifier_type)),
            is_static: f.is_static,
        },
        Type::ProgramType(p) => TypeModel::Program { types: entries_model(p.types.entries@) },
    }
}

impl View for Type {
    type V = TypeModel;

    open spec fn view(&self) -> TypeModel {
        type_model(*self)
    }
}

impl View for TypeMap {
    type V = Map<Seq<char>, TypeModel>;

    open spec fn view(&self) -> Map<Seq<char>, TypeModel> {
        entries_model(self.entries@)
    }
}


/// The names of a list of entries, in order.
pub open spec fn entry_names(s: Seq<(String, Rc<Type>)>) -> Seq<Seq<char>> {
    Seq::new(s.len(), |i: int| s[i].0@)
}

/// No entry after position `i` of `s` has the name `k`.
pub open spec fn absent_after(s: Seq<(String, Rc<Type>)>, i: int, k: Seq<char>) -> bool {
    forall|j: int| i < j < s.len() ==> (#[trigger] s[j]).0@ != k
}

/// A name that no entry has is not in the map.
pub proof fn lemma_entries_absent(s: Seq<(String, Rc<Type>)>, k: Seq<char>)
    requires
        absent_after(s, -1, k),
    ensures
        !entries_model(s).contains_key(k),
    decreases s.len(),
{
    if s.len() > 0 {
        let t = s.drop_last();
        assert(s[s.len() - 1].0@ != k);
        assert forall|j: int| -1 < j < t.len() implies (#[trigger] t[j]).0@ != k by {
            assert(t[j] == s[j]);
        }
        lemma_entries_absent(t, k);
    }
}

/// The last entry with a name decides what the map holds for it.
pub proof fn lemma_entries_last(s: Seq<(String, Rc<Type>)>, i: int, k: Seq<char>)
    requires
        0 <= i < s.len(),
        s[i].0@ == k,
        absent_after(s, i, k),
    ensures
        entries_model(s).contains_key(k),
        entries_model(s)[k] == type_model(*s[i].1),
    decreases s.len(),
{
    if i < s.len() - 1 {
        let t = s.drop_last();
        assert(s[s.len() - 1].0@ != k);
        assert(t[i] == s[i]);
        assert forall|j: int| i < j < t.len() implies (#[trigger] t[j]).0@ != k by {
            assert(t[j] == s[j]);
        }
        lemma_entries_last(t, i, k);
    }
}

/// Replacing the last entry of a name gives the map with that name rebound.
pub proof fn lemma_entries_update(
    s: Seq<(String, Rc<Type>)>,
    i: int,
    e: (String, Rc<Type>),
)
    requires
        0 <= i < s.len(),
        s[i].0@ == e.0@,
        absent_after(s, i, e.0@),
    ensures
        entries_model(s.update(i, e)) == entries_model(s).insert(e.0@, type_model(*e.1)),
    decreases s.len(),
{
    let u = s.update(i, e);
    let t = s.drop_last();
    if i == s.len() - 1 {
        assert(u.drop_last() == t);
        assert(entries_model(u) == entries_model(t).insert(e.0@, type_model(*e.1)));
        assert(entries_model(s) == entries_model(t).insert(s[i].0@, type_model(*s[i].1)));
        assert(entries_model(u) == entries_model(s).insert(e.0@, type_model(*e.1)));
    } else {
        assert(s[s.len() - 1].0@ != e.0@);
        assert forall|j: int| i < j < t.len() implies (#[trigger] t[j]).0@ != e.0@ by {
            assert(t[j] == s[j]);
        }
        lemma_entries_update(t, i, e);
        assert(u.drop_last() == t.update(i, e));
        assert(u.last() == s.last());
        assert(entries_model(u) == entries_model(s).insert(e.0@, type_model(*e.1)));
    }
}

/// The names of the map are the names of the entries.
pub proof fn lemma_entries_domain(s: Seq<(String, Rc<Type>)>)
    ensures
        entries_model(s).dom() == entry_names(s).to_set(),
        entries_model(s).dom().finite(),
    decreases s.len(),
{
    let names = entry_names(s);
    if s.len() == 0 {
        assert(names.to_set() =~= Set::<Seq<char>>::empty());
        assert(entries_model(s).dom() =~= Set::<Seq<char>>::empty());
    } else {
        let t = s.drop_last();
        lemma_entries_domain(t);
        let tn = entry_names(t);
        assert forall|k: Seq<char>| names.to_set().contains(k) <==> (tn.to_set().insert(
            s.last().0@,
        )).contains(k) by {
            if names.to_set().contains(k) {
                let j = choose|j: int| 0 <= j < names.len() && names[j] == k;
                if j < t.len() {
                    assert(tn[j] == k);
                }
            }
            if tn.to_set().contains(k) {
                let j = choose|j: int| 0 <= j < tn.len() && tn[j] == k;
                assert(names[j] == k);
            }
            if k == s.last().0@ {
                assert(names[s.len() - 1] == k);
            }
        }
        assert(entries_model(s).dom() =~= names.to_set());
    }
}

impl TypeMap {
    /// No name occurs in two entries.
    pub open spec fn wf(&self) -> bool {
        entry_names(self.entries@).no_duplicates()
    }

    /// The empty table.
    pub fn new() -> (r: TypeMap)
        ensures
            r@ == Map::<Seq<char>, TypeModel>::empty(),
            r.wf(),
    {
        TypeMap { entries: Vec::new() }
    }

    /// The position of the last entry named `key`, if there is one.
    pub fn position(&self, key: &String) -> (r: Option<usize>)
        ensures
            match r {
                Some(i) => i < self.entries@.len() && self.entries@[i as int].0@ == key@
                    && absent_after(self.entries@, i as int, key@),
                None => absent_after(self.entries@, -1, key@),
            },
    {
        let mut i: usize = self.entries.len();
        while i > 0
            invariant
                i <= self.entries@.len(),
                absent_after(self.entries@, i as int - 1, key@),
            decreases i,
        {
            i = i - 1;
            if self.entries[i].0 == *key {
                return Some(i);
            }
        }
        None
    }

    /// The type bound to `key`, if the table has that name.
    pub fn get(&self, key: &str) -> (r: Option<&Rc<Type>>)
        ensures
            match r {
                Some(t) => self@.contains_key(key@) && t@ == self@[key@],
                None => !self@.contains_key(key@),
            },
    {
        let owned = key.to_owned();
        match self.position(&owned) {
            Some(i) => {
                proof {
                    lemma_entries_last(self.entries@, i as int, key@);
                }
                Some(&self.entries[i].1)
            },
            None => {
                proof {
                    lemma_entries_absent(self.entries@, key@);
                }
                None
            },
        }
    }

    /// Whether the table has the name `key`.
    pub fn contains_key(&self, key: &str) -> (r: bool)
        ensures
            r == self@.contains_key(key@),
    {
        self.get(key).is_some()
    }

    /// Binds `key` to `value`, replacing what it was bound to before.
    pub fn insert(&mut self, key: String, value: Rc<Type>)
        ensures
            final(self)@ == old(self)@.insert(key@, value@),
            old(self).wf() ==> final(self).wf(),
    {
        let ghost before = self.entries@;
        match self.position(&key) {
            Some(i) => {
                let ghost e = (key, value);
                proof {
                    lemma_entries_update(before, i as int, e);
                }
                self.entries.set(i, (key, value));
                proof {
                    assert(self.entries@ == before.update(i as int, e));
                    assert(entry_names(self.entries@) =~= entry_names(before));
                }
            },
            None => {
                let ghost e = (key, value);
                self.entries.push((key, value));
                proof {
                    assert(self.entries@.drop_last() == before);
                    let names = entry_names(self.entries@);
                    let old_names = entry_names(before);
                    if old_names.no_duplicates() {
                        assert forall|a: int, b: int|
                            0 <= a < names.len() && 0 <= b < names.len() && a != b implies names[a]
                            != names[b] by {
                            if a < before.len() && b < before.len() {
                                assert(old_names[a] != old_names[b]);
                            } else if a < before.len() {
                                assert(before[a].0@ != e.0@);
                            } else {
                                assert(before[b].0@ != e.0@);
                            }
                        }
                    }
                }
            },
        }
    }

    /// Whether an entry before place `i` has the name of the entry at `i`.
    fn named_before(&self, i: usize) -> (r: bool)
        requires
            i < self.entries@.len(),
        ensures
            r == entries_model(self.entries@.subrange(0, i as int)).contains_key(
                self.entries@[i as int].0@,
            ),
    {
        let ghost prefix = self.entries@.subrange(0, i as int);
        let ghost name = self.entries@[i as int].0@;
        proof {
            lemma_entries_domain(prefix);
        }
        let mut j: usize = 0;
        while j < i
            invariant
                j <= i < self.entries@.len(),
                prefix == self.entries@.subrange(0, i as int),
                name == self.entries@[i as int].0@,
                entries_model(prefix).dom() == entry_names(prefix).to_set(),
                forall|k: int| 0 <= k < j ==> (#[trigger] self.entries@[k]).0@ != name,
            decreases i - j,
        {
            if self.entries[j].0 == self.entries[i].0 {
                proof {
                    let names = entry_names(prefix);
                    assert(names[j as int] == name);
                    assert(names.to_set().contains(name));
                }
                return true;
            }
            j = j + 1;
        }
        proof {
            let names = entry_names(prefix);
            if names.to_set().contains(name) {
                let k = choose|k: int| 0 <= k < names.len() && names[k] == name;
                assert(prefix[k] == self.entries@[k]);
                assert(false);
            }
        }
        false
    }

    /// The number of names of the table: an entry whose name an earlier
    /// entry has counts for nothing.
    pub fn len(&self) -> (r: usize)
        ensures
            r == self@.dom().len(),
            self.wf() ==> r == self.entries@.len(),
    {
        let mut count: usize = 0;
        let mut i: usize = 0;
        proof {
            lemma_entries_domain(self.entries@.subrange(0, 0));
            assert(entries_model(self.entries@.subrange(0, 0)).dom() =~= Set::<Seq<char>>::empty());
        }
        while i < self.entries.len()
            invariant
                i <= self.entries@.len(),
                count <= i,
                count == entries_model(self.entries@.subrange(0, i as int)).dom().len(),
            decreases self.entries@.len() - i,
        {
            let again = self.named_before(i);
            proof {
                let prefix = self.entries@.subrange(0, i as int);
                let next = self.entries@.subrange(0, i + 1);
                assert(next.drop_last() == prefix);
                assert(next.last() == self.entries@[i as int]);
                lemma_entries_domain(prefix);
                assert(entries_model(next).dom() =~= entries_model(prefix).dom().insert(
                    self.entries@[i as int].0@,
                ));
            }
            if !again {
                count = count + 1;
            }
            i = i + 1;
        }
        proof {
            assert(self.entries@.subrange(0, self.entries@.len() as int) == self.entries@);
            lemma_entries_domain(self.entries@);
            if self.wf() {
                entry_names(self.entries@).unique_seq_to_set();
            }
        }
        count
    }

    /// Whether the table has no name at all.
    pub fn is_empty(&self) -> (r: bool)
        ensures
            r == (self@ == Map::<Seq<char>, TypeModel>::empty()),
    {
        proof {
            if self.entries@.len() > 0 {
                assert(self@.contains_key(self.entries@.last().0@));
            }
        }
        self.entries.len() == 0
    }
}


/// A copy of a list of shared types that shares every element.
pub fn clone_types(v: &Vec<Rc<Type>>) -> (r: Vec<Rc<Type>>)
    ensures
        r@ == v@,
{
    let mut r: Vec<Rc<Type>> = Vec::new();
    let mut i: usize = 0;
    while i < v.len()
        invariant
            i <= v@.len(),
            r@ == v@.subrange(0, i as int),
        decreases v@.len() - i,
    {
        r.push(v[i].clone());
        proof {
            assert(r@ == v@.subrange(0, i + 1));
        }
        i = i + 1;
    }
    proof {
        assert(v@.subrange(0, v@.len() as int) == v@);
    }
    r
}

/// A copy of an optional list of shared types that shares every element.
pub fn clone_opt_types(o: &Option<Vec<Rc<Type>>>) -> (r: Option<Vec<Rc<Type>>>)
    ensures
        opt_types_model(r) == opt_types_model(*o),
        r is Some == o is Some,
        r is Some ==> r->0@ == o->0@,
{
    match o {
        Some(v) => Some(clone_types(v)),
        None => None,
    }
}

impl Clone for TypeMap {
    /// A copy with the same entries, sharing every type.
    fn clone(&self) -> (r: TypeMap)
        ensures
            r.entries@ == self.entries@,
            r@ == self@,
    {
        let mut entries: Vec<(String, Rc<Type>)> = Vec::new();
        let mut i: usize = 0;
        while i < self.entries.len()
            invariant
                i <= self.entries@.len(),
                entries@ == self.entries@.subrange(0, i as int),
            decreases self.entries@.len() - i,
        {
            let name = self.entries[i].0.clone();
            let shared = self.entries[i].1.clone();
            entries.push((name, shared));
            proof {
                assert(entries@ == self.entries@.subrange(0, i + 1));
            }
            i = i + 1;
        }
        proof {
            assert(self.entries@.subrange(0, self.entries@.len() as int) == self.entries@);
        }
        TypeMap { entries }
    }
}

impl TypeMap {
    /// The table that binds the names of `entries` in order, a later entry
    /// replacing an earlier one of the same name.
    pub fn from_entries(entries: Vec<(String, Rc<Type>)>) -> (r: TypeMap)
        ensures
            r@ == entries_model(entries@),
            r.wf(),
    {
        let mut r = TypeMap::new();
        let mut i: usize = 0;
        while i < entries.len()
            invariant
                i <= entries@.len(),
                r@ == entries_model(entries@.subrange(0, i as int)),
                r.wf(),
            decreases entries@.len() - i,
        {
            let name = entries[i].0.clone();
            let shared = entries[i].1.clone();
            r.insert(name, shared);
            proof {
                let next = entries@.subrange(0, i + 1);
                assert(next.drop_last() == entries@.subrange(0, i as int));
                assert(next.last() == entries@[i as int]);
            }
            i = i + 1;
        }
        proof {
            assert(entries@.subrange(0, entries@.len() as int) == entries@);
        }
        r
    }
}

impl View for ArrayType {
    type V = TypeModel;

    open spec fn view(&self) -> TypeModel {
        type_model(Type::ArrayType(*self))
    }
}

impl ArrayType {
    /// An array of `arity` dimensions over `ref_type`.
    pub fn new(arity: usize, ref_type: Rc<Type>) -> (r: ArrayType)
        ensures
            r == (ArrayType { arity, ref_type }),
    {
        ArrayType { arity, ref_type }
    }

    pub fn arity(&self) -> (r: &usize)
        ensures
            *r == self.arity,
    {
        &self.arity
    }

    pub fn ref_type(&self) -> (r: &Rc<Type>)
        ensures
            *r == self.ref_type,
    {
        &self.ref_type
    }
}

impl Clone for ArrayType {
    /// A copy that shares every type it holds.
    fn clone(&self) -> (r: ArrayType)
        ensures
            r.arity == self.arity,
            r.ref_type == self.ref_type,
            r@ == self@,
    {
        ArrayType { arity: self.arity, ref_type: self.ref_type.clone() }
    }
}

impl From<ArrayType> for Type {
    fn from(value: ArrayType) -> (r: Type) {
        Type::ArrayType(value)
    }
}

impl vstd::std_specs::convert::FromSpecImpl<ArrayType> for Type {
    open spec fn obeys_from_spec() -> bool {
        true
    }

    open spec fn from_spec(value: ArrayType) -> Type {
        Type::ArrayType(value)
    }
}

impl TypeImpl for ArrayType {
    open spec fn as_type(self) -> Type {
        Type::ArrayType(self)
    }

    fn to_rc(self) -> (r: Rc<Type>) {
        Rc::new(Type::ArrayType(self))
    }

    fn to_some_rc(self) -> (r: Option<Rc<Type>>) {
        Some(Rc::new(Type::ArrayType(self)))
    }
}

impl View for RefType {
    type V = TypeModel;

    open spec fn view(&self) -> TypeModel {
        type_model(Type::RefType(*self))
    }
}

impl RefType {
    /// A reference to the type called `name`, with its generic arguments if it has any.
    pub fn new(name: String, generic_params: Option<Vec<Rc<Type>>>) -> (r: RefType)
        ensures
            r == (RefType { name, generic_params }),
    {
        RefType { name, generic_params }
    }

    pub fn name(&self) -> (r: &String)
        ensures
            *r == self.name,
    {
        &self.name
    }

    pub fn generic_params(&self) -> (r: &Option<Vec<Rc<Type>>>)
        ensures
            *r == self.generic_params,
    {
        &self.generic_params
    }
}

impl Clone for RefType {
    /// A copy that shares every type it holds.
    fn clone(&self) -> (r: RefType)
        ensures
            r.name == self.name,
            r.generic_params is Some == self.generic_params is Some,
            r.generic_params is Some ==> r.generic_params->0@ == self.generic_params->0@,
            r@ == self@,
    {
        RefType { name: self.name.clone(), generic_params: clone_opt_types(&self.generic_params) }
    }
}

impl From<RefType> for Type {
    fn from(value: RefType) -> (r: Type) {
        Type::RefType(value)
    }
}

impl vstd::std_specs::convert::FromSpecImpl<RefType> for Type {
    open spec fn obeys_from_spec() -> bool {
        true
    }

    open spec fn from_spec(value: RefType) -> Type {
        Type::RefType(value)
    }
}

impl TypeImpl for RefType {
    open spec fn as_type(self) -> Type {
        Type::RefType(self)
    }

    fn to_rc(self) -> (r: Rc<Type>) {
        Rc::new(Type::RefType(self))
    }

    fn to_some_rc(self) -> (r: Option<Rc<Type>>) {
        Some(Rc::new(Type::RefType(self)))
    }
}

impl View for MethodType {
    type V = TypeModel;

    open spec fn view(&self) -> TypeModel {
        type_model(Type::MethodType(*self))
    }
}

impl MethodType {
    /// The method type with the given overloads, in order.
    pub fn new(overloads: Vec<Rc<Type>>) -> (r: MethodType)
        ensures
            r == (MethodType { overloads }),
    {
        MethodType { overloads }
    }

    pub fn overloads(&self) -> (r: &Vec<Rc<Type>>)
        ensures
            *r == self.overloads,
    {
        &self.overloads
    }

    /// The overload list, for growing it in place.
    pub fn overloads_mut(&mut self) -> (r: &mut Vec<Rc<Type>>)
        ensures
            *r == old(self).overloads,
            final(self).overloads == *final(r),
    {
        &mut self.overloads
    }
}

impl Clone for MethodType {
    /// A copy that shares every type it holds.
    fn clone(&self) -> (r: MethodType)
        ensures
            r.overloads@ == self.overloads@,
            r@ == self@,
    {
        MethodType { overloads: clone_types(&self.overloads) }
    }
}

impl From<MethodType> for Type {
    fn from(value: MethodType) -> (r: Type) {
        Type::MethodType(value)
    }
}

impl vstd::std_specs::convert::FromSpecImpl<MethodType> for Type {
    open spec fn obeys_from_spec() -> bool {
        true
    }

    open spec fn from_spec(value: MethodType) -> Type {
        Type::MethodType(value)
    }
}

impl TypeImpl for MethodType {
    open spec fn as_type(self) -> Type {
        Type::MethodType(self)
    }

    fn to_rc(self) -> (r: Rc<Type>) {
        Rc::new(Type::MethodType(self))
    }

    fn to_some_rc(self) -> (r: Option<Rc<Type>>) {
        Some(Rc::new(Type::MethodType(self)))
    }
}

impl View for MethodOverloadType {
    type V = TypeModel;

    open spec fn view(&self) -> TypeModel {
        type_model(Type::MethodOverloadType(*self))
    }
}

impl MethodOverloadType {
    /// One overload: its parameters, its generic parameters and its return type.
    pub fn new(params: Vec<Rc<Type>>, generic_types: Option<Vec<Rc<Type>>>, return_type: Option<Rc<Type>>) -> (r: MethodOverloadType)
        ensures
            r == (MethodOverloadType { params, generic_types, return_type }),
    {
        MethodOverloadType { params, generic_types, return_type }
    }

    pub fn params(&self) -> (r: &Vec<Rc<Type>>)
        ensures
            *r == self.params,
    {
        &self.params
    }

    pub fn generic_types(&self) -> (r: &Option<Vec<Rc<Type>>>)
        ensures
            *r == self.generic_types,
    {
        &self.generic_types
    }

    pub fn return_type(&self) -> (r: &Option<Rc<Type>>)
        ensures
            *r == self.return_type,
    {
        &self.return_type
    }
}

impl Clone for MethodOverloadType {
    /// A copy that shares every type it holds.
    fn clone(&self) -> (r: MethodOverloadType)
        ensures
            r.params@ == self.params@,
            r.generic_types is Some == self.generic_types is Some,
            r.generic_types is Some ==> r.generic_types->0@ == self.generic_types->0@,
            r.return_type == self.return_type,
            r@ == self@,
    {
        MethodOverloadType { params: clone_types(&self.params), generic_types: clone_opt_types(&self.generic_types), return_type: match &self.return_type { Some(t) => Some(t.clone()), None => None } }
    }
}

impl From<MethodOverloadType> for Type {
    fn from(value: MethodOverloadType) -> (r: Type) {
        Type::MethodOverloadType(value)
    }
}

impl vstd::std_specs::convert::FromSpecImpl<MethodOverloadType> for Type {
    open spec fn obeys_from_spec() -> bool {
        true
    }

    open spec fn from_spec(value: MethodOverloadType) -> Type {
        Type::MethodOverloadType(value)
    }
}

impl TypeImpl for MethodOverloadType {
    open spec fn as_type(self) -> Type {
        Type::MethodOverloadType(self)
    }

    fn to_rc(self) -> (r: Rc<Type>) {
        Rc::new(Type::MethodOverloadType(self))
    }

    fn to_some_rc(self) -> (r: Option<Rc<Type>>) {
        Some(Rc::new(Type::MethodOverloadType(self)))
    }
}

impl View for MethodParamType {
    type V = TypeModel;

    open spec fn view(&self) -> TypeModel {
        type_model(Type::MethodParamType(*self))
    }
}

impl MethodParamType {
    /// A parameter of type `ref_type`, variadic or not.
    pub fn new(ref_type: Rc<Type>, is_variadic: bool) -> (r: MethodParamType)
        ensures
            r == (MethodParamType { ref_type, is_variadic }),
    {
        MethodParamType { ref_type, is_variadic }
    }

    pub fn ref_type(&self) -> (r: &Rc<Type>)
        ensures
            *r == self.ref_type,
    {
        &self.ref_type
    }

    pub fn is_variadic(&self) -> (r: &bool)
        ensures
            *r == self.is_variadic,
    {
        &self.is_variadic
    }
}

impl Clone for MethodParamType {
    /// A copy that shares every type it holds.
    fn clone(&self) -> (r: MethodParamType)
        ensures
            r.ref_type == self.ref_type,
            r.is_variadic == self.is_variadic,
            r@ == self@,
    {
        MethodParamType { ref_type: self.ref_type.clone(), is_variadic: self.is_variadic }
    }
}

impl From<MethodParamType> for Type {
    fn from(value: MethodParamType) -> (r: Type) {
        Type::MethodParamType(value)
    }
}

impl vstd::std_specs::convert::FromSpecImpl<MethodParamType> for Type {
    open spec fn obeys_from_spec() -> bool {
        true
    }

    open spec fn from_spec(value: MethodParamType) -> Type {
        Type::MethodParamType(value)
    }
}

impl TypeImpl for MethodParamType {
    open spec fn as_type(self) -> Type {
        Type::MethodParamType(self)
    }

    fn to_rc(self) -> (r: Rc<Type>) {
        Rc::new(Type::MethodParamType(self))
    }

    fn to_some_rc(self) -> (r: Option<Rc<Type>>) {
        Some(Rc::new(Type::MethodParamType(self)))
    }
}

impl View for GenericType {
    type V = TypeModel;

    open spec fn view(&self) -> TypeModel {
        type_model(Type::GenericType(*self))
    }
}

impl GenericType {
    /// The placeholder for the generic parameter called `name`.
    pub fn new(name: String) -> (r: GenericType)
        ensures
            r == (GenericType { name }),
    {
        GenericType { name }
    }

    pub fn name(&self) -> (r: &String)
        ensures
            *r == self.name,
    {
        &self.name
    }
}

impl Clone for GenericType {
    /// A copy that shares every type it holds.
    fn clone(&self) -> (r: GenericType)
        ensures
            r.name == self.name,
            r@ == self@,
    {
        GenericType { name: self.name.clone() }
    }
}

impl From<GenericType> for Type {
    fn from(value: GenericType) -> (r: Type) {
        Type::GenericType(value)
    }
}

impl vstd::std_specs::convert::FromSpecImpl<GenericType> for Type {
    open spec fn obeys_from_spec() -> bool {
        true
    }

    open spec fn from_spec(value: GenericType) -> Type {
        Type::GenericType(value)
    }
}

impl TypeImpl for GenericType {
    open spec fn as_type(self) -> Type {
        Type::GenericType(self)
    }

    fn to_rc(self) -> (r: Rc<Type>) {
        Rc::new(Type::GenericType(self))
    }

    fn to_some_rc(self) -> (r: Option<Rc<Type>>) {
        Some(Rc::new(Type::GenericType(self)))
    }
}

impl View for ObjectType {
    type V = TypeModel;

    open spec fn view(&self) -> TypeModel {
        type_model(Type::ObjectType(*self))
    }
}

impl ObjectType {
    /// The object type called `name` with the given parents, generic parameters and members.
    pub fn new(name: String, inherits: Option<Vec<Rc<Type>>>, generic_params: Option<Vec<Rc<Type>>>, body: TypeMap) -> (r: ObjectType)
        ensures
            r == (ObjectType { name, inherits, generic_params, body }),
    {
        ObjectType { name, inherits, generic_params, body }
    }

    pub fn name(&self) -> (r: &String)
        ensures
            *r == self.name,
    {
        &self.name
    }

    pub fn inherits(&self) -> (r: &Option<Vec<Rc<Type>>>)
        ensures
            *r == self.inherits,
    {
        &self.inherits
    }

    pub fn generic_params(&self) -> (r: &Option<Vec<Rc<Type>>>)
        ensures
            *r == self.generic_params,
    {
        &self.generic_params
    }

    pub fn body(&self) -> (r: &TypeMap)
        ensures
            *r == self.body,
    {
        &self.body
    }
}

impl Clone for ObjectType {
    /// A copy that shares every type it holds.
    fn clone(&self) -> (r: ObjectType)
        ensures
            r.name == self.name,
            r.inherits is Some == self.inherits is Some,
            r.inherits is Some ==> r.inherits->0@ == self.inherits->0@,
            r.generic_params is Some == self.generic_params is Some,
            r.generic_params is Some ==> r.generic_params->0@ == self.generic_params->0@,
            r.body.entries@ == self.body.entries@,
            r@ == self@,
    {
        ObjectType { name: self.name.clone(), inherits: clone_opt_types(&self.inherits), generic_params: clone_opt_types(&self.generic_params), body: self.body.clone() }
    }
}

impl From<ObjectType> for Type {
    fn from(value: ObjectType) -> (r: Type) {
        Type::ObjectType(value)
    }
}

impl vstd::std_specs::convert::FromSpecImpl<ObjectType> for Type {
    open spec fn obeys_from_spec() -> bool {
        true
    }

    open spec fn from_spec(value: ObjectType) -> Type {
        Type::ObjectType(value)
    }
}

impl TypeImpl for ObjectType {
    open spec fn as_type(self) -> Type {
        Type::ObjectType(self)
    }

    fn to_rc(self) -> (r: Rc<Type>) {
        Rc::new(Type::ObjectType(self))
    }

    fn to_some_rc(self) -> (r: Option<Rc<Type>>) {
        Some(Rc::new(Type::ObjectType(self)))
    }
}

impl View for FieldType {
    type V = TypeModel;

    open spec fn view(&self) -> TypeModel {
        type_model(Type::FieldType(*self))
    }
}

impl FieldType {
    /// A field whose value has type `identifier_type`.
    pub fn new(identifier_type: Rc<Type>, is_static: bool) -> (r: FieldType)
        ensures
            r == (FieldType { identifier_type, is_static }),
    {
        FieldType { identifier_type, is_static }
    }

    pub fn identifier_type(&self) -> (r: &Rc<Type>)
        ensures
            *r == self.identifier_type,
    {
        &self.identifier_type
    }

    pub fn is_static(&self) -> (r: &bool)
        ensures
            *r == self.is_static,
    {
        &self.is_static
    }
}

impl Clone for FieldType {
    /// A copy that shares every type it holds.
    fn clone(&self) -> (r: FieldType)
        ensures
            r.identifier_type == self.identifier_type,
            r.is_static == self.is_static,
            r@ == self@,
    {
        FieldType { identifier_type: self.identifier_type.clone(), is_static: self.is_static }
    }
}

impl From<FieldType> for Type {
    fn from(value: FieldType) -> (r: Type) {
        Type::FieldType(value)
    }
}

impl vstd::std_specs::convert::FromSpecImpl<FieldType> for Type {
    open spec fn obeys_from_spec() -> bool {
        true
    }

    open spec fn from_spec(value: FieldType) -> Type {
        Type::FieldType(value)
    }
}

impl TypeImpl for FieldType {
    open spec fn as_type(self) -> Type {
        Type::FieldType(self)
    }

    fn to_rc(self) -> (r: Rc<Type>) {
        Rc::new(Type::FieldType(self))
    }

    fn to_some_rc(self) -> (r: Option<Rc<Type>>) {
        Some(Rc::new(Type::FieldType(self)))
    }
}

impl View for ProgramType {
    type V = TypeModel;

    open spec fn view(&self) -> TypeModel {
        type_model(Type::ProgramType(*self))
    }
}

impl ProgramType {
    /// The type of a program with the given top-level bindings.
    pub fn new(types: Rc<TypeMap>) -> (r: ProgramType)
        ensures
            r == (ProgramType { types }),
    {
        ProgramType { types }
    }

    pub fn types(&self) -> (r: &Rc<TypeMap>)
        ensures
            *r == self.types,
    {
        &self.types
    }
}

impl Clone for ProgramType {
    /// A copy that shares every type it holds.
    fn clone(&self) -> (r: ProgramType)
        ensures
            r.types == self.types,
            r@ == self@,
    {
        ProgramType { types: self.types.clone() }
    }
}

impl From<ProgramType> for Type {
    fn from(value: ProgramType) -> (r: Type) {
        Type::ProgramType(value)
    }
}

impl vstd::std_specs::convert::FromSpecImpl<ProgramType> for Type {
    open spec fn obeys_from_spec() -> bool {
        true
    }

    open spec fn from_spec(value: ProgramType) -> Type {
        Type::ProgramType(value)
    }
}

impl TypeImpl for ProgramType {
    open spec fn as_type(self) -> Type {
        Type::ProgramType(self)
    }

    fn to_rc(self) -> (r: Rc<Type>) {
        Rc::new(Type::ProgramType(self))
    }

    fn to_some_rc(self) -> (r: Option<Rc<Type>>) {
        Some(Rc::new(Type::ProgramType(self)))
    }
}

/// Conversion of a type, or of one of its variants' contents, into a shared type.
pub trait TypeImpl: Sized {
    /// The type that `self` stands for.
    spec fn as_type(self) -> Type;

    fn to_rc(self) -> (r: Rc<Type>)
        ensures
            *r == self.as_type(),
    ;

    fn to_some_rc(self) -> (r: Option<Rc<Type>>)
        ensures
            r matches Some(t) && *t == self.as_type(),
    ;
}

impl TypeImpl for Type {
    open spec fn as_type(self) -> Type {
        self
    }

    fn to_rc(self) -> (r: Rc<Type>) {
        Rc::new(self)
    }

    fn to_some_rc(self) -> (r: Option<Rc<Type>>) {
        Some(Rc::new(self))
    }
}

impl Clone for Type {
    /// A copy that shares every type it holds.
    fn clone(&self) -> (r: Type)
        ensures
            r@ == self@,
    {
        match self {
            Type::ArrayType(t) => Type::ArrayType(t.clone()),
            Type::RefType(t) => Type::RefType(t.clone()),
            Type::MethodType(t) => Type::MethodType(t.clone()),
            Type::MethodOverloadType(t) => Type::MethodOverloadType(t.clone()),
            Type::MethodParamType(t) => Type::MethodParamType(t.clone()),
            Type::GenericType(t) => Type::GenericType(t.clone()),
            Type::ObjectType(t) => Type::ObjectType(t.clone()),
            Type::FieldType(t) => Type::FieldType(t.clone()),
            Type::ProgramType(t) => Type::ProgramType(t.clone()),
        }
    }
}

impl Type {

    /// The contents of `self` if it is the variant `ArrayType`.
    pub fn try_as_array_type_ref(&self) -> (r: Option<&ArrayType>)
        ensures
            r is Some == self is ArrayType,
            r matches Some(t) ==> *self == Type::ArrayType(*t),
    {
        match self {
            Type::ArrayType(t) => Some(t),
            _ => None,
        }
    }

    /// The contents of `self` if it is the variant `RefType`.
    pub fn try_as_ref_type_ref(&self) -> (r: Option<&RefType>)
        ensures
            r is Some == self is RefType,
            r matches Some(t) ==> *self == Type::RefType(*t),
    {
        match self {
            Type::RefType(t) => Some(t),
            _ => None,
        }
    }

    /// The contents of `self` if it is the variant `MethodType`.
    pub fn try_as_method_type_ref(&self) -> (r: Option<&MethodType>)
        ensures
            r is Some == self is MethodType,
            r matches Some(t) ==> *self == Type::MethodType(*t),
    {
        match self {
            Type::MethodType(t) => Some(t),
            _ => None,
        }
    }

    /// The contents of `self` if it is the variant `MethodOverloadType`.
    pub fn try_as_method_overload_type_ref(&self) -> (r: Option<&MethodOverloadType>)
        ensures
            r is Some == self is MethodOverloadType,
            r matches Some(t) ==> *self == Type::MethodOverloadType(*t),
    {
        match self {
            Type::MethodOverloadType(t) => Some(t),
            _ => None,
        }
    }

    /// The contents of `self` if it is the variant `MethodParamType`.
    pub fn try_as_method_param_type_ref(&self) -> (r: Option<&MethodParamType>)
        ensures
            r is Some == self is MethodParamType,
            r matches Some(t) ==> *self == Type::MethodParamType(*t),
    {
        match self {
            Type::MethodParamType(t) => Some(t),
            _ => None,
        }
    }

    /// The contents of `self` if it is the variant `GenericType`.
    pub fn try_as_generic_type_ref(&self) -> (r: Option<&GenericType>)
        ensures
            r is Some == self is GenericType,
            r matches Some(t) ==> *self == Type::GenericType(*t),
    {
        match self {
            Type::GenericType(t) => Some(t),
            _ => None,
        }
    }

    /// The contents of `self` if it is the variant `ObjectType`.
    pub fn try_as_object_type_ref(&self) -> (r: Option<&ObjectType>)
        ensures
            r is Some == self is ObjectType,
            r matches Some(t) ==> *self == Type::ObjectType(*t),
    {
        match self {
            Type::ObjectType(t) => Some(t),
            _ => None,
        }
    }

    /// The contents of `self` if it is the variant `FieldType`.
    pub fn try_as_field_type_ref(&self) -> (r: Option<&FieldType>)
        ensures
            r is Some == self is FieldType,
            r matches Some(t) ==> *self == Type::FieldType(*t),
    {
        match self {
            Type::FieldType(t) => Some(t),
            _ => None,
        }
    }

    /// The contents of `self` if it is the variant `ProgramType`.
    pub fn try_as_program_type_ref(&self) -> (r: Option<&ProgramType>)
        ensures
            r is Some == self is ProgramType,
            r matches Some(t) ==> *self == Type::ProgramType(*t),
    {
        match self {
            Type::ProgramType(t) => Some(t),
            _ => None,
        }
    }
}

} // verus!
