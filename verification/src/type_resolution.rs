use crate::types::{
    clone_types, opt_types_model, types_model, ArrayType, MethodOverloadType, MethodParamType,
    MethodType, RefType, Type, TypeMap, TypeModel,
};
use std::rc::Rc;
use vstd::prelude::*;

verus! {

/// Model of a type paired with the generic arguments of its use site.
pub ghost struct InstancedModel {
    pub source: TypeModel,
    pub generic_args: Seq<TypeModel>,
}

/// Model of the ways in which a resolution fails.
pub ghost enum ResolutionErrorModel {
    CannotResolveOnNonObject,
    CanOnlyCreateScopesForObjectTypes,
    CannotInstance,
    SymbolNotInObjectOfType { object_name: Seq<char>, symbol: Seq<char> },
    SymNotFoundInGlobal { symbol: Seq<char> },
}

/// A table from names to type models: a global table or a generic scope.
pub type Table = Map<Seq<char>, TypeModel>;

/// What a resolution gives: an instanced type or the reason why there is none.
pub type Resolved = Result<InstancedModel, ResolutionErrorModel>;

/// A type paired with the concrete generic arguments supplied where it is used.
#[derive(Debug)]
pub struct InstancedType {
    pub source: Rc<Type>,
    pub generic_args: Vec<Rc<Type>>,
}

/// Why a symbol could not be resolved.
#[derive(Debug)]
pub enum TypeResolutionError {
    /// The type that a symbol was looked up in is neither an object nor a program.
    CannotResolveOnNonObject,
    /// No generic scope exists for the type: it is neither an object nor a
    /// program, or one of the generic parameters it declares is no placeholder.
    CanOnlyCreateScopesForObjectTypes,
    /// A method overload, a method parameter or a generic placeholder was
    /// asked to serve as the root of a resolution.
    CannotInstance,
    /// The object has no member of that name.
    SymbolNotInObjectOfType(SymbolNotInObjectOfType),
    /// The global table has no binding of that name.
    SymNotFoundInGlobal(String),
}

/// The object that was searched and the symbol that it lacks.
#[derive(Debug)]
pub struct SymbolNotInObjectOfType {
    pub object_name: String,
    pub symbol: String,
}

impl View for InstancedType {
    type V = InstancedModel;

    open spec fn view(&self) -> InstancedModel {
        InstancedModel { source: self.source@, generic_args: types_model(self.generic_args@) }
    }
}

impl View for TypeResolutionError {
    type V = ResolutionErrorModel;

    open spec fn view(&self) -> ResolutionErrorModel {
        match self {
            TypeResolutionError::CannotResolveOnNonObject =>
                ResolutionErrorModel::CannotResolveOnNonObject,
            TypeResolutionError::CanOnlyCreateScopesForObjectTypes =>
                ResolutionErrorModel::CanOnlyCreateScopesForObjectTypes,
            TypeResolutionError::CannotInstance => ResolutionErrorModel::CannotInstance,
            TypeResolutionError::SymbolNotInObjectOfType(e) =>
                ResolutionErrorModel::SymbolNotInObjectOfType {
                    object_name: e.object_name@,
                    symbol: e.symbol@,
                },
            TypeResolutionError::SymNotFoundInGlobal(s) => ResolutionErrorModel::SymNotFoundInGlobal {
                symbol: s@,
            },
        }
    }
}

/// The model of the outcome of a resolution.
pub open spec fn resolved_model(r: Result<InstancedType, TypeResolutionError>) -> Resolved {
    match r {
        Ok(t) => Ok(t@),
        Err(e) => Err(e@),
    }
}

/// The model of the outcome of building a generic scope.
pub open spec fn scope_model(r: Result<Rc<TypeMap>, TypeResolutionError>) -> Result<
    Table,
    ResolutionErrorModel,
> {
    match r {
        Ok(t) => Ok(t@),
        Err(e) => Err(e@),
    }
}

/// The texts of a list of symbols.
pub open spec fn symbols_model(s: Seq<&str>) -> Seq<Seq<char>> {
    Seq::new(s.len(), |i: int| s[i]@)
}

/// A type as the root of a resolution, with no generic arguments.
pub open spec fn plain_instance(t: TypeModel) -> InstancedModel {
    InstancedModel { source: t, generic_args: Seq::empty() }
}

/// `scope` applied to every type of `s`.
pub open spec fn apply_scope_all(s: Seq<TypeModel>, scope: Table) -> Seq<TypeModel>
    decreases s, 0int,
{
    Seq::new(
        s.len(),
        |i: int|
            if 0 <= i < s.len() {
                apply_scope(s[i], scope)
            } else {
                TypeModel::Method { overloads: Seq::empty() }
            },
    )
}

/// `scope` applied to every type of an optional list.
pub open spec fn apply_scope_opt(o: Option<Seq<TypeModel>>, scope: Table) -> Option<
    Seq<TypeModel>,
> {
    match o {
        Some(s) => Some(apply_scope_all(s, scope)),
        None => None,
    }
}

/// The type `t` with the names of `scope` replaced by what they are bound to.
/// A reference without generic arguments whose name is in `scope` is replaced
/// as a whole; a reference with generic arguments keeps its name and has each
/// argument rewritten; arrays, methods, overloads and parameters are rewritten
/// part by part; every other type stays as it is.
pub open spec fn apply_scope(t: TypeModel, scope: Table) -> TypeModel
    decreases t, 1int,
{
    match t {
        TypeModel::Array { arity, element } => TypeModel::Array {
            arity,
            element: Box::new(apply_scope(*element, scope)),
        },
        TypeModel::Ref { name, generic_args } => match generic_args {
            Some(args) => TypeModel::Ref {
                name,
                generic_args: Some(apply_scope_all(args, scope)),
            },
            None => if scope.contains_key(name) {
                scope[name]
            } else {
                t
            },
        },
        TypeModel::Method { overloads } => TypeModel::Method {
            overloads: apply_scope_all(overloads, scope),
        },
        TypeModel::Overload { params, generics, return_type } => TypeModel::Overload {
            params: apply_scope_all(params, scope),
            generics: match generics {
                Some(g) => Some(apply_scope_all(g, scope)),
                None => None,
            },
            return_type: match return_type {
                Some(r) => Some(Box::new(apply_scope(*r, scope))),
                None => None,
            },
        },
        TypeModel::Param { param_type, is_variadic } => TypeModel::Param {
            param_type: Box::new(apply_scope(*param_type, scope)),
            is_variadic,
        },
        _ => t,
    }
}

/// The type `t` as the root of a resolution against the table `globals`.
/// A reference is looked up by name and paired with its own generic
/// arguments; a field stands for its value type; arrays, methods, objects and
/// programs are their own roots; no other type can be a root.
pub open spec fn instance_of(t: TypeModel, globals: Table) -> Resolved
    decreases t,
{
    match t {
        TypeModel::Array { .. } => Ok(plain_instance(t)),
        TypeModel::Method { .. } => Ok(plain_instance(t)),
        TypeModel::Object { .. } => Ok(plain_instance(t)),
        TypeModel::Program { .. } => Ok(plain_instance(t)),
        TypeModel::Ref { name, generic_args } => if globals.contains_key(name) {
            Ok(
                InstancedModel {
                    source: globals[name],
                    generic_args: match generic_args {
                        Some(args) => args,
                        None => Seq::empty(),
                    },
                },
            )
        } else {
            Err(ResolutionErrorModel::SymNotFoundInGlobal { symbol: name })
        },
        TypeModel::Field { value_type, .. } => instance_of(*value_type, globals),
        TypeModel::Overload { .. } => Err(ResolutionErrorModel::CannotInstance),
        TypeModel::Param { .. } => Err(ResolutionErrorModel::CannotInstance),
        TypeModel::Generic { .. } => Err(ResolutionErrorModel::CannotInstance),
    }
}

/// The type under any number of field wrappers.
pub open spec fn strip_fields(t: TypeModel) -> TypeModel
    decreases t,
{
    match t {
        TypeModel::Field { value_type, .. } => strip_fields(*value_type),
        _ => t,
    }
}

/// The scope that binds the names of the first `n` declared generic
/// parameters to the first `n` arguments, a later binding of a name replacing
/// an earlier one. There is none if one of those parameters is no placeholder.
pub open spec fn zip_scope(params: Seq<TypeModel>, args: Seq<TypeModel>, n: nat) -> Option<Table>
    decreases n,
{
    if n == 0 {
        Some(Map::empty())
    } else {
        match zip_scope(params, args, (n - 1) as nat) {
            Some(scope) => match params[n - 1] {
                TypeModel::Generic { name } => Some(scope.insert(name, args[n - 1])),
                _ => None,
            },
            None => None,
        }
    }
}

/// The smaller of two lengths.
pub open spec fn shorter(a: nat, b: nat) -> nat {
    if a <= b {
        a
    } else {
        b
    }
}

/// The generic scope of an instanced type: for an object, its declared
/// generic parameters bound position by position to the supplied arguments,
/// as far as both lists go; for a program, the empty scope.
pub open spec fn generic_scope(instance: InstancedModel) -> Result<Table, ResolutionErrorModel> {
    match instance.source {
        TypeModel::Object { generic_params, .. } => {
            let params = match generic_params {
                Some(p) => p,
                None => Seq::empty(),
            };
            match zip_scope(
                params,
                instance.generic_args,
                shorter(params.len(), instance.generic_args.len()),
            ) {
                Some(scope) => Ok(scope),
                None => Err(ResolutionErrorModel::CanOnlyCreateScopesForObjectTypes),
            }
        },
        TypeModel::Program { .. } => Ok(Map::empty()),
        _ => Err(ResolutionErrorModel::CanOnlyCreateScopesForObjectTypes),
    }
}

/// The member called `symbol` of the type `source`: a member of an object's
/// body, or, for a program, a binding of the table `globals`.
pub open spec fn member_of(source: TypeModel, symbol: Seq<char>, globals: Table) -> Result<
    TypeModel,
    ResolutionErrorModel,
> {
    match source {
        TypeModel::Object { name, body, .. } => if body.contains_key(symbol) {
            Ok(body[symbol])
        } else {
            Err(ResolutionErrorModel::SymbolNotInObjectOfType { object_name: name, symbol })
        },
        TypeModel::Program { .. } => if globals.contains_key(symbol) {
            Ok(globals[symbol])
        } else {
            Err(ResolutionErrorModel::SymNotFoundInGlobal { symbol })
        },
        _ => Err(ResolutionErrorModel::CannotResolveOnNonObject),
    }
}

/// One hop of a resolution: the member called `symbol` is looked up, freed of
/// its field wrappers, rewritten by the generic scope of `instance`, and made
/// a root again.
pub open spec fn resolve_sym_model(
    instance: InstancedModel,
    symbol: Seq<char>,
    globals: Table,
) -> Resolved {
    match member_of(instance.source, symbol, globals) {
        Err(e) => Err(e),
        Ok(member) => match generic_scope(instance) {
            Err(e) => Err(e),
            Ok(scope) => instance_of(apply_scope(strip_fields(member), scope), globals),
        },
    }
}

/// A chain of hops from left to right, ending at the first that fails.
pub open spec fn resolve_chain_model(
    instance: InstancedModel,
    symbols: Seq<Seq<char>>,
    globals: Table,
) -> Resolved
    decreases symbols.len(),
{
    if symbols.len() == 0 {
        Ok(instance)
    } else {
        match resolve_sym_model(instance, symbols[0], globals) {
            Ok(next) => resolve_chain_model(next, symbols.skip(1), globals),
            Err(e) => Err(e),
        }
    }
}

/// Once a declared parameter is no placeholder, no longer prefix has a scope.
pub proof fn lemma_zip_scope_fails(params: Seq<TypeModel>, args: Seq<TypeModel>, k: nat, n: nat)
    requires
        k <= n,
        zip_scope(params, args, k) is None,
    ensures
        zip_scope(params, args, n) is None,
    decreases n,
{
    if k < n {
        lemma_zip_scope_fails(params, args, k, (n - 1) as nat);
    }
}

/// A chain in two parts is resolved part after part: the second part starts
/// where the first one ended, and a failure of the first part is the failure
/// of the whole.
pub proof fn lemma_resolve_chain_concat(
    instance: InstancedModel,
    first: Seq<Seq<char>>,
    second: Seq<Seq<char>>,
    globals: Table,
)
    ensures
        resolve_chain_model(instance, first + second, globals) == match resolve_chain_model(
            instance,
            first,
            globals,
        ) {
            Ok(middle) => resolve_chain_model(middle, second, globals),
            Err(e) => Err(e),
        },
    decreases first.len(),
{
    if first.len() == 0 {
        assert(first + second == second);
    } else {
        let whole = first + second;
        assert(whole[0] == first[0]);
        assert(whole.skip(1) == first.skip(1) + second);
        match resolve_sym_model(instance, first[0], globals) {
            Ok(next) => {
                lemma_resolve_chain_concat(next, first.skip(1), second, globals);
            },
            Err(e) => {},
        }
    }
}

/// A chain of one symbol is one hop.
pub proof fn lemma_resolve_chain_single(
    instance: InstancedModel,
    symbol: Seq<char>,
    globals: Table,
)
    ensures
        resolve_chain_model(instance, seq![symbol], globals) == resolve_sym_model(
            instance,
            symbol,
            globals,
        ),
{
    let s = seq![symbol];
    assert(s.skip(1).len() == 0);
    match resolve_sym_model(instance, symbol, globals) {
        Ok(next) => {
            assert(resolve_chain_model(next, s.skip(1), globals) == Ok::<
                InstancedModel,
                ResolutionErrorModel,
            >(next));
        },
        Err(e) => {},
    }
}

/// Resolving a symbol that an object does not have fails with the name of the
/// object and the symbol, whatever the object and the table are.
pub proof fn lemma_missing_symbol(instance: InstancedModel, symbol: Seq<char>, globals: Table)
    requires
        instance.source is Object,
        !instance.source->Object_body.contains_key(symbol),
    ensures
        resolve_sym_model(instance, symbol, globals) == Err::<
            InstancedModel,
            ResolutionErrorModel,
        >(
            ResolutionErrorModel::SymbolNotInObjectOfType {
                object_name: instance.source->Object_name,
                symbol,
            },
        ),
{
}

/// No binding of the table is a bare field.
pub open spec fn field_free(globals: Table) -> bool {
    forall|name: Seq<char>| globals.contains_key(name) ==> !(#[trigger] globals[name] is Field)
}

/// A type freed of its field wrappers is no field.
pub proof fn lemma_strip_fields_is_no_field(t: TypeModel)
    ensures
        !(strip_fields(t) is Field),
    decreases t,
{
    match t {
        TypeModel::Field { value_type, .. } => {
            lemma_strip_fields_is_no_field(*value_type);
        },
        _ => {},
    }
}

/// The root made of any type against a table without bare fields is no field.
pub proof fn lemma_instance_is_no_field(t: TypeModel, globals: Table)
    requires
        field_free(globals),
    ensures
        instance_of(t, globals) matches Ok(root) ==> !(root.source is Field),
    decreases t,
{
    match t {
        TypeModel::Field { value_type, .. } => {
            lemma_instance_is_no_field(*value_type, globals);
        },
        _ => {},
    }
}

/// Resolving a symbol never yields a bare field: against a table without bare
/// fields, what comes out of a hop has a source that is no field.
pub proof fn lemma_resolve_sym_unwraps_fields(
    instance: InstancedModel,
    symbol: Seq<char>,
    globals: Table,
)
    requires
        field_free(globals),
    ensures
        resolve_sym_model(instance, symbol, globals) matches Ok(root) ==> !(root.source is Field),
{
    match member_of(instance.source, symbol, globals) {
        Ok(member) => match generic_scope(instance) {
            Ok(scope) => {
                lemma_instance_is_no_field(apply_scope(strip_fields(member), scope), globals);
            },
            Err(e) => {},
        },
        Err(e) => {},
    }
}

/// Resolving a field of an object yields the root made of the field's value
/// type, rewritten by the generic scope of the instance.
pub proof fn lemma_resolve_field(
    instance: InstancedModel,
    symbol: Seq<char>,
    globals: Table,
    value_type: TypeModel,
    scope: Table,
)
    requires
        instance.source is Object,
        instance.source->Object_body.contains_key(symbol),
        instance.source->Object_body[symbol] is Field,
        *instance.source->Object_body[symbol]->Field_value_type == value_type,
        !(value_type is Field),
        generic_scope(instance) == Ok::<Table, ResolutionErrorModel>(scope),
    ensures
        resolve_sym_model(instance, symbol, globals) == instance_of(
            apply_scope(value_type, scope),
            globals,
        ),
{
    reveal_with_fuel(strip_fields, 2);
}


/// Resolving a field whose declared type is the bare name of a generic
/// parameter yields the root made of the argument bound to that name, not
/// the placeholder.
pub proof fn lemma_generic_field_substitution(
    instance: InstancedModel,
    symbol: Seq<char>,
    globals: Table,
    parameter: Seq<char>,
    scope: Table,
)
    requires
        instance.source is Object,
        instance.source->Object_body.contains_key(symbol),
        instance.source->Object_body[symbol] is Field,
        *instance.source->Object_body[symbol]->Field_value_type == (TypeModel::Ref {
            name: parameter,
            generic_args: None,
        }),
        generic_scope(instance) == Ok::<Table, ResolutionErrorModel>(scope),
        scope.contains_key(parameter),
    ensures
        resolve_sym_model(instance, symbol, globals) == instance_of(scope[parameter], globals),
{
    reveal_with_fuel(strip_fields, 2);
}

/// The scope of an object with one generic parameter and one argument binds
/// the parameter to the argument.
pub proof fn lemma_scope_of_one_parameter(
    instance: InstancedModel,
    parameter: Seq<char>,
    argument: TypeModel,
)
    requires
        instance.source is Object,
        instance.source->Object_generic_params == Some(
            seq![TypeModel::Generic { name: parameter }],
        ),
        instance.generic_args == seq![argument],
    ensures
        generic_scope(instance) == Ok::<Table, ResolutionErrorModel>(
            Map::<Seq<char>, TypeModel>::empty().insert(parameter, argument),
        ),
{
    let params = seq![TypeModel::Generic { name: parameter }];
    let args = seq![argument];
    reveal_with_fuel(zip_scope, 2);
    assert(zip_scope(params, args, 0) == Some(Map::<Seq<char>, TypeModel>::empty()));
    assert(zip_scope(params, args, 1) == Some(
        Map::<Seq<char>, TypeModel>::empty().insert(parameter, argument),
    ));
}

/// A field of a generic object that refers to the object's own type, with
/// the object's parameter as argument, resolves to the very instance it is
/// looked up in: a self-referential declaration is followed one hop at a
/// time and never unfolded.
pub proof fn lemma_self_reference_resolves_to_itself(
    instance: InstancedModel,
    symbol: Seq<char>,
    globals: Table,
    parameter: Seq<char>,
    argument: TypeModel,
    own_name: Seq<char>,
)
    requires
        instance.source is Object,
        instance.source->Object_generic_params == Some(
            seq![TypeModel::Generic { name: parameter }],
        ),
        instance.generic_args == seq![argument],
        instance.source->Object_body.contains_key(symbol),
        instance.source->Object_body[symbol] is Field,
        *instance.source->Object_body[symbol]->Field_value_type == (TypeModel::Ref {
            name: own_name,
            generic_args: Some(seq![TypeModel::Ref { name: parameter, generic_args: None }]),
        }),
        globals.contains_key(own_name),
        globals[own_name] == instance.source,
    ensures
        resolve_sym_model(instance, symbol, globals) == Ok::<InstancedModel, ResolutionErrorModel>(
            instance,
        ),
{
    reveal_with_fuel(strip_fields, 2);
    lemma_scope_of_one_parameter(instance, parameter, argument);
    let scope = Map::<Seq<char>, TypeModel>::empty().insert(parameter, argument);
    let declared = TypeModel::Ref {
        name: own_name,
        generic_args: Some(seq![TypeModel::Ref { name: parameter, generic_args: None }]),
    };
    let inner = seq![TypeModel::Ref { name: parameter, generic_args: None }];
    assert(apply_scope(inner[0], scope) == argument);
    assert(apply_scope_all(inner, scope) =~= seq![argument]);
    assert(apply_scope(declared, scope) == TypeModel::Ref {
        name: own_name,
        generic_args: Some(seq![argument]),
    });
}

/// Following such a self-referential field any number of times ends at the
/// instance that the chain started from.
pub proof fn lemma_self_reference_chain(
    instance: InstancedModel,
    symbol: Seq<char>,
    hops: nat,
    globals: Table,
    parameter: Seq<char>,
    argument: TypeModel,
    own_name: Seq<char>,
)
    requires
        instance.source is Object,
        instance.source->Object_generic_params == Some(
            seq![TypeModel::Generic { name: parameter }],
        ),
        instance.generic_args == seq![argument],
        instance.source->Object_body.contains_key(symbol),
        instance.source->Object_body[symbol] is Field,
        *instance.source->Object_body[symbol]->Field_value_type == (TypeModel::Ref {
            name: own_name,
            generic_args: Some(seq![TypeModel::Ref { name: parameter, generic_args: None }]),
        }),
        globals.contains_key(own_name),
        globals[own_name] == instance.source,
    ensures
        resolve_chain_model(instance, Seq::new(hops, |i: int| symbol), globals) == Ok::<
            InstancedModel,
            ResolutionErrorModel,
        >(instance),
    decreases hops,
{
    let chain = Seq::new(hops, |i: int| symbol);
    if hops > 0 {
        lemma_self_reference_resolves_to_itself(
            instance,
            symbol,
            globals,
            parameter,
            argument,
            own_name,
        );
        assert(chain[0] == symbol);
        assert(chain.skip(1) =~= Seq::new((hops - 1) as nat, |i: int| symbol));
        lemma_self_reference_chain(
            instance,
            symbol,
            (hops - 1) as nat,
            globals,
            parameter,
            argument,
            own_name,
        );
    }
}

/// A field declared with the bare name of a global object type resolves to
/// what that name resolves to on the program itself: a chain through
/// fields ends where the name of the last field's type leads.
pub proof fn lemma_field_resolves_like_its_type(
    instance: InstancedModel,
    program: InstancedModel,
    symbol: Seq<char>,
    globals: Table,
    declared: Seq<char>,
)
    requires
        instance.source is Object,
        instance.source->Object_body.contains_key(symbol),
        instance.source->Object_body[symbol] is Field,
        *instance.source->Object_body[symbol]->Field_value_type == (TypeModel::Ref {
            name: declared,
            generic_args: None,
        }),
        generic_scope(instance) matches Ok(scope) && !scope.contains_key(declared),
        program.source is Program,
        globals.contains_key(declared),
        globals[declared] is Object,
    ensures
        resolve_sym_model(instance, symbol, globals) == resolve_sym_model(
            program,
            declared,
            globals,
        ),
        resolve_sym_model(instance, symbol, globals) == Ok::<InstancedModel, ResolutionErrorModel>(
            plain_instance(globals[declared]),
        ),
{
    reveal_with_fuel(strip_fields, 2);
    assert(generic_scope(program) == Ok::<Table, ResolutionErrorModel>(Map::empty()));
}

impl Clone for InstancedType {
    /// A copy that shares the source and every argument.
    fn clone(&self) -> (r: InstancedType)
        ensures
            r@ == self@,
            r.source == self.source,
            r.generic_args@ == self.generic_args@,
    {
        InstancedType { source: self.source.clone(), generic_args: clone_types(&self.generic_args) }
    }
}

impl SymbolNotInObjectOfType {
    pub fn new(object_name: String, symbol: String) -> (r: SymbolNotInObjectOfType)
        ensures
            r == (SymbolNotInObjectOfType { object_name, symbol }),
    {
        SymbolNotInObjectOfType { object_name, symbol }
    }

    pub fn object_name(&self) -> (r: &String)
        ensures
            *r == self.object_name,
    {
        &self.object_name
    }

    pub fn symbol(&self) -> (r: &String)
        ensures
            *r == self.symbol,
    {
        &self.symbol
    }
}

impl InstancedType {
    pub fn new(source: Rc<Type>, generic_args: Vec<Rc<Type>>) -> (r: InstancedType)
        ensures
            r == (InstancedType { source, generic_args }),
    {
        InstancedType { source, generic_args }
    }

    pub fn source(&self) -> (r: &Rc<Type>)
        ensures
            *r == self.source,
    {
        &self.source
    }

    pub fn generic_args(&self) -> (r: &Vec<Rc<Type>>)
        ensures
            *r == self.generic_args,
    {
        &self.generic_args
    }

    /// The type `source` as a root without generic arguments.
    pub fn plain(source: &Rc<Type>) -> (r: InstancedType)
        ensures
            r@ == plain_instance(source@),
            r.source == *source,
            r.generic_args@.len() == 0,
    {
        let r = InstancedType { source: source.clone(), generic_args: Vec::new() };
        proof {
            assert(types_model(r.generic_args@) == Seq::<TypeModel>::empty());
        }
        r
    }

    /// Makes `source` the root of a resolution against `global_types`. The
    /// scope of the use site is to be applied to `source` before the call.
    #[verifier::rlimit(50)]
    pub fn instance_type(source: &Rc<Type>, global_types: &TypeMap) -> (r: Result<
        InstancedType,
        TypeResolutionError,
    >)
        ensures
            resolved_model(r) == instance_of(source@, global_types@),
        decreases source,
    {
        match &**source {
            Type::ArrayType(_) => Ok(InstancedType::plain(source)),
            Type::RefType(ref_type) => {
                match global_types.get(ref_type.name.as_str()) {
                    Some(found) => {
                        let generic_args = match &ref_type.generic_params {
                            Some(args) => clone_types(args),
                            None => Vec::new(),
                        };
                        proof {
                            if ref_type.generic_params is None {
                                assert(types_model(generic_args@) == Seq::<TypeModel>::empty());
                            }
                        }
                        Ok(InstancedType { source: found.clone(), generic_args })
                    },
                    None => Err(TypeResolutionError::SymNotFoundInGlobal(ref_type.name.clone())),
                }
            },
            Type::MethodType(_) => Ok(InstancedType::plain(source)),
            Type::MethodOverloadType(_) => Err(TypeResolutionError::CannotInstance),
            Type::MethodParamType(_) => Err(TypeResolutionError::CannotInstance),
            Type::GenericType(_) => Err(TypeResolutionError::CannotInstance),
            Type::ObjectType(_) => Ok(InstancedType::plain(source)),
            Type::FieldType(field_type) => InstancedType::instance_type(
                &field_type.identifier_type,
                global_types,
            ),
            Type::ProgramType(_) => Ok(InstancedType::plain(source)),
        }
    }

    /// The generic scope in which the members of `self` are read.
    #[verifier::rlimit(50)]
    pub fn create_generic_param_scope(&self) -> (r: Result<Rc<TypeMap>, TypeResolutionError>)
        ensures
            scope_model(r) == generic_scope(self@),
    {
        match &*self.source {
            Type::ObjectType(obj_type) => {
                let mut scope = TypeMap::new();
                match &obj_type.generic_params {
                    Some(params) => {
                        let ghost p = types_model(params@);
                        let ghost a = types_model(self.generic_args@);
                        let n = if params.len() <= self.generic_args.len() {
                            params.len()
                        } else {
                            self.generic_args.len()
                        };
                        let mut i: usize = 0;
                        while i < n
                            invariant
                                i <= n,
                                n == shorter(params@.len(), self.generic_args@.len()),
                                p == types_model(params@),
                                a == types_model(self.generic_args@),
                                zip_scope(p, a, i as nat) == Some(scope@),
                                self@.source is Object,
                                self@.source->Object_generic_params == Some(p),
                            decreases n - i,
                        {
                            match &*params[i] {
                                Type::GenericType(generic) => {
                                    scope.insert(generic.name.clone(), self.generic_args[i].clone());
                                },
                                _ => {
                                    proof {
                                        assert(zip_scope(p, a, (i + 1) as nat) is None);
                                        lemma_zip_scope_fails(p, a, (i + 1) as nat, n as nat);
                                        assert(p.len() == params@.len());
                                        assert(a.len() == self.generic_args@.len());
                                    }
                                    return Err(
                                        TypeResolutionError::CanOnlyCreateScopesForObjectTypes,
                                    );
                                },
                            }
                            i = i + 1;
                        }
                    },
                    None => {
                        proof {
                            assert(zip_scope(
                                Seq::<TypeModel>::empty(),
                                types_model(self.generic_args@),
                                0,
                            ) == Some(scope@));
                        }
                    },
                }
                Ok(Rc::new(scope))
            },
            Type::ProgramType(_) => Ok(Rc::new(TypeMap::new())),
            _ => Err(TypeResolutionError::CanOnlyCreateScopesForObjectTypes),
        }
    }

    #[verifier::rlimit(50)]
    fn list_apply_scope(list: &Vec<Rc<Type>>, scope: &TypeMap) -> (r: Vec<Rc<Type>>)
        ensures
            types_model(r@) == apply_scope_all(types_model(list@), scope@),
        decreases list, 0int,
    {
        let mut r: Vec<Rc<Type>> = Vec::new();
        let mut i: usize = 0;
        while i < list.len()
            invariant
                i <= list@.len(),
                r@.len() == i,
                forall|j: int| 0 <= j < i ==> (#[trigger] r@[j])@ == apply_scope(list@[j]@, scope@),
            decreases list@.len() - i,
        {
            let item = Self::apply_type_scope(&list[i], scope);
            r.push(item);
            i = i + 1;
        }
        proof {
            assert(types_model(r@) =~= apply_scope_all(types_model(list@), scope@));
        }
        r
    }

    fn opt_list_apply_scope(list: &Option<Vec<Rc<Type>>>, scope: &TypeMap) -> (r: Option<
        Vec<Rc<Type>>,
    >)
        ensures
            opt_types_model(r) == apply_scope_opt(opt_types_model(*list), scope@),
        decreases list, 1int,
    {
        match list {
            Some(v) => Some(Self::list_apply_scope(v, scope)),
            None => None,
        }
    }

    fn array_type_apply_scope(array_type: &ArrayType, scope: &TypeMap) -> (r: Rc<Type>)
        ensures
            r@ == apply_scope(array_type@, scope@),
        decreases array_type, 2int,
    {
        Rc::new(
            Type::ArrayType(
                ArrayType::new(
                    array_type.arity,
                    Self::apply_type_scope(&array_type.ref_type, scope),
                ),
            ),
        )
    }

    #[verifier::rlimit(50)]
    fn type_ref_apply_scope(source: &Rc<Type>, ref_type: &RefType, scope: &TypeMap) -> (r: Rc<
        Type,
    >)
        requires
            **source == Type::RefType(*ref_type),
        ensures
            r@ == apply_scope(ref_type@, scope@),
        decreases ref_type, 2int,
    {
        match &ref_type.generic_params {
            Some(generic_params) => Rc::new(
                Type::RefType(
                    RefType::new(
                        ref_type.name.clone(),
                        Some(Self::list_apply_scope(generic_params, scope)),
                    ),
                ),
            ),
            None => match scope.get(ref_type.name.as_str()) {
                Some(bound) => bound.clone(),
                None => source.clone(),
            },
        }
    }

    fn method_type_apply_scope(method_type: &MethodType, scope: &TypeMap) -> (r: Rc<Type>)
        ensures
            r@ == apply_scope(method_type@, scope@),
        decreases method_type, 2int,
    {
        Rc::new(
            Type::MethodType(MethodType::new(Self::list_apply_scope(&method_type.overloads, scope))),
        )
    }

    #[verifier::rlimit(50)]
    fn method_overload_apply_scope(overload_type: &MethodOverloadType, scope: &TypeMap) -> (r: Rc<
        Type,
    >)
        ensures
            r@ == apply_scope(overload_type@, scope@),
        decreases overload_type, 2int,
    {
        let params = Self::list_apply_scope(&overload_type.params, scope);
        let generic_types = Self::opt_list_apply_scope(&overload_type.generic_types, scope);
        let return_type = match &overload_type.return_type {
            Some(t) => Some(Self::apply_type_scope(t, scope)),
            None => None,
        };
        Rc::new(Type::MethodOverloadType(MethodOverloadType::new(params, generic_types, return_type)))
    }

    fn method_param_type_apply_scope(method_params_type: &MethodParamType, scope: &TypeMap) -> (r:
        Rc<Type>)
        ensures
            r@ == apply_scope(method_params_type@, scope@),
        decreases method_params_type, 2int,
    {
        Rc::new(
            Type::MethodParamType(
                MethodParamType::new(
                    Self::apply_type_scope(&method_params_type.ref_type, scope),
                    method_params_type.is_variadic,
                ),
            ),
        )
    }

    /// Rewrites `source` by `scope`: the names that `scope` binds are
    /// replaced by what it binds them to.
    pub fn apply_type_scope(source: &Rc<Type>, scope: &TypeMap) -> (r: Rc<Type>)
        ensures
            r@ == apply_scope(source@, scope@),
        decreases source, 3int,
    {
        match &**source {
            Type::ArrayType(array_type) => Self::array_type_apply_scope(array_type, scope),
            Type::RefType(ref_type) => Self::type_ref_apply_scope(source, ref_type, scope),
            Type::MethodType(method_type) => Self::method_type_apply_scope(method_type, scope),
            Type::MethodOverloadType(overload_type) => Self::method_overload_apply_scope(
                overload_type,
                scope,
            ),
            Type::MethodParamType(method_params_type) => Self::method_param_type_apply_scope(
                method_params_type,
                scope,
            ),
            Type::GenericType(_) => source.clone(),
            Type::ObjectType(_) => source.clone(),
            Type::FieldType(_) => source.clone(),
            Type::ProgramType(_) => source.clone(),
        }
    }

    fn unwrap_sym(source: &Rc<Type>) -> (r: &Rc<Type>)
        ensures
            r@ == strip_fields(source@),
        decreases source,
    {
        match &**source {
            Type::FieldType(field_type) => Self::unwrap_sym(&field_type.identifier_type),
            _ => source,
        }
    }

    /// Resolves `symbol` against `self`: one hop of a dotted reference.
    #[verifier::rlimit(50)]
    pub fn resolve_sym(&self, symbol: &str, global_types: &TypeMap) -> (r: Result<
        InstancedType,
        TypeResolutionError,
    >)
        ensures
            resolved_model(r) == resolve_sym_model(self@, symbol@, global_types@),
            field_free(global_types@) ==> (r matches Ok(found) ==> !(found@.source is Field)),
    {
        proof {
            if field_free(global_types@) {
                lemma_resolve_sym_unwraps_fields(self@, symbol@, global_types@);
            }
        }
        let sym_type = match &*self.source {
            Type::ObjectType(obj_type) => {
                match obj_type.body.get(symbol) {
                    Some(value) => value,
                    None => {
                        return Err(
                            TypeResolutionError::SymbolNotInObjectOfType(
                                SymbolNotInObjectOfType::new(
                                    obj_type.name.clone(),
                                    symbol.to_owned(),
                                ),
                            ),
                        );
                    },
                }
            },
            Type::ProgramType(_) => match global_types.get(symbol) {
                Some(result) => result,
                None => {
                    return Err(TypeResolutionError::SymNotFoundInGlobal(symbol.to_owned()));
                },
            },
            _ => {
                return Err(TypeResolutionError::CannotResolveOnNonObject);
            },
        };
        let sym_type = Self::unwrap_sym(sym_type);
        let scope = match self.create_generic_param_scope() {
            Ok(val) => val,
            Err(err) => {
                return Err(err);
            },
        };
        Self::instance_type(&Self::apply_type_scope(sym_type, &scope), global_types)
    }

    /// Resolves a dotted reference symbol by symbol, from left to right, and
    /// ends at the first symbol that cannot be resolved.
    #[verifier::rlimit(50)]
    pub fn resolve_chain(&self, symbols: &[&str], global_types: &TypeMap) -> (r: Result<
        InstancedType,
        TypeResolutionError,
    >)
        ensures
            resolved_model(r) == resolve_chain_model(
                self@,
                symbols_model(symbols@),
                global_types@,
            ),
    {
        let ghost all = symbols_model(symbols@);
        let mut current = self.clone();
        let mut i: usize = 0;
        proof {
            assert(all.skip(0) == all);
        }
        while i < symbols.len()
            invariant
                i <= symbols@.len(),
                all == symbols_model(symbols@),
                resolve_chain_model(self@, all, global_types@) == resolve_chain_model(
                    current@,
                    all.skip(i as int),
                    global_types@,
                ),
            decreases symbols@.len() - i,
        {
            proof {
                assert(all.skip(i as int)[0] == symbols@[i as int]@);
                assert(all.skip(i as int).skip(1) == all.skip(i + 1));
            }
            match current.resolve_sym(symbols[i], global_types) {
                Ok(val) => {
                    current = val;
                },
                Err(err) => {
                    return Err(err);
                },
            }
            i = i + 1;
        }
        Ok(current)
    }
}

} // verus!
