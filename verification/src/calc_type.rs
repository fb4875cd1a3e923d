use crate::st_ast::{
    ast_model, asts_model, node_name, opt_ast_model, opt_asts_model, parent_model, path_names,
    typing_model, ArrayDecl, AstModel, FieldDecl, GenericParamDecl, GlobalDecl, IdentifierDecl,
    LambdaDecl, MethodDecl, MethodParamDecl, NodeData, NodeModel, StAst, SymbolNode, TypeDecl,
    TypeName, TypeProgramNode, TypeRefDecl, Typing, UnitDecl,
};
use crate::types::{
    clone_types, opt_types_model, types_model, ArrayType, FieldType, GenericType,
    MethodOverloadType, MethodParamType, MethodType, ObjectType, ProgramType, RefType, Type,
    TypeMap, TypeModel,
};
use crate::text::join_seq;
use std::rc::Rc;
use vstd::prelude::*;

verus! {

/// Marks what takes part in the computation of types.
pub trait CalcType {

}

/// The method type with the one overload made of the given parts.
pub open spec fn overload_set(
    params: Seq<TypeModel>,
    generics: Option<Seq<TypeModel>>,
    return_type: Option<TypeModel>,
) -> TypeModel {
    TypeModel::Method {
        overloads: seq![
            TypeModel::Overload {
                params,
                generics,
                return_type: match return_type {
                    Some(t) => Some(Box::new(t)),
                    None => None,
                },
            },
        ],
    }
}

/// The overloads that `members` already has under `name`: those of a method
/// of that name, and none if the name is free or bound to something else.
pub open spec fn overloads_so_far(members: Map<Seq<char>, TypeModel>, name: Seq<char>) -> Seq<
    TypeModel,
> {
    if members.contains_key(name) {
        match members[name] {
            TypeModel::Method { overloads } => overloads,
            _ => Seq::empty(),
        }
    } else {
        Seq::empty()
    }
}

/// The members of a body after one more statement: a method adds its
/// overloads behind those that its name already has; any other member
/// replaces what its name was bound to.
pub open spec fn with_member(
    members: Map<Seq<char>, TypeModel>,
    name: Seq<char>,
    member: TypeModel,
) -> Map<Seq<char>, TypeModel> {
    match member {
        TypeModel::Method { overloads } => members.insert(
            name,
            TypeModel::Method { overloads: overloads_so_far(members, name) + overloads },
        ),
        _ => members.insert(name, member),
    }
}

/// The types of a list of nodes, none of which is handed a type from above.
pub open spec fn types_of(s: Seq<AstModel>) -> Seq<TypeModel>
    decreases s, 0int,
{
    Seq::new(
        s.len(),
        |i: int|
            if 0 <= i < s.len() {
                type_of(s[i], None).1
            } else {
                TypeModel::Method { overloads: Seq::empty() }
            },
    )
}

/// The members that the statements of a body declare, in source order.
pub open spec fn members_of(s: Seq<AstModel>) -> Map<Seq<char>, TypeModel>
    decreases s, 0int,
{
    if s.len() == 0 {
        Map::empty()
    } else {
        let typing = type_of(s.last(), None);
        with_member(members_of(s.drop_last()), typing.0.unwrap(), typing.1)
    }
}

/// The bindings that the statements of a program declare, a later one
/// replacing an earlier one of the same name.
pub open spec fn bindings_of(s: Seq<AstModel>) -> Map<Seq<char>, TypeModel>
    decreases s, 0int,
{
    if s.len() == 0 {
        Map::empty()
    } else {
        let typing = type_of(s.last(), None);
        bindings_of(s.drop_last()).insert(typing.0.unwrap(), typing.1)
    }
}

/// The name and type that the rule of a node's kind gives it. `parent` is
/// the type that the enclosing declaration decided on: a name takes it as its
/// own type.
pub open spec fn node_type(d: NodeModel, parent: Option<TypeModel>) -> Typing
    decreases d, 1int,
{
    match d {
        NodeModel::SymbolNode { name } => (Some(name), parent.unwrap()),
        NodeModel::TypeName { path } => (
            Some(join_seq(path_names(path), "::"@)),
            parent.unwrap(),
        ),
        NodeModel::ArrayDecl { arity, type_decl } => (
            None,
            TypeModel::Array { arity, element: Box::new(type_of(*type_decl, None).1) },
        ),
        NodeModel::TypeRefDecl { name, generic_decl } => (
            None,
            TypeModel::Ref {
                name: node_name(*name).unwrap(),
                generic_args: match generic_decl {
                    Some(s) => Some(types_of(s)),
                    None => None,
                },
            },
        ),
        NodeModel::LambdaDecl { generic_params, params, return_type } => (
            None,
            overload_set(
                types_of(params),
                match generic_params {
                    Some(s) => Some(types_of(s)),
                    None => None,
                },
                match return_type {
                    Some(b) => Some(type_of(*b, None).1),
                    None => None,
                },
            ),
        ),
        NodeModel::MethodParamDecl { type_ref, variadic } => (
            type_of(*type_ref, None).0,
            TypeModel::Param {
                param_type: Box::new(type_of(*type_ref, None).1),
                is_variadic: variadic,
            },
        ),
        NodeModel::GenericParamDecl { name, inherits } => (
            node_name(*name),
            TypeModel::Generic { name: node_name(*name).unwrap() },
        ),
        NodeModel::IdentifierDecl { name, type_ref } => (
            Some(node_name(*name).unwrap()),
            type_of(*type_ref, None).1,
        ),
        NodeModel::TypeDecl { name, generic_params, inherits, body } => (
            Some(node_name(*name).unwrap()),
            TypeModel::Object {
                name: node_name(*name).unwrap(),
                inherits: match inherits {
                    Some(s) => Some(types_of(s)),
                    None => None,
                },
                generic_params: match generic_params {
                    Some(s) => Some(types_of(s)),
                    None => None,
                },
                body: match body {
                    Some(s) => members_of(s),
                    None => Map::empty(),
                },
            },
        ),
        NodeModel::FieldDecl { identifier, is_static } => (
            type_of(*identifier, None).0,
            TypeModel::Field { value_type: Box::new(type_of(*identifier, None).1), is_static },
        ),
        NodeModel::MethodDecl { name, generic_params, params, return_type, is_static } => (
            Some(node_name(*name).unwrap()),
            overload_set(
                types_of(params),
                match generic_params {
                    Some(s) => Some(types_of(s)),
                    None => None,
                },
                match return_type {
                    Some(b) => Some(type_of(*b, None).1),
                    None => None,
                },
            ),
        ),
        NodeModel::GlobalDecl { identifier } => type_of(*identifier, parent),
        NodeModel::TypeProgramNode { statements } => (
            None,
            TypeModel::Program { types: bindings_of(statements) },
        ),
        NodeModel::UnitDecl { unit } => type_of(*unit, parent),
    }
}

/// The name and type of a node: what is remembered for it, or else what the
/// rule of its kind gives.
pub open spec fn type_of(a: AstModel, parent: Option<TypeModel>) -> Typing
    decreases a, 2int,
{
    match a.cached {
        Some(c) => c,
        None => node_type(a.data, parent),
    }
}

/// A list of nodes after the type of each has been computed.
pub open spec fn memoized_all(s: Seq<AstModel>) -> Seq<AstModel>
    decreases s, 0int,
{
    Seq::new(
        s.len(),
        |i: int|
            if 0 <= i < s.len() {
                memoized(s[i], None)
            } else {
                s[i]
            },
    )
}

/// What a node holds after the rule of its kind has run: every node below
/// that the rule asks for its type remembers it, and the name of a
/// declaration remembers the type of the declaration.
pub open spec fn memoized_node(d: NodeModel, parent: Option<TypeModel>) -> NodeModel
    decreases d, 1int,
{
    let decided = Some(node_type(d, parent).1);
    match d {
        NodeModel::SymbolNode { .. } => d,
        NodeModel::TypeName { .. } => d,
        NodeModel::ArrayDecl { arity, type_decl } => NodeModel::ArrayDecl {
            arity,
            type_decl: Box::new(memoized(*type_decl, None)),
        },
        NodeModel::TypeRefDecl { name, generic_decl } => NodeModel::TypeRefDecl {
            name: Box::new(memoized(*name, decided)),
            generic_decl: match generic_decl {
                Some(s) => Some(memoized_all(s)),
                None => None,
            },
        },
        NodeModel::LambdaDecl { generic_params, params, return_type } => NodeModel::LambdaDecl {
            generic_params: match generic_params {
                Some(s) => Some(memoized_all(s)),
                None => None,
            },
            params: memoized_all(params),
            return_type: match return_type {
                Some(b) => Some(Box::new(memoized(*b, None))),
                None => None,
            },
        },
        NodeModel::MethodParamDecl { type_ref, variadic } => NodeModel::MethodParamDecl {
            type_ref: Box::new(memoized(*type_ref, None)),
            variadic,
        },
        NodeModel::GenericParamDecl { name, inherits } => NodeModel::GenericParamDecl {
            name: Box::new(memoized(*name, decided)),
            inherits,
        },
        NodeModel::IdentifierDecl { name, type_ref } => NodeModel::IdentifierDecl {
            name: Box::new(memoized(*name, decided)),
            type_ref: Box::new(memoized(*type_ref, None)),
        },
        NodeModel::TypeDecl { name, generic_params, inherits, body } => NodeModel::TypeDecl {
            name: Box::new(memoized(*name, decided)),
            generic_params: match generic_params {
                Some(s) => Some(memoized_all(s)),
                None => None,
            },
            inherits: match inherits {
                Some(s) => Some(memoized_all(s)),
                None => None,
            },
            body: match body {
                Some(s) => Some(memoized_all(s)),
                None => None,
            },
        },
        NodeModel::FieldDecl { identifier, is_static } => NodeModel::FieldDecl {
            identifier: Box::new(memoized(*identifier, None)),
            is_static,
        },
        NodeModel::MethodDecl {
            name,
            generic_params,
            params,
            return_type,
            is_static,
        } => NodeModel::MethodDecl {
            name: Box::new(memoized(*name, decided)),
            generic_params: match generic_params {
                Some(s) => Some(memoized_all(s)),
                None => None,
            },
            params: memoized_all(params),
            return_type: match return_type {
                Some(b) => Some(Box::new(memoized(*b, None))),
                None => None,
            },
            is_static,
        },
        NodeModel::GlobalDecl { identifier } => NodeModel::GlobalDecl {
            identifier: Box::new(memoized(*identifier, parent)),
        },
        NodeModel::TypeProgramNode { statements } => NodeModel::TypeProgramNode {
            statements: memoized_all(statements),
        },
        NodeModel::UnitDecl { unit } => NodeModel::UnitDecl {
            unit: Box::new(memoized(*unit, parent)),
        },
    }
}

/// A node after its type has been computed: a node that remembers a type
/// stays as it is, with all that is below it; any other node remembers the
/// type computed for it.
pub open spec fn memoized(a: AstModel, parent: Option<TypeModel>) -> AstModel
    decreases a, 2int,
{
    match a.cached {
        Some(c) => a,
        None => AstModel {
            start: a.start,
            end: a.end,
            data: memoized_node(a.data, parent),
            cached: Some(node_type(a.data, parent)),
        },
    }
}

/// Every node of the list has a type without being handed one from above.
pub open spec fn all_typable(s: Seq<AstModel>) -> bool
    decreases s, 0int,
{
    forall|i: int| 0 <= i < s.len() ==> typable(#[trigger] s[i], false)
}

/// Every node of an optional list has a type without being handed one.
pub open spec fn opt_all_typable(o: Option<Seq<AstModel>>) -> bool {
    match o {
        Some(s) => all_typable(s),
        None => true,
    }
}

/// Every node of the list has a name as well as a type.
pub open spec fn all_named(s: Seq<AstModel>) -> bool {
    forall|i: int| 0 <= i < s.len() ==> (#[trigger] type_of(s[i], None)).0 is Some
}

/// Whether the rule of a node's kind applies: a name needs the type from
/// above, a declaration needs a name node for its name, the members of a body
/// and the statements of a program need names, and every node below that the
/// rule asks for its type must have one.
pub open spec fn node_typable(d: NodeModel, has_parent: bool) -> bool
    decreases d, 1int,
{
    match d {
        NodeModel::SymbolNode { .. } => has_parent,
        NodeModel::TypeName { .. } => has_parent,
        NodeModel::ArrayDecl { type_decl, .. } => typable(*type_decl, false),
        NodeModel::TypeRefDecl { name, generic_decl } => node_name(*name) is Some && (
        match generic_decl {
            Some(s) => all_typable(s),
            None => true,
        }),
        NodeModel::LambdaDecl { generic_params, params, return_type } => (match generic_params {
            Some(s) => all_typable(s),
            None => true,
        }) && all_typable(params) && (match return_type {
            Some(b) => typable(*b, false),
            None => true,
        }),
        NodeModel::MethodParamDecl { type_ref, .. } => typable(*type_ref, false),
        NodeModel::GenericParamDecl { name, .. } => node_name(*name) is Some,
        NodeModel::IdentifierDecl { name, type_ref } => node_name(*name) is Some && typable(
            *type_ref,
            false,
        ),
        NodeModel::TypeDecl { name, generic_params, inherits, body } => node_name(*name) is Some
            && (match generic_params {
            Some(s) => all_typable(s),
            None => true,
        }) && (match inherits {
            Some(s) => all_typable(s),
            None => true,
        }) && (match body {
            Some(s) => all_typable(s) && all_named(s),
            None => true,
        }),
        NodeModel::FieldDecl { identifier, .. } => typable(*identifier, false),
        NodeModel::MethodDecl { name, generic_params, params, return_type, .. } => node_name(
            *name,
        ) is Some && (match generic_params {
            Some(s) => all_typable(s),
            None => true,
        }) && all_typable(params) && (match return_type {
            Some(b) => typable(*b, false),
            None => true,
        }),
        NodeModel::GlobalDecl { identifier } => typable(*identifier, has_parent),
        NodeModel::TypeProgramNode { statements } => all_typable(statements) && all_named(
            statements,
        ),
        NodeModel::UnitDecl { unit } => typable(*unit, has_parent),
    }
}

/// Whether a node has a type: it remembers one, or the rule of its kind applies.
pub open spec fn typable(a: AstModel, has_parent: bool) -> bool
    decreases a, 2int,
{
    a.cached is Some || node_typable(a.data, has_parent)
}

/// Computing the type of a node twice gives the same name and type both
/// times, whatever is handed down the second time, and the second
/// computation leaves the tree as the first one left it: nothing is computed
/// again.
pub proof fn lemma_calc_type_idempotent(
    a: AstModel,
    first_parent: Option<TypeModel>,
    second_parent: Option<TypeModel>,
)
    ensures
        type_of(memoized(a, first_parent), second_parent) == type_of(a, first_parent),
        memoized(memoized(a, first_parent), second_parent) == memoized(a, first_parent),
        memoized(a, first_parent).cached == Some(type_of(a, first_parent)),
{
}

/// A method declared under a name that already holds a method joins it: the
/// name then holds one method, with the earlier overloads first and the
/// later ones behind them, and no other member changes.
pub proof fn lemma_overloads_merge_in_order(
    members: Map<Seq<char>, TypeModel>,
    name: Seq<char>,
    earlier: Seq<TypeModel>,
    later: Seq<TypeModel>,
)
    requires
        members.contains_key(name),
        members[name] == (TypeModel::Method { overloads: earlier }),
    ensures
        with_member(members, name, TypeModel::Method { overloads: later }) == members.insert(
            name,
            TypeModel::Method { overloads: earlier + later },
        ),
{
}

/// A method declared under a name that holds no method starts an overload
/// set of its own.
pub proof fn lemma_first_method_stands_alone(
    members: Map<Seq<char>, TypeModel>,
    name: Seq<char>,
    overloads: Seq<TypeModel>,
)
    requires
        !members.contains_key(name) || !(members[name] is Method),
    ensures
        with_member(members, name, TypeModel::Method { overloads }) == members.insert(
            name,
            TypeModel::Method { overloads },
        ),
{
    assert(Seq::<TypeModel>::empty() + overloads == overloads);
}

/// A member that is no method replaces what its name was bound to.
pub proof fn lemma_other_member_replaces(
    members: Map<Seq<char>, TypeModel>,
    name: Seq<char>,
    member: TypeModel,
)
    requires
        !(member is Method),
    ensures
        with_member(members, name, member) == members.insert(name, member),
{
}

/// A body of two methods of one name has one member: the method with the
/// overloads of the first followed by those of the second.
pub proof fn lemma_two_methods_make_one_member(
    first: AstModel,
    second: AstModel,
    name: Seq<char>,
    first_overloads: Seq<TypeModel>,
    second_overloads: Seq<TypeModel>,
)
    requires
        type_of(first, None) == (Some(name), TypeModel::Method { overloads: first_overloads }),
        type_of(second, None) == (Some(name), TypeModel::Method { overloads: second_overloads }),
    ensures
        members_of(seq![first, second]) == Map::<Seq<char>, TypeModel>::empty().insert(
            name,
            TypeModel::Method { overloads: first_overloads + second_overloads },
        ),
{
    let both = seq![first, second];
    let one = both.drop_last();
    assert(one == seq![first]);
    assert(one.drop_last() == Seq::<AstModel>::empty());
    assert(members_of(one.drop_last()) == Map::<Seq<char>, TypeModel>::empty());
    assert(one.last() == first);
    assert(both.last() == second);
    assert(Seq::<TypeModel>::empty() + first_overloads == first_overloads);
    let after_first = members_of(one);
    assert(after_first == Map::<Seq<char>, TypeModel>::empty().insert(
        name,
        TypeModel::Method { overloads: first_overloads },
    ));
    assert(members_of(both) == with_member(
        after_first,
        name,
        TypeModel::Method { overloads: second_overloads },
    ));
    assert(members_of(both) =~= Map::<Seq<char>, TypeModel>::empty().insert(
        name,
        TypeModel::Method { overloads: first_overloads + second_overloads },
    ));
}

/// A node that remembers a type has that type, whatever is below it and
/// whatever is handed down.
pub proof fn lemma_cached_type_wins(a: AstModel, parent: Option<TypeModel>)
    requires
        a.cached is Some,
    ensures
        type_of(a, parent) == a.cached->0,
        memoized(a, parent) == a,
        typable(a, parent is Some),
{
}


/// A copy of an optional name.
fn clone_name(name: &Option<String>) -> (r: Option<String>)
    ensures
        r == *name,
{
    match name {
        Some(n) => Some(n.clone()),
        None => None,
    }
}

/// Computes the types of the nodes of a list, none of which is handed a type
/// from above.
#[verifier::rlimit(50)]
pub fn calc_types(nodes: &mut Vec<StAst>) -> (r: Vec<Rc<Type>>)
    requires
        all_typable(asts_model(old(nodes)@)),
    ensures
        types_model(r@) == types_of(asts_model(old(nodes)@)),
        asts_model(final(nodes)@) == memoized_all(asts_model(old(nodes)@)),
    decreases *old(nodes), 0int,
{
    let ghost start = asts_model(nodes@);
    let ghost start_nodes = nodes@;
    let mut r: Vec<Rc<Type>> = Vec::new();
    let mut i: usize = 0;
    while i < nodes.len()
        invariant
            i <= nodes@.len(),
            nodes@.len() == start.len(),
            start == asts_model(start_nodes),
            start_nodes == old(nodes)@,
            all_typable(start),
            r@.len() == i,
            forall|j: int| 0 <= j < i ==> (#[trigger] r@[j])@ == type_of(start[j], None).1,
            forall|j: int| 0 <= j < i ==> ast_model(#[trigger] nodes@[j]) == memoized(start[j], None),
            forall|j: int| i <= j < start.len() ==> (#[trigger] nodes@[j]) == start_nodes[j],
        decreases nodes@.len() - i,
    {
        proof {
            assert(typable(start[i as int], false));
        }
        let typing = nodes[i].calc_type(None);
        r.push(Rc::new(typing.1));
        i = i + 1;
    }
    proof {
        assert(types_model(r@) =~= types_of(start));
        assert(asts_model(nodes@) =~= memoized_all(start));
    }
    r
}

/// Computes the types of the nodes of an optional list.
pub fn calc_opt_types(nodes: &mut Option<Vec<StAst>>) -> (r: Option<Vec<Rc<Type>>>)
    requires
        opt_all_typable(opt_asts_model(*old(nodes))),
    ensures
        opt_types_model(r) == (match opt_asts_model(*old(nodes)) {
            Some(s) => Some(types_of(s)),
            None => None,
        }),
        opt_asts_model(*final(nodes)) == (match opt_asts_model(*old(nodes)) {
            Some(s) => Some(memoized_all(s)),
            None => None,
        }),
    decreases *old(nodes), 1int,
{
    match nodes {
        Some(v) => Some(calc_types(v)),
        None => None,
    }
}

/// Computes the type of an optional node that is handed no type from above.
pub fn calc_opt_type(node: &mut Option<Box<StAst>>) -> (r: Option<Rc<Type>>)
    requires
        match *old(node) {
            Some(b) => typable(b@, false),
            None => true,
        },
    ensures
        (match r {
            Some(t) => Some(t@),
            None => None,
        }) == (match *old(node) {
            Some(b) => Some(type_of(b@, None).1),
            None => None,
        }),
        opt_ast_model(*final(node)) == (match *old(node) {
            Some(b) => Some(Box::new(memoized(b@, None))),
            None => None,
        }),
    decreases *old(node), 3int,
{
    match node {
        Some(b) => Some(Rc::new(b.calc_type(None).1)),
        None => None,
    }
}

impl Type {
    /// The method type with the one overload that the given parameters,
    /// generic parameters and return type declare.
    pub fn from_method_overload(
        params: &mut Vec<StAst>,
        generic_params: &mut Option<Vec<StAst>>,
        return_type: &mut Option<Box<StAst>>,
    ) -> (r: Type)
        requires
            all_typable(asts_model(old(params)@)),
            opt_all_typable(opt_asts_model(*old(generic_params))),
            match *old(return_type) {
                Some(b) => typable(b@, false),
                None => true,
            },
        ensures
            r@ == overload_set(
                types_of(asts_model(old(params)@)),
                match opt_asts_model(*old(generic_params)) {
                    Some(s) => Some(types_of(s)),
                    None => None,
                },
                match *old(return_type) {
                    Some(b) => Some(type_of(b@, None).1),
                    None => None,
                },
            ),
            asts_model(final(params)@) == memoized_all(asts_model(old(params)@)),
            opt_asts_model(*final(generic_params)) == (match opt_asts_model(*old(generic_params)) {
                Some(s) => Some(memoized_all(s)),
                None => None,
            }),
            opt_ast_model(*final(return_type)) == (match *old(return_type) {
                Some(b) => Some(Box::new(memoized(b@, None))),
                None => None,
            }),
    {
        let param_types = calc_types(params);
        let generic_types = calc_opt_types(generic_params);
        let return_type = calc_opt_type(return_type);
        Type::single_overload(param_types, generic_types, return_type)
    }

    /// The method type with the one overload made of the given parts.
    pub fn single_overload(
        params: Vec<Rc<Type>>,
        generic_types: Option<Vec<Rc<Type>>>,
        return_type: Option<Rc<Type>>,
    ) -> (r: Type)
        ensures
            r@ == overload_set(
                types_model(params@),
                opt_types_model(generic_types),
                match return_type {
                    Some(t) => Some(t@),
                    None => None,
                },
            ),
    {
        let overload = Rc::new(
            Type::MethodOverloadType(MethodOverloadType::new(params, generic_types, return_type)),
        );
        let mut overloads: Vec<Rc<Type>> = Vec::new();
        overloads.push(overload);
        proof {
            assert(overloads@.len() == 1);
            assert(overloads@[0] == overload);
            assert(types_model(overloads@) =~= seq![overload@]);
        }
        Type::MethodType(MethodType::new(overloads))
    }
}

impl StAst {
    /// The name and type of the node. The first call computes them by the
    /// rule of the node's kind and remembers them; a later call hands back
    /// what is remembered and computes nothing.
    #[verifier::rlimit(50)]
    pub fn calc_type(&mut self, parent_type: Option<&Type>) -> (r: (Option<String>, Type))
        requires
            typable(old(self)@, parent_type is Some),
        ensures
            typing_model(r) == type_of(old(self)@, parent_model(parent_type)),
            final(self)@ == memoized(old(self)@, parent_model(parent_type)),
            old(self).cached_type is Some ==> *final(self) == *old(self),
        decreases *old(self), 2int,
    {
        if self.cached_type.is_some() {
            return self.get_type();
        }
        let r = self.data.calc_type(parent_type);
        self.cached_type = Some((clone_name(&r.0), r.1.clone()));
        r
    }
}

impl NodeData {
    /// The name and type that the rule of the node's kind gives.
    #[verifier::rlimit(50)]
    pub fn calc_type(&mut self, parent_type: Option<&Type>) -> (r: (Option<String>, Type))
        requires
            node_typable(old(self)@, parent_type is Some),
        ensures
            typing_model(r) == node_type(old(self)@, parent_model(parent_type)),
            final(self)@ == memoized_node(old(self)@, parent_model(parent_type)),
        decreases *old(self), 1int,
    {
        match self {
            NodeData::SymbolNode(d) => d.calc_type(parent_type),
            NodeData::TypeName(d) => d.calc_type(parent_type),
            NodeData::ArrayDecl(d) => d.calc_type(parent_type),
            NodeData::TypeRefDecl(d) => d.calc_type(parent_type),
            NodeData::LambdaDecl(d) => d.calc_type(parent_type),
            NodeData::MethodParamDecl(d) => d.calc_type(parent_type),
            NodeData::GenericParamDecl(d) => d.calc_type(parent_type),
            NodeData::IdentifierDecl(d) => d.calc_type(parent_type),
            NodeData::TypeDecl(d) => d.calc_type(parent_type),
            NodeData::FieldDecl(d) => d.calc_type(parent_type),
            NodeData::MethodDecl(d) => d.calc_type(parent_type),
            NodeData::GlobalDecl(d) => d.calc_type(parent_type),
            NodeData::TypeProgramNode(d) => d.calc_type(parent_type),
            NodeData::UnitDecl(d) => d.calc_type(parent_type),
        }
    }
}

impl SymbolNode {
    /// A symbol has its own name and the type handed down to it.
    pub fn calc_type(&self, parent_type: Option<&Type>) -> (r: (Option<String>, Type))
        requires
            parent_type is Some,
        ensures
            typing_model(r) == node_type(self@, parent_model(parent_type)),
            self@ == memoized_node(self@, parent_model(parent_type)),
    {
        match parent_type {
            Some(t) => (Some(self.name.clone()), t.clone()),
            None => unreached(),
        }
    }
}

impl TypeName {
    /// A type name has the joined names of its path and the type handed down to it.
    pub fn calc_type(&self, parent_type: Option<&Type>) -> (r: (Option<String>, Type))
        requires
            parent_type is Some,
        ensures
            typing_model(r) == node_type(self@, parent_model(parent_type)),
            self@ == memoized_node(self@, parent_model(parent_type)),
    {
        match parent_type {
            Some(t) => (Some(StAst::joined_path(&self.path)), t.clone()),
            None => unreached(),
        }
    }
}

impl ArrayDecl {
    /// An array has no name; its type is the array of its element's type.
    pub fn calc_type(&mut self, _parent_type: Option<&Type>) -> (r: (Option<String>, Type))
        requires
            node_typable(old(self)@, _parent_type is Some),
        ensures
            typing_model(r) == node_type(old(self)@, parent_model(_parent_type)),
            final(self)@ == memoized_node(old(self)@, parent_model(_parent_type)),
        decreases *old(self), 0int,
    {
        let element = self.type_decl.calc_type(None).1;
        (None, Type::ArrayType(ArrayType::new(self.arity, Rc::new(element))))
    }
}

impl TypeRefDecl {
    /// A type reference has no name of its own; its type is the reference to
    /// the name it reads, with the types of its generic arguments. Its name
    /// node remembers that type.
    #[verifier::rlimit(50)]
    pub fn calc_type(&mut self, _parent_type: Option<&Type>) -> (r: (Option<String>, Type))
        requires
            node_typable(old(self)@, _parent_type is Some),
        ensures
            typing_model(r) == node_type(old(self)@, parent_model(_parent_type)),
            final(self)@ == memoized_node(old(self)@, parent_model(_parent_type)),
        decreases *old(self), 0int,
    {
        let name = match self.name.qualified_name() {
            Some(n) => n,
            None => unreached(),
        };
        let generic_params = calc_opt_types(&mut self.generic_decl);
        let output = Type::RefType(RefType::new(name, generic_params));
        self.name.calc_type(Some(&output));
        (None, output)
    }
}

impl LambdaDecl {
    /// A lambda has no name; its type is the method type of its one overload.
    #[verifier::rlimit(50)]
    pub fn calc_type(&mut self, _parent_type: Option<&Type>) -> (r: (Option<String>, Type))
        requires
            node_typable(old(self)@, _parent_type is Some),
        ensures
            typing_model(r) == node_type(old(self)@, parent_model(_parent_type)),
            final(self)@ == memoized_node(old(self)@, parent_model(_parent_type)),
        decreases *old(self), 0int,
    {
        let param_types = calc_types(&mut self.params);
        let generic_types = calc_opt_types(&mut self.generic_params);
        let return_type = calc_opt_type(&mut self.return_type);
        (None, Type::single_overload(param_types, generic_types, return_type))
    }
}

impl MethodParamDecl {
    /// A parameter has the name of its type reference and the parameter type over it.
    pub fn calc_type(&mut self, _parent_type: Option<&Type>) -> (r: (Option<String>, Type))
        requires
            node_typable(old(self)@, _parent_type is Some),
        ensures
            typing_model(r) == node_type(old(self)@, parent_model(_parent_type)),
            final(self)@ == memoized_node(old(self)@, parent_model(_parent_type)),
        decreases *old(self), 0int,
    {
        let output = self.type_ref.calc_type(None);
        (
            output.0,
            Type::MethodParamType(MethodParamType::new(Rc::new(output.1), self.variadic)),
        )
    }
}

impl GenericParamDecl {
    /// A generic parameter has its name and the placeholder of that name.
    /// Its name node remembers the placeholder.
    #[verifier::rlimit(50)]
    pub fn calc_type(&mut self, _parent_type: Option<&Type>) -> (r: (Option<String>, Type))
        requires
            node_typable(old(self)@, _parent_type is Some),
        ensures
            typing_model(r) == node_type(old(self)@, parent_model(_parent_type)),
            final(self)@ == memoized_node(old(self)@, parent_model(_parent_type)),
        decreases *old(self), 0int,
    {
        let name = self.name.qualified_name();
        let placeholder = match &name {
            Some(n) => n.clone(),
            None => unreached(),
        };
        let output = Type::GenericType(GenericType::new(placeholder));
        self.name.calc_type(Some(&output));
        (name, output)
    }
}

impl IdentifierDecl {
    /// An identifier has its name and the type of its type reference. Its
    /// name node remembers that type.
    #[verifier::rlimit(50)]
    pub fn calc_type(&mut self, _parent_type: Option<&Type>) -> (r: (Option<String>, Type))
        requires
            node_typable(old(self)@, _parent_type is Some),
        ensures
            typing_model(r) == node_type(old(self)@, parent_model(_parent_type)),
            final(self)@ == memoized_node(old(self)@, parent_model(_parent_type)),
        decreases *old(self), 0int,
    {
        let output = self.type_ref.calc_type(None).1;
        self.name.calc_type(Some(&output));
        (self.name.qualified_name(), output)
    }
}

impl FieldDecl {
    /// A field has the name of its identifier and the field type over the
    /// identifier's type.
    pub fn calc_type(&mut self, _parent_type: Option<&Type>) -> (r: (Option<String>, Type))
        requires
            node_typable(old(self)@, _parent_type is Some),
        ensures
            typing_model(r) == node_type(old(self)@, parent_model(_parent_type)),
            final(self)@ == memoized_node(old(self)@, parent_model(_parent_type)),
        decreases *old(self), 0int,
    {
        let ident_type = self.identifier.calc_type(None);
        (
            ident_type.0,
            Type::FieldType(FieldType::new(Rc::new(ident_type.1), self.is_static)),
        )
    }
}

impl MethodDecl {
    /// A method has its name and the method type of its one overload. Its
    /// name node remembers that type.
    #[verifier::rlimit(50)]
    pub fn calc_type(&mut self, _parent_type: Option<&Type>) -> (r: (Option<String>, Type))
        requires
            node_typable(old(self)@, _parent_type is Some),
        ensures
            typing_model(r) == node_type(old(self)@, parent_model(_parent_type)),
            final(self)@ == memoized_node(old(self)@, parent_model(_parent_type)),
        decreases *old(self), 0int,
    {
        let param_types = calc_types(&mut self.params);
        let generic_types = calc_opt_types(&mut self.generic_params);
        let return_type = calc_opt_type(&mut self.return_type);
        let output = Type::single_overload(param_types, generic_types, return_type);
        self.name.calc_type(Some(&output));
        (self.name.qualified_name(), output)
    }
}

impl GlobalDecl {
    /// A global has the name and type of its identifier.
    pub fn calc_type(&mut self, _parent_type: Option<&Type>) -> (r: (Option<String>, Type))
        requires
            node_typable(old(self)@, _parent_type is Some),
        ensures
            typing_model(r) == node_type(old(self)@, parent_model(_parent_type)),
            final(self)@ == memoized_node(old(self)@, parent_model(_parent_type)),
        decreases *old(self), 0int,
    {
        self.identifier.calc_type(_parent_type)
    }
}

impl UnitDecl {
    /// A type in parentheses has the name and type of what is inside.
    pub fn calc_type(&mut self, parent_type: Option<&Type>) -> (r: (Option<String>, Type))
        requires
            node_typable(old(self)@, parent_type is Some),
        ensures
            typing_model(r) == node_type(old(self)@, parent_model(parent_type)),
            final(self)@ == memoized_node(old(self)@, parent_model(parent_type)),
        decreases *old(self), 0int,
    {
        self.unit.calc_type(parent_type)
    }
}


/// Puts shared copies of the types of `more` behind those of `list`.
fn extend_types(list: &mut Vec<Rc<Type>>, more: &Vec<Rc<Type>>)
    ensures
        final(list)@ == old(list)@ + more@,
{
    let ghost before = list@;
    let mut i: usize = 0;
    while i < more.len()
        invariant
            i <= more@.len(),
            list@ == before + more@.subrange(0, i as int),
        decreases more@.len() - i,
    {
        list.push(more[i].clone());
        proof {
            assert(list@ =~= before + more@.subrange(0, i + 1));
        }
        i = i + 1;
    }
    proof {
        assert(more@.subrange(0, more@.len() as int) == more@);
    }
}

/// Adds the member `member` under `name` to `body`: a method joins the
/// overloads that its name already has, any other member replaces what its
/// name was bound to.
#[verifier::rlimit(50)]
pub fn add_member(body: &mut TypeMap, name: String, member: Type)
    ensures
        final(body)@ == with_member(old(body)@, name@, member@),
        old(body).wf() ==> final(body).wf(),
{
    match member {
        Type::MethodType(method_type) => {
            let mut overloads: Vec<Rc<Type>> = match body.get(name.as_str()) {
                Some(existing) => match &**existing {
                    Type::MethodType(earlier) => clone_types(&earlier.overloads),
                    _ => Vec::new(),
                },
                None => Vec::new(),
            };
            proof {
                assert(types_model(overloads@) =~= overloads_so_far(body@, name@));
            }
            let ghost so_far = overloads@;
            extend_types(&mut overloads, &method_type.overloads);
            proof {
                assert(types_model(overloads@) =~= types_model(so_far) + types_model(
                    method_type.overloads@,
                ));
            }
            body.insert(name, Rc::new(Type::MethodType(MethodType::new(overloads))));
        },
        other => {
            body.insert(name, Rc::new(other));
        },
    }
}

/// Computes the members that the statements of a body declare.
#[verifier::rlimit(50)]
pub fn calc_members(statements: &mut Vec<StAst>) -> (r: TypeMap)
    requires
        all_typable(asts_model(old(statements)@)),
        all_named(asts_model(old(statements)@)),
    ensures
        r@ == members_of(asts_model(old(statements)@)),
        r.wf(),
        asts_model(final(statements)@) == memoized_all(asts_model(old(statements)@)),
    decreases *old(statements), 0int,
{
    let ghost start = asts_model(statements@);
    let ghost start_nodes = statements@;
    let mut body = TypeMap::new();
    let mut i: usize = 0;
    while i < statements.len()
        invariant
            i <= statements@.len(),
            statements@.len() == start.len(),
            start == asts_model(start_nodes),
            start_nodes == old(statements)@,
            all_typable(start),
            all_named(start),
            body.wf(),
            body@ == members_of(start.subrange(0, i as int)),
            forall|j: int|
                0 <= j < i ==> ast_model(#[trigger] statements@[j]) == memoized(start[j], None),
            forall|j: int| i <= j < start.len() ==> (#[trigger] statements@[j]) == start_nodes[j],
        decreases statements@.len() - i,
    {
        proof {
            assert(typable(start[i as int], false));
            assert(type_of(start[i as int], None).0 is Some);
            let next = start.subrange(0, i + 1);
            assert(next.drop_last() == start.subrange(0, i as int));
            assert(next.last() == start[i as int]);
        }
        let typing = statements[i].calc_type(None);
        let name = match typing.0 {
            Some(n) => n,
            None => unreached(),
        };
        add_member(&mut body, name, typing.1);
        i = i + 1;
    }
    proof {
        assert(start.subrange(0, start.len() as int) == start);
        assert(asts_model(statements@) =~= memoized_all(start));
    }
    body
}

/// Computes the bindings that the statements of a program declare.
#[verifier::rlimit(50)]
pub fn calc_bindings(statements: &mut Vec<StAst>) -> (r: TypeMap)
    requires
        all_typable(asts_model(old(statements)@)),
        all_named(asts_model(old(statements)@)),
    ensures
        r@ == bindings_of(asts_model(old(statements)@)),
        r.wf(),
        asts_model(final(statements)@) == memoized_all(asts_model(old(statements)@)),
    decreases *old(statements), 0int,
{
    let ghost start = asts_model(statements@);
    let ghost start_nodes = statements@;
    let mut bindings = TypeMap::new();
    let mut i: usize = 0;
    while i < statements.len()
        invariant
            i <= statements@.len(),
            statements@.len() == start.len(),
            start == asts_model(start_nodes),
            start_nodes == old(statements)@,
            all_typable(start),
            all_named(start),
            bindings.wf(),
            bindings@ == bindings_of(start.subrange(0, i as int)),
            forall|j: int|
                0 <= j < i ==> ast_model(#[trigger] statements@[j]) == memoized(start[j], None),
            forall|j: int| i <= j < start.len() ==> (#[trigger] statements@[j]) == start_nodes[j],
        decreases statements@.len() - i,
    {
        proof {
            assert(typable(start[i as int], false));
            assert(type_of(start[i as int], None).0 is Some);
            let next = start.subrange(0, i + 1);
            assert(next.drop_last() == start.subrange(0, i as int));
            assert(next.last() == start[i as int]);
        }
        let typing = statements[i].calc_type(None);
        let name = match typing.0 {
            Some(n) => n,
            None => unreached(),
        };
        bindings.insert(name, Rc::new(typing.1));
        i = i + 1;
    }
    proof {
        assert(start.subrange(0, start.len() as int) == start);
        assert(asts_model(statements@) =~= memoized_all(start));
    }
    bindings
}

impl TypeDecl {
    /// A type declaration has its name and the object type of that name,
    /// with the types of its parents and generic parameters and the members
    /// that its body declares, methods of one name merged into one overload
    /// set in source order. Its name node remembers the object type.
    #[verifier::rlimit(50)]
    pub fn calc_type(&mut self, _parent_type: Option<&Type>) -> (r: (Option<String>, Type))
        requires
            node_typable(old(self)@, _parent_type is Some),
        ensures
            typing_model(r) == node_type(old(self)@, parent_model(_parent_type)),
            final(self)@ == memoized_node(old(self)@, parent_model(_parent_type)),
        decreases *old(self), 0int,
    {
        let name = match self.name.qualified_name() {
            Some(n) => n,
            None => unreached(),
        };
        let generic_params = calc_opt_types(&mut self.generic_params);
        let inherits = calc_opt_types(&mut self.inherits);
        let body = match &mut self.body {
            Some(statements) => calc_members(statements),
            None => TypeMap::new(),
        };
        let output = Type::ObjectType(ObjectType::new(name.clone(), inherits, generic_params, body));
        self.name.calc_type(Some(&output));
        (Some(name), output)
    }
}

impl TypeProgramNode {
    /// A program has no name; its type binds the name of every statement to
    /// the statement's type.
    #[verifier::rlimit(50)]
    pub fn calc_type(&mut self, _parent_type: Option<&Type>) -> (r: (Option<String>, Type))
        requires
            node_typable(old(self)@, _parent_type is Some),
        ensures
            typing_model(r) == node_type(old(self)@, parent_model(_parent_type)),
            final(self)@ == memoized_node(old(self)@, parent_model(_parent_type)),
        decreases *old(self), 0int,
    {
        let bindings = calc_bindings(&mut self.statements);
        (None, Type::ProgramType(ProgramType::new(Rc::new(bindings))))
    }
}


/// Whether every node of the list has a type without being handed one.
pub fn all_nodes_typable(nodes: &Vec<StAst>) -> (r: bool)
    ensures
        r == all_typable(asts_model(nodes@)),
    decreases nodes, 0int,
{
    let mut i: usize = 0;
    while i < nodes.len()
        invariant
            i <= nodes@.len(),
            forall|j: int| 0 <= j < i ==> typable((#[trigger] nodes@[j])@, false),
        decreases nodes@.len() - i,
    {
        if !nodes[i].is_typable(false) {
            proof {
                assert(!typable(asts_model(nodes@)[i as int], false));
            }
            return false;
        }
        i = i + 1;
    }
    proof {
        let all = asts_model(nodes@);
        assert forall|j: int| 0 <= j < all.len() implies typable(#[trigger] all[j], false) by {
            assert(typable(nodes@[j]@, false));
        }
    }
    true
}

/// Whether every node of an optional list has a type without being handed one.
pub fn all_opt_nodes_typable(nodes: &Option<Vec<StAst>>) -> (r: bool)
    ensures
        r == opt_all_typable(opt_asts_model(*nodes)),
    decreases nodes, 1int,
{
    match nodes {
        Some(v) => all_nodes_typable(v),
        None => true,
    }
}

/// Whether an optional node has a type without being handed one.
pub fn opt_node_typable(node: &Option<Box<StAst>>) -> (r: bool)
    ensures
        r == (match *node {
            Some(b) => typable(b@, false),
            None => true,
        }),
    decreases node, 3int,
{
    match node {
        Some(b) => b.is_typable(false),
        None => true,
    }
}

/// Whether every node of the list has a name as well as a type.
pub fn all_nodes_named(nodes: &Vec<StAst>) -> (r: bool)
    ensures
        r == all_named(asts_model(nodes@)),
{
    let mut i: usize = 0;
    while i < nodes.len()
        invariant
            i <= nodes@.len(),
            forall|j: int| 0 <= j < i ==> type_of((#[trigger] nodes@[j])@, None).0 is Some,
        decreases nodes@.len() - i,
    {
        if !nodes[i].has_name() {
            proof {
                assert(!(type_of(asts_model(nodes@)[i as int], None).0 is Some));
            }
            return false;
        }
        i = i + 1;
    }
    proof {
        let all = asts_model(nodes@);
        assert forall|j: int| 0 <= j < all.len() implies (#[trigger] type_of(
            all[j],
            None,
        )).0 is Some by {
            assert(type_of(nodes@[j]@, None).0 is Some);
        }
    }
    true
}

impl StAst {
    /// Whether the node stands for a name: it is a symbol or the name of a type.
    pub fn is_name(&self) -> (r: bool)
        ensures
            r == (node_name(self@) is Some),
    {
        match &self.data {
            NodeData::SymbolNode(_) => true,
            NodeData::TypeName(_) => true,
            _ => false,
        }
    }

    /// Whether the node has a name as well as a type when it is handed no
    /// type from above.
    pub fn has_name(&self) -> (r: bool)
        ensures
            r == (type_of(self@, None).0 is Some),
        decreases self,
    {
        match &self.cached_type {
            Some(c) => c.0.is_some(),
            None => match &self.data {
                NodeData::SymbolNode(_) => true,
                NodeData::TypeName(_) => true,
                NodeData::ArrayDecl(_) => false,
                NodeData::TypeRefDecl(_) => false,
                NodeData::LambdaDecl(_) => false,
                NodeData::MethodParamDecl(d) => d.type_ref.has_name(),
                NodeData::GenericParamDecl(d) => d.name.is_name(),
                NodeData::IdentifierDecl(_) => true,
                NodeData::TypeDecl(_) => true,
                NodeData::FieldDecl(d) => d.identifier.has_name(),
                NodeData::MethodDecl(_) => true,
                NodeData::GlobalDecl(d) => d.identifier.has_name(),
                NodeData::TypeProgramNode(_) => false,
                NodeData::UnitDecl(d) => d.unit.has_name(),
            },
        }
    }

    /// Whether the type of the node can be computed: `has_parent` says
    /// whether a type is handed down to it. A caller that cannot know tests
    /// this before it asks for the type.
    #[verifier::rlimit(50)]
    pub fn is_typable(&self, has_parent: bool) -> (r: bool)
        ensures
            r == typable(self@, has_parent),
        decreases self, 2int,
    {
        if self.cached_type.is_some() {
            return true;
        }
        match &self.data {
            NodeData::SymbolNode(_) => has_parent,
            NodeData::TypeName(_) => has_parent,
            NodeData::ArrayDecl(d) => d.type_decl.is_typable(false),
            NodeData::TypeRefDecl(d) => d.name.is_name() && all_opt_nodes_typable(&d.generic_decl),
            NodeData::LambdaDecl(d) => all_opt_nodes_typable(&d.generic_params)
                && all_nodes_typable(&d.params) && opt_node_typable(&d.return_type),
            NodeData::MethodParamDecl(d) => d.type_ref.is_typable(false),
            NodeData::GenericParamDecl(d) => d.name.is_name(),
            NodeData::IdentifierDecl(d) => d.name.is_name() && d.type_ref.is_typable(false),
            NodeData::TypeDecl(d) => d.name.is_name() && all_opt_nodes_typable(&d.generic_params)
                && all_opt_nodes_typable(&d.inherits) && (match &d.body {
                Some(statements) => all_nodes_typable(statements) && all_nodes_named(statements),
                None => true,
            }),
            NodeData::FieldDecl(d) => d.identifier.is_typable(false),
            NodeData::MethodDecl(d) => d.name.is_name() && all_opt_nodes_typable(&d.generic_params)
                && all_nodes_typable(&d.params) && opt_node_typable(&d.return_type),
            NodeData::GlobalDecl(d) => d.identifier.is_typable(has_parent),
            NodeData::TypeProgramNode(d) => all_nodes_typable(&d.statements) && all_nodes_named(
                &d.statements,
            ),
            NodeData::UnitDecl(d) => d.unit.is_typable(has_parent),
        }
    }

    /// The name and type of the node, or nothing if they cannot be computed.
    pub fn try_calc_type(&mut self, parent_type: Option<&Type>) -> (r: Option<
        (Option<String>, Type),
    >)
        ensures
            match r {
                Some(typing) => typable(old(self)@, parent_type is Some) && typing_model(typing)
                    == type_of(old(self)@, parent_model(parent_type)) && final(self)@ == memoized(
                    old(self)@,
                    parent_model(parent_type),
                ),
                None => !typable(old(self)@, parent_type is Some) && *final(self) == *old(self),
            },
    {
        if self.is_typable(parent_type.is_some()) {
            Some(self.calc_type(parent_type))
        } else {
            None
        }
    }
}

} // verus!
