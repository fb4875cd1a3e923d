use crate::st_ast::{
    asts_model, opt_ast_model, opt_asts_model, ArrayDecl, AstModel, FieldDecl, GenericParamDecl,
    GlobalDecl, IdentifierDecl, LambdaDecl, MethodDecl, MethodParamDecl, NodeData, NodeModel, StAst,
    SymbolNode, TypeDecl, TypeName, TypeProgramNode, TypeRefDecl, UnitDecl,
};
use vstd::prelude::*;

verus! {

/// A list of trees in which no node remembers a type.
pub open spec fn forgotten_all(s: Seq<AstModel>) -> Seq<AstModel>
    decreases s, 0int,
{
    Seq::new(
        s.len(),
        |i: int|
            if 0 <= i < s.len() {
                forgotten(s[i])
            } else {
                s[i]
            },
    )
}

/// What a node holds, with no node below remembering a type.
pub open spec fn forgotten_node(d: NodeModel) -> NodeModel
    decreases d, 1int,
{
    match d {
        NodeModel::SymbolNode { name } => NodeModel::SymbolNode {
            name,
        },
        NodeModel::TypeName { path } => NodeModel::TypeName {
            path: forgotten_all(path),
        },
        NodeModel::ArrayDecl { arity, type_decl } => NodeModel::ArrayDecl {
            arity,
            type_decl: Box::new(forgotten(*type_decl)),
        },
        NodeModel::TypeRefDecl { name, generic_decl } => NodeModel::TypeRefDecl {
            name: Box::new(forgotten(*name)),
            generic_decl: match generic_decl {
                Some(s) => Some(forgotten_all(s)),
                None => None,
            },
        },
        NodeModel::LambdaDecl { generic_params, params, return_type } => NodeModel::LambdaDecl {
            generic_params: match generic_params {
                Some(s) => Some(forgotten_all(s)),
                None => None,
            },
            params: forgotten_all(params),
            return_type: match return_type {
                Some(b) => Some(Box::new(forgotten(*b))),
                None => None,
            },
        },
        NodeModel::MethodParamDecl { type_ref, variadic } => NodeModel::MethodParamDecl {
            type_ref: Box::new(forgotten(*type_ref)),
            variadic,
        },
        NodeModel::GenericParamDecl { name, inherits } => NodeModel::GenericParamDecl {
            name: Box::new(forgotten(*name)),
            inherits: match inherits {
                Some(s) => Some(forgotten_all(s)),
                None => None,
            },
        },
        NodeModel::IdentifierDecl { name, type_ref } => NodeModel::IdentifierDecl {
            name: Box::new(forgotten(*name)),
            type_ref: Box::new(forgotten(*type_ref)),
        },
        NodeModel::TypeDecl { name, generic_params, inherits, body } => NodeModel::TypeDecl {
            name: Box::new(forgotten(*name)),
            generic_params: match generic_params {
                Some(s) => Some(forgotten_all(s)),
                None => None,
            },
            inherits: match inherits {
                Some(s) => Some(forgotten_all(s)),
                None => None,
            },
            body: match body {
                Some(s) => Some(forgotten_all(s)),
                None => None,
            },
        },
        NodeModel::FieldDecl { identifier, is_static } => NodeModel::FieldDecl {
            identifier: Box::new(forgotten(*identifier)),
            is_static,
        },
        NodeModel::MethodDecl { name, generic_params, params, return_type, is_static } => NodeModel::MethodDecl {
            name: Box::new(forgotten(*name)),
            generic_params: match generic_params {
                Some(s) => Some(forgotten_all(s)),
                None => None,
            },
            params: forgotten_all(params),
            return_type: match return_type {
                Some(b) => Some(Box::new(forgotten(*b))),
                None => None,
            },
            is_static,
        },
        NodeModel::GlobalDecl { identifier } => NodeModel::GlobalDecl {
            identifier: Box::new(forgotten(*identifier)),
        },
        NodeModel::TypeProgramNode { statements } => NodeModel::TypeProgramNode {
            statements: forgotten_all(statements),
        },
        NodeModel::UnitDecl { unit } => NodeModel::UnitDecl {
            unit: Box::new(forgotten(*unit)),
        },
    }
}

/// The tree in which no node remembers a type: what a copy of a tree is,
/// since a remembered type belongs to the tree that computed it.
pub open spec fn forgotten(a: AstModel) -> AstModel
    decreases a, 2int,
{
    AstModel { start: a.start, end: a.end, data: forgotten_node(a.data), cached: None }
}

/// A copy of the tree, in which no node remembers a type.
pub fn clone_ast(a: &StAst) -> (r: StAst)
    ensures
        r@ == forgotten(a@),
    decreases a, 2int,
{
    StAst::new(a.range.start..a.range.end, clone_data(&a.data))
}

/// Copies of the trees of a list.
pub fn clone_asts(list: &Vec<StAst>) -> (r: Vec<StAst>)
    ensures
        asts_model(r@) == forgotten_all(asts_model(list@)),
    decreases list, 0int,
{
    let mut r: Vec<StAst> = Vec::new();
    let mut i: usize = 0;
    while i < list.len()
        invariant
            i <= list@.len(),
            r@.len() == i,
            forall|j: int| 0 <= j < i ==> (#[trigger] r@[j])@ == forgotten(list@[j]@),
        decreases list@.len() - i,
    {
        r.push(clone_ast(&list[i]));
        i = i + 1;
    }
    proof {
        assert(asts_model(r@) =~= forgotten_all(asts_model(list@)));
    }
    r
}

/// Copies of the trees of an optional list.
pub fn clone_opt_asts(list: &Option<Vec<StAst>>) -> (r: Option<Vec<StAst>>)
    ensures
        opt_asts_model(r) == (match opt_asts_model(*list) {
            Some(s) => Some(forgotten_all(s)),
            None => None,
        }),
    decreases list, 1int,
{
    match list {
        Some(v) => Some(clone_asts(v)),
        None => None,
    }
}

/// A copy of an optional tree.
pub fn clone_opt_ast(node: &Option<Box<StAst>>) -> (r: Option<Box<StAst>>)
    ensures
        opt_ast_model(r) == (match *node {
            Some(b) => Some(Box::new(forgotten(b@))),
            None => None,
        }),
    decreases node, 3int,
{
    match node {
        Some(b) => Some(Box::new(clone_ast(b))),
        None => None,
    }
}

/// A copy of what a node holds.
pub fn clone_data(d: &NodeData) -> (r: NodeData)
    ensures
        r@ == forgotten_node(d@),
    decreases d, 1int,
{
    match d {
        NodeData::SymbolNode(x) => NodeData::SymbolNode(x.duplicate()),
        NodeData::TypeName(x) => NodeData::TypeName(x.duplicate()),
        NodeData::ArrayDecl(x) => NodeData::ArrayDecl(x.duplicate()),
        NodeData::TypeRefDecl(x) => NodeData::TypeRefDecl(x.duplicate()),
        NodeData::LambdaDecl(x) => NodeData::LambdaDecl(x.duplicate()),
        NodeData::MethodParamDecl(x) => NodeData::MethodParamDecl(x.duplicate()),
        NodeData::GenericParamDecl(x) => NodeData::GenericParamDecl(x.duplicate()),
        NodeData::IdentifierDecl(x) => NodeData::IdentifierDecl(x.duplicate()),
        NodeData::TypeDecl(x) => NodeData::TypeDecl(x.duplicate()),
        NodeData::FieldDecl(x) => NodeData::FieldDecl(x.duplicate()),
        NodeData::MethodDecl(x) => NodeData::MethodDecl(x.duplicate()),
        NodeData::GlobalDecl(x) => NodeData::GlobalDecl(x.duplicate()),
        NodeData::TypeProgramNode(x) => NodeData::TypeProgramNode(x.duplicate()),
        NodeData::UnitDecl(x) => NodeData::UnitDecl(x.duplicate()),
    }
}

impl Clone for StAst {
    /// A copy of the tree, in which no node remembers a type.
    fn clone(&self) -> (r: StAst)
        ensures
            r@ == forgotten(self@),
    {
        clone_ast(self)
    }
}

impl Clone for NodeData {
    fn clone(&self) -> (r: NodeData)
        ensures
            r@ == forgotten_node(self@),
    {
        clone_data(self)
    }
}

impl SymbolNode {
    /// A copy, in which no node remembers a type.
    pub fn duplicate(&self) -> (r: SymbolNode)
        ensures
            r@ == forgotten_node(self@),
        decreases self, 0int,
    {
        SymbolNode { name: self.name.clone() }
    }
}

impl Clone for SymbolNode {
    fn clone(&self) -> (r: SymbolNode)
        ensures
            r@ == forgotten_node(self@),
    {
        self.duplicate()
    }
}

impl TypeName {
    /// A copy, in which no node remembers a type.
    pub fn duplicate(&self) -> (r: TypeName)
        ensures
            r@ == forgotten_node(self@),
        decreases self, 0int,
    {
        TypeName { path: clone_asts(&self.path) }
    }
}

impl Clone for TypeName {
    fn clone(&self) -> (r: TypeName)
        ensures
            r@ == forgotten_node(self@),
    {
        self.duplicate()
    }
}

impl ArrayDecl {
    /// A copy, in which no node remembers a type.
    pub fn duplicate(&self) -> (r: ArrayDecl)
        ensures
            r@ == forgotten_node(self@),
        decreases self, 0int,
    {
        ArrayDecl { arity: self.arity, type_decl: Box::new(clone_ast(&self.type_decl)) }
    }
}

impl Clone for ArrayDecl {
    fn clone(&self) -> (r: ArrayDecl)
        ensures
            r@ == forgotten_node(self@),
    {
        self.duplicate()
    }
}

impl TypeRefDecl {
    /// A copy, in which no node remembers a type.
    pub fn duplicate(&self) -> (r: TypeRefDecl)
        ensures
            r@ == forgotten_node(self@),
        decreases self, 0int,
    {
        TypeRefDecl { name: Box::new(clone_ast(&self.name)), generic_decl: clone_opt_asts(&self.generic_decl) }
    }
}

impl Clone for TypeRefDecl {
    fn clone(&self) -> (r: TypeRefDecl)
        ensures
            r@ == forgotten_node(self@),
    {
        self.duplicate()
    }
}

impl LambdaDecl {
    /// A copy, in which no node remembers a type.
    pub fn duplicate(&self) -> (r: LambdaDecl)
        ensures
            r@ == forgotten_node(self@),
        decreases self, 0int,
    {
        LambdaDecl { generic_params: clone_opt_asts(&self.generic_params), params: clone_asts(&self.params), return_type: clone_opt_ast(&self.return_type) }
    }
}

impl Clone for LambdaDecl {
    fn clone(&self) -> (r: LambdaDecl)
        ensures
            r@ == forgotten_node(self@),
    {
        self.duplicate()
    }
}

impl MethodParamDecl {
    /// A copy, in which no node remembers a type.
    pub fn duplicate(&self) -> (r: MethodParamDecl)
        ensures
            r@ == forgotten_node(self@),
        decreases self, 0int,
    {
        MethodParamDecl { type_ref: Box::new(clone_ast(&self.type_ref)), variadic: self.variadic }
    }
}

impl Clone for MethodParamDecl {
    fn clone(&self) -> (r: MethodParamDecl)
        ensures
            r@ == forgotten_node(self@),
    {
        self.duplicate()
    }
}

impl GenericParamDecl {
    /// A copy, in which no node remembers a type.
    pub fn duplicate(&self) -> (r: GenericParamDecl)
        ensures
            r@ == forgotten_node(self@),
        decreases self, 0int,
    {
        GenericParamDecl { name: Box::new(clone_ast(&self.name)), inherits: clone_opt_asts(&self.inherits) }
    }
}

impl Clone for GenericParamDecl {
    fn clone(&self) -> (r: GenericParamDecl)
        ensures
            r@ == forgotten_node(self@),
    {
        self.duplicate()
    }
}

impl IdentifierDecl {
    /// A copy, in which no node remembers a type.
    pub fn duplicate(&self) -> (r: IdentifierDecl)
        ensures
            r@ == forgotten_node(self@),
        decreases self, 0int,
    {
        IdentifierDecl { name: Box::new(clone_ast(&self.name)), type_ref: Box::new(clone_ast(&self.type_ref)) }
    }
}

impl Clone for IdentifierDecl {
    fn clone(&self) -> (r: IdentifierDecl)
        ensures
            r@ == forgotten_node(self@),
    {
        self.duplicate()
    }
}

impl TypeDecl {
    /// A copy, in which no node remembers a type.
    pub fn duplicate(&self) -> (r: TypeDecl)
        ensures
            r@ == forgotten_node(self@),
        decreases self, 0int,
    {
        TypeDecl { name: Box::new(clone_ast(&self.name)), generic_params: clone_opt_asts(&self.generic_params), inherits: clone_opt_asts(&self.inherits), body: clone_opt_asts(&self.body) }
    }
}

impl Clone for TypeDecl {
    fn clone(&self) -> (r: TypeDecl)
        ensures
            r@ == forgotten_node(self@),
    {
        self.duplicate()
    }
}

impl FieldDecl {
    /// A copy, in which no node remembers a type.
    pub fn duplicate(&self) -> (r: FieldDecl)
        ensures
            r@ == forgotten_node(self@),
        decreases self, 0int,
    {
        FieldDecl { identifier: Box::new(clone_ast(&self.identifier)), is_static: self.is_static }
    }
}

impl Clone for FieldDecl {
    fn clone(&self) -> (r: FieldDecl)
        ensures
            r@ == forgotten_node(self@),
    {
        self.duplicate()
    }
}

impl MethodDecl {
    /// A copy, in which no node remembers a type.
    pub fn duplicate(&self) -> (r: MethodDecl)
        ensures
            r@ == forgotten_node(self@),
        decreases self, 0int,
    {
        MethodDecl { name: Box::new(clone_ast(&self.name)), generic_params: clone_opt_asts(&self.generic_params), params: clone_asts(&self.params), return_type: clone_opt_ast(&self.return_type), is_static: self.is_static }
    }
}

impl Clone for MethodDecl {
    fn clone(&self) -> (r: MethodDecl)
        ensures
            r@ == forgotten_node(self@),
    {
        self.duplicate()
    }
}

impl GlobalDecl {
    /// A copy, in which no node remembers a type.
    pub fn duplicate(&self) -> (r: GlobalDecl)
        ensures
            r@ == forgotten_node(self@),
        decreases self, 0int,
    {
        GlobalDecl { identifier: Box::new(clone_ast(&self.identifier)) }
    }
}

impl Clone for GlobalDecl {
    fn clone(&self) -> (r: GlobalDecl)
        ensures
            r@ == forgotten_node(self@),
    {
        self.duplicate()
    }
}

impl TypeProgramNode {
    /// A copy, in which no node remembers a type.
    pub fn duplicate(&self) -> (r: TypeProgramNode)
        ensures
            r@ == forgotten_node(self@),
        decreases self, 0int,
    {
        TypeProgramNode { statements: clone_asts(&self.statements) }
    }
}

impl Clone for TypeProgramNode {
    fn clone(&self) -> (r: TypeProgramNode)
        ensures
            r@ == forgotten_node(self@),
    {
        self.duplicate()
    }
}

impl UnitDecl {
    /// A copy, in which no node remembers a type.
    pub fn duplicate(&self) -> (r: UnitDecl)
        ensures
            r@ == forgotten_node(self@),
        decreases self, 0int,
    {
        UnitDecl { unit: Box::new(clone_ast(&self.unit)) }
    }
}

impl Clone for UnitDecl {
    fn clone(&self) -> (r: UnitDecl)
        ensures
            r@ == forgotten_node(self@),
    {
        self.duplicate()
    }
}

} // verus!
