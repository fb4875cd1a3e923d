use crate::program_equivalent::ProgramEquivalent;
use crate::st_ast::{
    asts_model, ArrayDecl, AstModel, FieldDecl, GenericParamDecl, GlobalDecl, IdentifierDecl,
    LambdaDecl, MethodDecl, MethodParamDecl, NodeData, NodeModel, StAst, SymbolNode, TypeDecl,
    TypeName, TypeProgramNode, TypeRefDecl, UnitDecl,
};
use vstd::prelude::*;

verus! {

/// Two lists of nodes are of the same shape if their nodes are, pair by
/// pair, as far as both lists go.
pub open spec fn lists_equivalent(a: Seq<AstModel>, b: Seq<AstModel>) -> bool
    decreases a, 0int,
{
    forall|i: int| 0 <= i < a.len() && i < b.len() ==> ast_equivalent(#[trigger] a[i], b[i])
}

/// Whether what two nodes hold is of the same shape: the same kind, and
/// the parts that the kind compares of the same shape. Ranges and
/// remembered types are never compared.
pub open spec fn node_equivalent(a: NodeModel, b: NodeModel) -> bool
    decreases a, 1int,
{
    match (a, b) {
        (NodeModel::SymbolNode { name: x_name }, NodeModel::SymbolNode { name: y_name }) => {
            x_name == y_name
        },
        (NodeModel::TypeName { path: x_path }, NodeModel::TypeName { path: y_path }) => {
            lists_equivalent(x_path, y_path)
        },
        (NodeModel::ArrayDecl { arity: x_arity, type_decl: x_type_decl }, NodeModel::ArrayDecl { arity: y_arity, type_decl: y_type_decl }) => {
            x_arity == y_arity
            && ast_equivalent(*x_type_decl, *y_type_decl)
        },
        (NodeModel::TypeRefDecl { name: x_name, generic_decl: x_generic_decl }, NodeModel::TypeRefDecl { name: y_name, generic_decl: y_generic_decl }) => {
            ast_equivalent(*x_name, *y_name)
            && (match (x_generic_decl, y_generic_decl) {
                (Some(s), Some(t)) => lists_equivalent(s, t),
                (None, None) => true,
                _ => false,
            })
        },
        (NodeModel::LambdaDecl { generic_params: x_generic_params, params: x_params, return_type: x_return_type }, NodeModel::LambdaDecl { generic_params: y_generic_params, params: y_params, return_type: y_return_type }) => {
            lists_equivalent(x_params, y_params)
            && (match (x_return_type, y_return_type) {
                (Some(s), Some(t)) => ast_equivalent(*s, *t),
                (None, None) => true,
                _ => false,
            })
        },
        (NodeModel::MethodParamDecl { type_ref: x_type_ref, variadic: x_variadic }, NodeModel::MethodParamDecl { type_ref: y_type_ref, variadic: y_variadic }) => {
            x_variadic == y_variadic
            && ast_equivalent(*x_type_ref, *y_type_ref)
        },
        (NodeModel::GenericParamDecl { name: x_name, inherits: x_inherits }, NodeModel::GenericParamDecl { name: y_name, inherits: y_inherits }) => {
            ast_equivalent(*x_name, *y_name)
            && (match (x_inherits, y_inherits) {
                (Some(s), Some(t)) => lists_equivalent(s, t),
                (None, None) => true,
                _ => false,
            })
        },
        (NodeModel::IdentifierDecl { name: x_name, type_ref: x_type_ref }, NodeModel::IdentifierDecl { name: y_name, type_ref: y_type_ref }) => {
            ast_equivalent(*x_name, *y_name)
            && ast_equivalent(*x_type_ref, *y_type_ref)
        },
        (NodeModel::TypeDecl { name: x_name, generic_params: x_generic_params, inherits: x_inherits, body: x_body }, NodeModel::TypeDecl { name: y_name, generic_params: y_generic_params, inherits: y_inherits, body: y_body }) => {
            ast_equivalent(*x_name, *y_name)
            && (match (x_inherits, y_inherits) {
                (Some(s), Some(t)) => lists_equivalent(s, t),
                (None, None) => true,
                _ => false,
            })
            && (match (x_body, y_body) {
                (Some(s), Some(t)) => lists_equivalent(s, t),
                (None, None) => true,
                _ => false,
            })
        },
        (NodeModel::FieldDecl { identifier: x_identifier, is_static: x_is_static }, NodeModel::FieldDecl { identifier: y_identifier, is_static: y_is_static }) => {
            x_is_static == y_is_static
            && ast_equivalent(*x_identifier, *y_identifier)
        },
        (NodeModel::MethodDecl { name: x_name, generic_params: x_generic_params, params: x_params, return_type: x_return_type, is_static: x_is_static }, NodeModel::MethodDecl { name: y_name, generic_params: y_generic_params, params: y_params, return_type: y_return_type, is_static: y_is_static }) => {
            ast_equivalent(*x_name, *y_name)
            && (match (x_generic_params, y_generic_params) {
                (Some(s), Some(t)) => lists_equivalent(s, t),
                (None, None) => true,
                _ => false,
            })
            && lists_equivalent(x_params, y_params)
            && (match (x_return_type, y_return_type) {
                (Some(s), Some(t)) => ast_equivalent(*s, *t),
                (None, None) => true,
                _ => false,
            })
            && x_is_static == y_is_static
        },
        (NodeModel::GlobalDecl { identifier: x_identifier }, NodeModel::GlobalDecl { identifier: y_identifier }) => {
            ast_equivalent(*x_identifier, *y_identifier)
        },
        (NodeModel::TypeProgramNode { statements: x_statements }, NodeModel::TypeProgramNode { statements: y_statements }) => {
            lists_equivalent(x_statements, y_statements)
        },
        (NodeModel::UnitDecl { unit: x_unit }, NodeModel::UnitDecl { unit: y_unit }) => {
            ast_equivalent(*x_unit, *y_unit)
        },
        _ => false,
    }
}

/// Whether two nodes are of the same shape.
pub open spec fn ast_equivalent(a: AstModel, b: AstModel) -> bool
    decreases a, 2int,
{
    node_equivalent(a.data, b.data)
}

/// Whether two lists of nodes are of the same shape.
#[verifier::rlimit(50)]
pub fn lists_equiv(a: &Vec<StAst>, b: &Vec<StAst>) -> (r: bool)
    ensures
        r == lists_equivalent(asts_model(a@), asts_model(b@)),
    decreases a, 0int,
{
    let mut i: usize = 0;
    while i < a.len() && i < b.len()
        invariant
            forall|j: int| 0 <= j < i ==> ast_equivalent((#[trigger] a@[j])@, b@[j]@),
        decreases a@.len() - i,
    {
        if !ast_equiv(&a[i], &b[i]) {
            proof {
                assert(!ast_equivalent(asts_model(a@)[i as int], asts_model(b@)[i as int]));
            }
            return false;
        }
        i = i + 1;
    }
    proof {
        let x = asts_model(a@);
        let y = asts_model(b@);
        assert forall|j: int| 0 <= j < x.len() && j < y.len() implies ast_equivalent(
            #[trigger] x[j],
            y[j],
        ) by {
            assert(ast_equivalent(a@[j]@, b@[j]@));
        }
    }
    true
}

/// Whether two optional lists of nodes are of the same shape.
pub fn opt_lists_equiv(a: &Option<Vec<StAst>>, b: &Option<Vec<StAst>>) -> (r: bool)
    ensures
        r == (match (*a, *b) {
            (Some(s), Some(t)) => lists_equivalent(asts_model(s@), asts_model(t@)),
            (None, None) => true,
            _ => false,
        }),
    decreases a, 1int,
{
    match (a, b) {
        (Some(s), Some(t)) => lists_equiv(s, t),
        (None, None) => true,
        _ => false,
    }
}

/// Whether two optional nodes are of the same shape.
pub fn opt_ast_equiv(a: &Option<Box<StAst>>, b: &Option<Box<StAst>>) -> (r: bool)
    ensures
        r == (match (*a, *b) {
            (Some(s), Some(t)) => ast_equivalent(s@, t@),
            (None, None) => true,
            _ => false,
        }),
    decreases a, 3int,
{
    match (a, b) {
        (Some(s), Some(t)) => ast_equiv(s, t),
        (None, None) => true,
        _ => false,
    }
}

/// Whether what two nodes hold is of the same shape.
pub fn data_equiv(a: &NodeData, b: &NodeData) -> (r: bool)
    ensures
        r == node_equivalent(a@, b@),
    decreases a, 1int,
{
    match (a, b) {
        (NodeData::SymbolNode(x), NodeData::SymbolNode(y)) => x.same_shape(y),
        (NodeData::TypeName(x), NodeData::TypeName(y)) => x.same_shape(y),
        (NodeData::ArrayDecl(x), NodeData::ArrayDecl(y)) => x.same_shape(y),
        (NodeData::TypeRefDecl(x), NodeData::TypeRefDecl(y)) => x.same_shape(y),
        (NodeData::LambdaDecl(x), NodeData::LambdaDecl(y)) => x.same_shape(y),
        (NodeData::MethodParamDecl(x), NodeData::MethodParamDecl(y)) => x.same_shape(y),
        (NodeData::GenericParamDecl(x), NodeData::GenericParamDecl(y)) => x.same_shape(y),
        (NodeData::IdentifierDecl(x), NodeData::IdentifierDecl(y)) => x.same_shape(y),
        (NodeData::TypeDecl(x), NodeData::TypeDecl(y)) => x.same_shape(y),
        (NodeData::FieldDecl(x), NodeData::FieldDecl(y)) => x.same_shape(y),
        (NodeData::MethodDecl(x), NodeData::MethodDecl(y)) => x.same_shape(y),
        (NodeData::GlobalDecl(x), NodeData::GlobalDecl(y)) => x.same_shape(y),
        (NodeData::TypeProgramNode(x), NodeData::TypeProgramNode(y)) => x.same_shape(y),
        (NodeData::UnitDecl(x), NodeData::UnitDecl(y)) => x.same_shape(y),
        _ => false,
    }
}

/// Whether two nodes are of the same shape.
pub fn ast_equiv(a: &StAst, b: &StAst) -> (r: bool)
    ensures
        r == ast_equivalent(a@, b@),
    decreases a, 2int,
{
    data_equiv(&a.data, &b.data)
}

impl ProgramEquivalent for StAst {
    open spec fn equivalent(&self, other: &Self) -> bool {
        ast_equivalent(self@, other@)
    }

    fn program_equivalent(&self, b: &Self) -> (r: bool) {
        ast_equiv(self, b)
    }
}

impl ProgramEquivalent for NodeData {
    open spec fn equivalent(&self, other: &Self) -> bool {
        node_equivalent(self@, other@)
    }

    fn program_equivalent(&self, b: &Self) -> (r: bool) {
        data_equiv(self, b)
    }
}

impl SymbolNode {
    /// Whether `self` and `b` are of the same shape.
    pub fn same_shape(&self, b: &SymbolNode) -> (r: bool)
        ensures
            r == node_equivalent(self@, b@),
        decreases self, 0int,
    {
        self.name == b.name
    }
}

impl ProgramEquivalent for SymbolNode {
    open spec fn equivalent(&self, other: &Self) -> bool {
        node_equivalent(self@, other@)
    }

    fn program_equivalent(&self, b: &Self) -> (r: bool) {
        self.same_shape(b)
    }
}

impl TypeName {
    /// Whether `self` and `b` are of the same shape.
    pub fn same_shape(&self, b: &TypeName) -> (r: bool)
        ensures
            r == node_equivalent(self@, b@),
        decreases self, 0int,
    {
        lists_equiv(&self.path, &b.path)
    }
}

impl ProgramEquivalent for TypeName {
    open spec fn equivalent(&self, other: &Self) -> bool {
        node_equivalent(self@, other@)
    }

    fn program_equivalent(&self, b: &Self) -> (r: bool) {
        self.same_shape(b)
    }
}

impl ArrayDecl {
    /// Whether `self` and `b` are of the same shape.
    pub fn same_shape(&self, b: &ArrayDecl) -> (r: bool)
        ensures
            r == node_equivalent(self@, b@),
        decreases self, 0int,
    {
        self.arity == b.arity
            && ast_equiv(&self.type_decl, &b.type_decl)
    }
}

impl ProgramEquivalent for ArrayDecl {
    open spec fn equivalent(&self, other: &Self) -> bool {
        node_equivalent(self@, other@)
    }

    fn program_equivalent(&self, b: &Self) -> (r: bool) {
        self.same_shape(b)
    }
}

impl TypeRefDecl {
    /// Whether `self` and `b` are of the same shape.
    pub fn same_shape(&self, b: &TypeRefDecl) -> (r: bool)
        ensures
            r == node_equivalent(self@, b@),
        decreases self, 0int,
    {
        ast_equiv(&self.name, &b.name)
            && opt_lists_equiv(&self.generic_decl, &b.generic_decl)
    }
}

impl ProgramEquivalent for TypeRefDecl {
    open spec fn equivalent(&self, other: &Self) -> bool {
        node_equivalent(self@, other@)
    }

    fn program_equivalent(&self, b: &Self) -> (r: bool) {
        self.same_shape(b)
    }
}

impl LambdaDecl {
    /// Whether `self` and `b` are of the same shape. Two lambdas are of the same shape if their parameters and return types are; their generic parameters are not looked at.
    pub fn same_shape(&self, b: &LambdaDecl) -> (r: bool)
        ensures
            r == node_equivalent(self@, b@),
        decreases self, 0int,
    {
        lists_equiv(&self.params, &b.params)
            && opt_ast_equiv(&self.return_type, &b.return_type)
    }
}

impl ProgramEquivalent for LambdaDecl {
    open spec fn equivalent(&self, other: &Self) -> bool {
        node_equivalent(self@, other@)
    }

    fn program_equivalent(&self, b: &Self) -> (r: bool) {
        self.same_shape(b)
    }
}

impl MethodParamDecl {
    /// Whether `self` and `b` are of the same shape.
    pub fn same_shape(&self, b: &MethodParamDecl) -> (r: bool)
        ensures
            r == node_equivalent(self@, b@),
        decreases self, 0int,
    {
        self.variadic == b.variadic
            && ast_equiv(&self.type_ref, &b.type_ref)
    }
}

impl ProgramEquivalent for MethodParamDecl {
    open spec fn equivalent(&self, other: &Self) -> bool {
        node_equivalent(self@, other@)
    }

    fn program_equivalent(&self, b: &Self) -> (r: bool) {
        self.same_shape(b)
    }
}

impl GenericParamDecl {
    /// Whether `self` and `b` are of the same shape.
    pub fn same_shape(&self, b: &GenericParamDecl) -> (r: bool)
        ensures
            r == node_equivalent(self@, b@),
        decreases self, 0int,
    {
        ast_equiv(&self.name, &b.name)
            && opt_lists_equiv(&self.inherits, &b.inherits)
    }
}

impl ProgramEquivalent for GenericParamDecl {
    open spec fn equivalent(&self, other: &Self) -> bool {
        node_equivalent(self@, other@)
    }

    fn program_equivalent(&self, b: &Self) -> (r: bool) {
        self.same_shape(b)
    }
}

impl IdentifierDecl {
    /// Whether `self` and `b` are of the same shape.
    pub fn same_shape(&self, b: &IdentifierDecl) -> (r: bool)
        ensures
            r == node_equivalent(self@, b@),
        decreases self, 0int,
    {
        ast_equiv(&self.name, &b.name)
            && ast_equiv(&self.type_ref, &b.type_ref)
    }
}

impl ProgramEquivalent for IdentifierDecl {
    open spec fn equivalent(&self, other: &Self) -> bool {
        node_equivalent(self@, other@)
    }

    fn program_equivalent(&self, b: &Self) -> (r: bool) {
        self.same_shape(b)
    }
}

impl TypeDecl {
    /// Whether `self` and `b` are of the same shape. Two type declarations are of the same shape if their names, parents and bodies are; their generic parameters are not looked at.
    pub fn same_shape(&self, b: &TypeDecl) -> (r: bool)
        ensures
            r == node_equivalent(self@, b@),
        decreases self, 0int,
    {
        ast_equiv(&self.name, &b.name)
            && opt_lists_equiv(&self.inherits, &b.inherits)
            && opt_lists_equiv(&self.body, &b.body)
    }
}

impl ProgramEquivalent for TypeDecl {
    open spec fn equivalent(&self, other: &Self) -> bool {
        node_equivalent(self@, other@)
    }

    fn program_equivalent(&self, b: &Self) -> (r: bool) {
        self.same_shape(b)
    }
}

impl FieldDecl {
    /// Whether `self` and `b` are of the same shape.
    pub fn same_shape(&self, b: &FieldDecl) -> (r: bool)
        ensures
            r == node_equivalent(self@, b@),
        decreases self, 0int,
    {
        self.is_static == b.is_static
            && ast_equiv(&self.identifier, &b.identifier)
    }
}

impl ProgramEquivalent for FieldDecl {
    open spec fn equivalent(&self, other: &Self) -> bool {
        node_equivalent(self@, other@)
    }

    fn program_equivalent(&self, b: &Self) -> (r: bool) {
        self.same_shape(b)
    }
}

impl MethodDecl {
    /// Whether `self` and `b` are of the same shape.
    pub fn same_shape(&self, b: &MethodDecl) -> (r: bool)
        ensures
            r == node_equivalent(self@, b@),
        decreases self, 0int,
    {
        ast_equiv(&self.name, &b.name)
            && opt_lists_equiv(&self.generic_params, &b.generic_params)
            && lists_equiv(&self.params, &b.params)
            && opt_ast_equiv(&self.return_type, &b.return_type)
            && self.is_static == b.is_static
    }
}

impl ProgramEquivalent for MethodDecl {
    open spec fn equivalent(&self, other: &Self) -> bool {
        node_equivalent(self@, other@)
    }

    fn program_equivalent(&self, b: &Self) -> (r: bool) {
        self.same_shape(b)
    }
}

impl GlobalDecl {
    /// Whether `self` and `b` are of the same shape.
    pub fn same_shape(&self, b: &GlobalDecl) -> (r: bool)
        ensures
            r == node_equivalent(self@, b@),
        decreases self, 0int,
    {
        ast_equiv(&self.identifier, &b.identifier)
    }
}

impl ProgramEquivalent for GlobalDecl {
    open spec fn equivalent(&self, other: &Self) -> bool {
        node_equivalent(self@, other@)
    }

    fn program_equivalent(&self, b: &Self) -> (r: bool) {
        self.same_shape(b)
    }
}

impl TypeProgramNode {
    /// Whether `self` and `b` are of the same shape.
    pub fn same_shape(&self, b: &TypeProgramNode) -> (r: bool)
        ensures
            r == node_equivalent(self@, b@),
        decreases self, 0int,
    {
        lists_equiv(&self.statements, &b.statements)
    }
}

impl ProgramEquivalent for TypeProgramNode {
    open spec fn equivalent(&self, other: &Self) -> bool {
        node_equivalent(self@, other@)
    }

    fn program_equivalent(&self, b: &Self) -> (r: bool) {
        self.same_shape(b)
    }
}

impl UnitDecl {
    /// Whether `self` and `b` are of the same shape.
    pub fn same_shape(&self, b: &UnitDecl) -> (r: bool)
        ensures
            r == node_equivalent(self@, b@),
        decreases self, 0int,
    {
        ast_equiv(&self.unit, &b.unit)
    }
}

impl ProgramEquivalent for UnitDecl {
    open spec fn equivalent(&self, other: &Self) -> bool {
        node_equivalent(self@, other@)
    }

    fn program_equivalent(&self, b: &Self) -> (r: bool) {
        self.same_shape(b)
    }
}

} // verus!
