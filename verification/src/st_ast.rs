use crate::text::{join_display, join_seq};
use crate::types::{Type, TypeModel};
use std::ops::Range;
use vstd::prelude::*;

verus! {

/// A name, if there is one, with a type.
pub type Typing = (Option<Seq<char>>, TypeModel);

/// Model of a node of the syntax tree: the byte range it comes from, what it
/// holds, and the type remembered for it, if one was computed.
pub ghost struct AstModel {
    pub start: int,
    pub end: int,
    pub data: NodeModel,
    pub cached: Option<Typing>,
}

/// Model of what a node holds, by kind.
#[allow(inconsistent_fields)]
pub ghost enum NodeModel {
    SymbolNode { name: Seq<char> },
    TypeName { path: Seq<AstModel> },
    ArrayDecl { arity: usize, type_decl: Box<AstModel> },
    TypeRefDecl { name: Box<AstModel>, generic_decl: Option<Seq<AstModel>> },
    LambdaDecl { generic_params: Option<Seq<AstModel>>, params: Seq<AstModel>, return_type: Option<Box<AstModel>> },
    MethodParamDecl { type_ref: Box<AstModel>, variadic: bool },
    GenericParamDecl { name: Box<AstModel>, inherits: Option<Seq<AstModel>> },
    IdentifierDecl { name: Box<AstModel>, type_ref: Box<AstModel> },
    TypeDecl { name: Box<AstModel>, generic_params: Option<Seq<AstModel>>, inherits: Option<Seq<AstModel>>, body: Option<Seq<AstModel>> },
    FieldDecl { identifier: Box<AstModel>, is_static: bool },
    MethodDecl { name: Box<AstModel>, generic_params: Option<Seq<AstModel>>, params: Seq<AstModel>, return_type: Option<Box<AstModel>>, is_static: bool },
    GlobalDecl { identifier: Box<AstModel> },
    TypeProgramNode { statements: Seq<AstModel> },
    UnitDecl { unit: Box<AstModel> },
}

/// A node of the syntax tree.
#[derive(Debug)]
pub struct StAst {
    pub range: Range<usize>,
    pub data: NodeData,
    pub cached_type: Option<(Option<String>, Type)>,
}

/// What a node holds, by kind.
#[derive(Debug)]
pub enum NodeData {
    SymbolNode(SymbolNode),
    TypeName(TypeName),
    ArrayDecl(ArrayDecl),
    TypeRefDecl(TypeRefDecl),
    LambdaDecl(LambdaDecl),
    MethodParamDecl(MethodParamDecl),
    GenericParamDecl(GenericParamDecl),
    IdentifierDecl(IdentifierDecl),
    TypeDecl(TypeDecl),
    FieldDecl(FieldDecl),
    MethodDecl(MethodDecl),
    GlobalDecl(GlobalDecl),
    TypeProgramNode(TypeProgramNode),
    UnitDecl(UnitDecl),
}

/// The kind of a node, without what it holds.
#[derive(Debug, Clone, Copy, PartialEq, Eq, Structural)]
pub enum NodeDataDiscriminants {
    SymbolNode,
    TypeName,
    ArrayDecl,
    TypeRefDecl,
    LambdaDecl,
    MethodParamDecl,
    GenericParamDecl,
    IdentifierDecl,
    TypeDecl,
    FieldDecl,
    MethodDecl,
    GlobalDecl,
    TypeProgramNode,
    UnitDecl,
}

/// A bare symbol.
#[derive(Debug)]
pub struct SymbolNode {
    pub name: String,
}

/// The name of a type: a path of symbols.
#[derive(Debug)]
pub struct TypeName {
    pub path: Vec<StAst>,
}

/// An array of `arity` dimensions over a type.
#[derive(Debug)]
pub struct ArrayDecl {
    pub arity: usize,
    pub type_decl: Box<StAst>,
}

/// A reference to a named type, with generic arguments if any.
#[derive(Debug)]
pub struct TypeRefDecl {
    pub name: Box<StAst>,
    pub generic_decl: Option<Vec<StAst>>,
}

/// A lambda type.
#[derive(Debug)]
pub struct LambdaDecl {
    pub generic_params: Option<Vec<StAst>>,
    pub params: Vec<StAst>,
    pub return_type: Option<Box<StAst>>,
}

/// One parameter of a method or lambda.
#[derive(Debug)]
pub struct MethodParamDecl {
    pub type_ref: Box<StAst>,
    pub variadic: bool,
}

/// A generic parameter with the types it is bound by.
#[derive(Debug)]
pub struct GenericParamDecl {
    pub name: Box<StAst>,
    pub inherits: Option<Vec<StAst>>,
}

/// A name with its type.
#[derive(Debug)]
pub struct IdentifierDecl {
    pub name: Box<StAst>,
    pub type_ref: Box<StAst>,
}

/// The declaration of a type.
#[derive(Debug)]
pub struct TypeDecl {
    pub name: Box<StAst>,
    pub generic_params: Option<Vec<StAst>>,
    pub inherits: Option<Vec<StAst>>,
    pub body: Option<Vec<StAst>>,
}

/// A field of a type.
#[derive(Debug)]
pub struct FieldDecl {
    pub identifier: Box<StAst>,
    pub is_static: bool,
}

/// A method of a type.
#[derive(Debug)]
pub struct MethodDecl {
    pub name: Box<StAst>,
    pub generic_params: Option<Vec<StAst>>,
    pub params: Vec<StAst>,
    pub return_type: Option<Box<StAst>>,
    pub is_static: bool,
}

/// A static global.
#[derive(Debug)]
pub struct GlobalDecl {
    pub identifier: Box<StAst>,
}

/// A whole program.
#[derive(Debug)]
pub struct TypeProgramNode {
    pub statements: Vec<StAst>,
}

/// A type in parentheses.
#[derive(Debug)]
pub struct UnitDecl {
    pub unit: Box<StAst>,
}

/// The model of an optional name.
pub open spec fn name_model(name: Option<String>) -> Option<Seq<char>> {
    match name {
        Some(n) => Some(n@),
        None => None,
    }
}

/// The model of a name with a type.
pub open spec fn typing_model(typing: (Option<String>, Type)) -> Typing {
    (name_model(typing.0), typing.1@)
}

/// The model of the type that a caller hands down, if it hands one down.
pub open spec fn parent_model(parent: Option<&Type>) -> Option<TypeModel> {
    match parent {
        Some(t) => Some(t@),
        None => None,
    }
}

/// The models of a list of nodes.
pub open spec fn asts_model(s: Seq<StAst>) -> Seq<AstModel>
    decreases s, 0int,
{
    Seq::new(
        s.len(),
        |i: int|
            if 0 <= i < s.len() {
                ast_model(s[i])
            } else {
                AstModel {
                    start: 0,
                    end: 0,
                    data: NodeModel::SymbolNode { name: Seq::empty() },
                    cached: None,
                }
            },
    )
}

/// The model of what a node holds.
pub open spec fn node_model(d: NodeData) -> NodeModel
    decreases d, 0int,
{
    match d {
        NodeData::SymbolNode(d) => NodeModel::SymbolNode {
            name: d.name@,
        },
        NodeData::TypeName(d) => NodeModel::TypeName {
            path: asts_model(d.path@),
        },
        NodeData::ArrayDecl(d) => NodeModel::ArrayDecl {
            arity: d.arity,
            type_decl: Box::new(ast_model(*d.type_decl)),
        },
        NodeData::TypeRefDecl(d) => NodeModel::TypeRefDecl {
            name: Box::new(ast_model(*d.name)),
            generic_decl: match d.generic_decl {
                Some(v) => Some(asts_model(v@)),
                None => None,
            },
        },
        NodeData::LambdaDecl(d) => NodeModel::LambdaDecl {
            generic_params: match d.generic_params {
                Some(v) => Some(asts_model(v@)),
                None => None,
            },
            params: asts_model(d.params@),
            return_type: match d.return_type {
                Some(b) => Some(Box::new(ast_model(*b))),
                None => None,
            },
        },
        NodeData::MethodParamDecl(d) => NodeModel::MethodParamDecl {
            type_ref: Box::new(ast_model(*d.type_ref)),
            variadic: d.variadic,
        },
        NodeData::GenericParamDecl(d) => NodeModel::GenericParamDecl {
            name: Box::new(ast_model(*d.name)),
            inherits: match d.inherits {
                Some(v) => Some(asts_model(v@)),
                None => None,
            },
        },
        NodeData::IdentifierDecl(d) => NodeModel::IdentifierDecl {
            name: Box::new(ast_model(*d.name)),
            type_ref: Box::new(ast_model(*d.type_ref)),
        },
        NodeData::TypeDecl(d) => NodeModel::TypeDecl {
            name: Box::new(ast_model(*d.name)),
            generic_params: match d.generic_params {
                Some(v) => Some(asts_model(v@)),
                None => None,
            },
            inherits: match d.inherits {
                Some(v) => Some(asts_model(v@)),
                None => None,
            },
            body: match d.body {
                Some(v) => Some(asts_model(v@)),
                None => None,
            },
        },
        NodeData::FieldDecl(d) => NodeModel::FieldDecl {
            identifier: Box::new(ast_model(*d.identifier)),
            is_static: d.is_static,
        },
        NodeData::MethodDecl(d) => NodeModel::MethodDecl {
            name: Box::new(ast_model(*d.name)),
            generic_params: match d.generic_params {
                Some(v) => Some(asts_model(v@)),
                None => None,
            },
            params: asts_model(d.params@),
            return_type: match d.return_type {
                Some(b) => Some(Box::new(ast_model(*b))),
                None => None,
            },
            is_static: d.is_static,
        },
        NodeData::GlobalDecl(d) => NodeModel::GlobalDecl {
            identifier: Box::new(ast_model(*d.identifier)),
        },
        NodeData::TypeProgramNode(d) => NodeModel::TypeProgramNode {
            statements: asts_model(d.statements@),
        },
        NodeData::UnitDecl(d) => NodeModel::UnitDecl {
            unit: Box::new(ast_model(*d.unit)),
        },
    }
}

/// The model of a node.
pub open spec fn ast_model(a: StAst) -> AstModel
    decreases a, 1int,
{
    AstModel {
        start: a.range.start as int,
        end: a.range.end as int,
        data: node_model(a.data),
        cached: match a.cached_type {
            Some(c) => Some(typing_model(c)),
            None => None,
        },
    }
}

impl View for StAst {
    type V = AstModel;

    open spec fn view(&self) -> AstModel {
        ast_model(*self)
    }
}

impl View for NodeData {
    type V = NodeModel;

    open spec fn view(&self) -> NodeModel {
        node_model(*self)
    }
}

/// The models of the nodes that a list of references points to.
pub open spec fn refs_model(s: Seq<&StAst>) -> Seq<AstModel> {
    Seq::new(s.len(), |i: int| ast_model(*s[i]))
}

/// Making a node out of what it holds.
pub trait ToAST: Sized {
    /// What the node will hold.
    spec fn node_data(self) -> NodeData;

    fn to_ast(self, range: Range<usize>) -> (r: StAst)
        ensures
            r == (StAst { range, data: self.node_data(), cached_type: None }),
    ;

    fn to_ast_debug(self) -> (r: StAst)
        ensures
            r == (StAst {
                range: Range { start: 0, end: 0 },
                data: self.node_data(),
                cached_type: None,
            }),
    ;

    fn to_ast_boxed_debug(self) -> (r: Box<StAst>)
        ensures
            *r == (StAst {
                range: Range { start: 0, end: 0 },
                data: self.node_data(),
                cached_type: None,
            }),
    ;
}

impl ToAST for NodeData {
    open spec fn node_data(self) -> NodeData {
        self
    }

    fn to_ast(self, range: Range<usize>) -> (r: StAst) {
        StAst::new(range, self)
    }

    fn to_ast_debug(self) -> (r: StAst) {
        StAst::new(0..0, self)
    }

    fn to_ast_boxed_debug(self) -> (r: Box<StAst>) {
        Box::new(StAst::new(0..0, self))
    }
}

impl View for SymbolNode {
    type V = NodeModel;

    open spec fn view(&self) -> NodeModel {
        node_model(NodeData::SymbolNode(*self))
    }
}

impl SymbolNode {
    pub fn new(name: String) -> (r: SymbolNode)
        ensures
            r == (SymbolNode { name }),
    {
        SymbolNode { name }
    }

    pub fn name(&self) -> (r: &String)
        ensures
            *r == self.name,
    {
        &self.name
    }

    /// The type name whose path is this symbol alone.
    pub fn to_type_name_debug(self) -> (r: TypeName)
        ensures
            r.path@ == seq![
                (StAst {
                    range: Range { start: 0, end: 0 },
                    data: NodeData::SymbolNode(self),
                    cached_type: None,
                }),
            ],
    {
        let mut path: Vec<StAst> = Vec::new();
        path.push(StAst::new(0..0, NodeData::SymbolNode(self)));
        TypeName { path }
    }
}

impl From<SymbolNode> for NodeData {
    fn from(value: SymbolNode) -> (r: NodeData) {
        NodeData::SymbolNode(value)
    }
}

impl vstd::std_specs::convert::FromSpecImpl<SymbolNode> for NodeData {
    open spec fn obeys_from_spec() -> bool {
        true
    }

    open spec fn from_spec(value: SymbolNode) -> NodeData {
        NodeData::SymbolNode(value)
    }
}

impl ToAST for SymbolNode {
    open spec fn node_data(self) -> NodeData {
        NodeData::SymbolNode(self)
    }

    fn to_ast(self, range: Range<usize>) -> (r: StAst) {
        StAst::new(range, NodeData::SymbolNode(self))
    }

    fn to_ast_debug(self) -> (r: StAst) {
        StAst::new(0..0, NodeData::SymbolNode(self))
    }

    fn to_ast_boxed_debug(self) -> (r: Box<StAst>) {
        Box::new(StAst::new(0..0, NodeData::SymbolNode(self)))
    }
}

impl View for TypeName {
    type V = NodeModel;

    open spec fn view(&self) -> NodeModel {
        node_model(NodeData::TypeName(*self))
    }
}

impl TypeName {
    pub fn new(path: Vec<StAst>) -> (r: TypeName)
        ensures
            r == (TypeName { path }),
    {
        TypeName { path }
    }

    pub fn path(&self) -> (r: &Vec<StAst>)
        ensures
            *r == self.path,
    {
        &self.path
    }
}

impl From<TypeName> for NodeData {
    fn from(value: TypeName) -> (r: NodeData) {
        NodeData::TypeName(value)
    }
}

impl vstd::std_specs::convert::FromSpecImpl<TypeName> for NodeData {
    open spec fn obeys_from_spec() -> bool {
        true
    }

    open spec fn from_spec(value: TypeName) -> NodeData {
        NodeData::TypeName(value)
    }
}

impl ToAST for TypeName {
    open spec fn node_data(self) -> NodeData {
        NodeData::TypeName(self)
    }

    fn to_ast(self, range: Range<usize>) -> (r: StAst) {
        StAst::new(range, NodeData::TypeName(self))
    }

    fn to_ast_debug(self) -> (r: StAst) {
        StAst::new(0..0, NodeData::TypeName(self))
    }

    fn to_ast_boxed_debug(self) -> (r: Box<StAst>) {
        Box::new(StAst::new(0..0, NodeData::TypeName(self)))
    }
}

impl View for ArrayDecl {
    type V = NodeModel;

    open spec fn view(&self) -> NodeModel {
        node_model(NodeData::ArrayDecl(*self))
    }
}

impl ArrayDecl {
    pub fn new(arity: usize, type_decl: Box<StAst>) -> (r: ArrayDecl)
        ensures
            r == (ArrayDecl { arity, type_decl }),
    {
        ArrayDecl { arity, type_decl }
    }

    pub fn arity(&self) -> (r: &usize)
        ensures
            *r == self.arity,
    {
        &self.arity
    }

    pub fn type_decl(&self) -> (r: &Box<StAst>)
        ensures
            *r == self.type_decl,
    {
        &self.type_decl
    }
}

impl From<ArrayDecl> for NodeData {
    fn from(value: ArrayDecl) -> (r: NodeData) {
        NodeData::ArrayDecl(value)
    }
}

impl vstd::std_specs::convert::FromSpecImpl<ArrayDecl> for NodeData {
    open spec fn obeys_from_spec() -> bool {
        true
    }

    open spec fn from_spec(value: ArrayDecl) -> NodeData {
        NodeData::ArrayDecl(value)
    }
}

impl ToAST for ArrayDecl {
    open spec fn node_data(self) -> NodeData {
        NodeData::ArrayDecl(self)
    }

    fn to_ast(self, range: Range<usize>) -> (r: StAst) {
        StAst::new(range, NodeData::ArrayDecl(self))
    }

    fn to_ast_debug(self) -> (r: StAst) {
        StAst::new(0..0, NodeData::ArrayDecl(self))
    }

    fn to_ast_boxed_debug(self) -> (r: Box<StAst>) {
        Box::new(StAst::new(0..0, NodeData::ArrayDecl(self)))
    }
}

impl View for TypeRefDecl {
    type V = NodeModel;

    open spec fn view(&self) -> NodeModel {
        node_model(NodeData::TypeRefDecl(*self))
    }
}

impl TypeRefDecl {
    pub fn new(name: Box<StAst>, generic_decl: Option<Vec<StAst>>) -> (r: TypeRefDecl)
        ensures
            r == (TypeRefDecl { name, generic_decl }),
    {
        TypeRefDecl { name, generic_decl }
    }

    pub fn name(&self) -> (r: &Box<StAst>)
        ensures
            *r == self.name,
    {
        &self.name
    }

    pub fn generic_decl(&self) -> (r: &Option<Vec<StAst>>)
        ensures
            *r == self.generic_decl,
    {
        &self.generic_decl
    }
}

impl From<TypeRefDecl> for NodeData {
    fn from(value: TypeRefDecl) -> (r: NodeData) {
        NodeData::TypeRefDecl(value)
    }
}

impl vstd::std_specs::convert::FromSpecImpl<TypeRefDecl> for NodeData {
    open spec fn obeys_from_spec() -> bool {
        true
    }

    open spec fn from_spec(value: TypeRefDecl) -> NodeData {
        NodeData::TypeRefDecl(value)
    }
}

impl ToAST for TypeRefDecl {
    open spec fn node_data(self) -> NodeData {
        NodeData::TypeRefDecl(self)
    }

    fn to_ast(self, range: Range<usize>) -> (r: StAst) {
        StAst::new(range, NodeData::TypeRefDecl(self))
    }

    fn to_ast_debug(self) -> (r: StAst) {
        StAst::new(0..0, NodeData::TypeRefDecl(self))
    }

    fn to_ast_boxed_debug(self) -> (r: Box<StAst>) {
        Box::new(StAst::new(0..0, NodeData::TypeRefDecl(self)))
    }
}

impl View for LambdaDecl {
    type V = NodeModel;

    open spec fn view(&self) -> NodeModel {
        node_model(NodeData::LambdaDecl(*self))
    }
}

impl LambdaDecl {
    pub fn new(generic_params: Option<Vec<StAst>>, params: Vec<StAst>, return_type: Option<Box<StAst>>) -> (r: LambdaDecl)
        ensures
            r == (LambdaDecl { generic_params, params, return_type }),
    {
        LambdaDecl { generic_params, params, return_type }
    }

    pub fn generic_params(&self) -> (r: &Option<Vec<StAst>>)
        ensures
            *r == self.generic_params,
    {
        &self.generic_params
    }

    pub fn params(&self) -> (r: &Vec<StAst>)
        ensures
            *r == self.params,
    {
        &self.params
    }

    pub fn return_type(&self) -> (r: &Option<Box<StAst>>)
        ensures
            *r == self.return_type,
    {
        &self.return_type
    }
}

impl From<LambdaDecl> for NodeData {
    fn from(value: LambdaDecl) -> (r: NodeData) {
        NodeData::LambdaDecl(value)
    }
}

impl vstd::std_specs::convert::FromSpecImpl<LambdaDecl> for NodeData {
    open spec fn obeys_from_spec() -> bool {
        true
    }

    open spec fn from_spec(value: LambdaDecl) -> NodeData {
        NodeData::LambdaDecl(value)
    }
}

impl ToAST for LambdaDecl {
    open spec fn node_data(self) -> NodeData {
        NodeData::LambdaDecl(self)
    }

    fn to_ast(self, range: Range<usize>) -> (r: StAst) {
        StAst::new(range, NodeData::LambdaDecl(self))
    }

    fn to_ast_debug(self) -> (r: StAst) {
        StAst::new(0..0, NodeData::LambdaDecl(self))
    }

    fn to_ast_boxed_debug(self) -> (r: Box<StAst>) {
        Box::new(StAst::new(0..0, NodeData::LambdaDecl(self)))
    }
}

impl View for MethodParamDecl {
    type V = NodeModel;

    open spec fn view(&self) -> NodeModel {
        node_model(NodeData::MethodParamDecl(*self))
    }
}

impl MethodParamDecl {
    pub fn new(type_ref: Box<StAst>, variadic: bool) -> (r: MethodParamDecl)
        ensures
            r == (MethodParamDecl { type_ref, variadic }),
    {
        MethodParamDecl { type_ref, variadic }
    }

    pub fn type_ref(&self) -> (r: &Box<StAst>)
        ensures
            *r == self.type_ref,
    {
        &self.type_ref
    }

    pub fn variadic(&self) -> (r: &bool)
        ensures
            *r == self.variadic,
    {
        &self.variadic
    }
}

impl From<MethodParamDecl> for NodeData {
    fn from(value: MethodParamDecl) -> (r: NodeData) {
        NodeData::MethodParamDecl(value)
    }
}

impl vstd::std_specs::convert::FromSpecImpl<MethodParamDecl> for NodeData {
    open spec fn obeys_from_spec() -> bool {
        true
    }

    open spec fn from_spec(value: MethodParamDecl) -> NodeData {
        NodeData::MethodParamDecl(value)
    }
}

impl ToAST for MethodParamDecl {
    open spec fn node_data(self) -> NodeData {
        NodeData::MethodParamDecl(self)
    }

    fn to_ast(self, range: Range<usize>) -> (r: StAst) {
        StAst::new(range, NodeData::MethodParamDecl(self))
    }

    fn to_ast_debug(self) -> (r: StAst) {
        StAst::new(0..0, NodeData::MethodParamDecl(self))
    }

    fn to_ast_boxed_debug(self) -> (r: Box<StAst>) {
        Box::new(StAst::new(0..0, NodeData::MethodParamDecl(self)))
    }
}

impl View for GenericParamDecl {
    type V = NodeModel;

    open spec fn view(&self) -> NodeModel {
        node_model(NodeData::GenericParamDecl(*self))
    }
}

impl GenericParamDecl {
    pub fn new(name: Box<StAst>, inherits: Option<Vec<StAst>>) -> (r: GenericParamDecl)
        ensures
            r == (GenericParamDecl { name, inherits }),
    {
        GenericParamDecl { name, inherits }
    }

    pub fn name(&self) -> (r: &Box<StAst>)
        ensures
            *r == self.name,
    {
        &self.name
    }

    pub fn inherits(&self) -> (r: &Option<Vec<StAst>>)
        ensures
            *r == self.inherits,
    {
        &self.inherits
    }
}

impl From<GenericParamDecl> for NodeData {
    fn from(value: GenericParamDecl) -> (r: NodeData) {
        NodeData::GenericParamDecl(value)
    }
}

impl vstd::std_specs::convert::FromSpecImpl<GenericParamDecl> for NodeData {
    open spec fn obeys_from_spec() -> bool {
        true
    }

    open spec fn from_spec(value: GenericParamDecl) -> NodeData {
        NodeData::GenericParamDecl(value)
    }
}

impl ToAST for GenericParamDecl {
    open spec fn node_data(self) -> NodeData {
        NodeData::GenericParamDecl(self)
    }

    fn to_ast(self, range: Range<usize>) -> (r: StAst) {
        StAst::new(range, NodeData::GenericParamDecl(self))
    }

    fn to_ast_debug(self) -> (r: StAst) {
        StAst::new(0..0, NodeData::GenericParamDecl(self))
    }

    fn to_ast_boxed_debug(self) -> (r: Box<StAst>) {
        Box::new(StAst::new(0..0, NodeData::GenericParamDecl(self)))
    }
}

impl View for IdentifierDecl {
    type V = NodeModel;

    open spec fn view(&self) -> NodeModel {
        node_model(NodeData::IdentifierDecl(*self))
    }
}

impl IdentifierDecl {
    pub fn new(name: Box<StAst>, type_ref: Box<StAst>) -> (r: IdentifierDecl)
        ensures
            r == (IdentifierDecl { name, type_ref }),
    {
        IdentifierDecl { name, type_ref }
    }

    pub fn name(&self) -> (r: &Box<StAst>)
        ensures
            *r == self.name,
    {
        &self.name
    }

    pub fn type_ref(&self) -> (r: &Box<StAst>)
        ensures
            *r == self.type_ref,
    {
        &self.type_ref
    }
}

impl From<IdentifierDecl> for NodeData {
    fn from(value: IdentifierDecl) -> (r: NodeData) {
        NodeData::IdentifierDecl(value)
    }
}

impl vstd::std_specs::convert::FromSpecImpl<IdentifierDecl> for NodeData {
    open spec fn obeys_from_spec() -> bool {
        true
    }

    open spec fn from_spec(value: IdentifierDecl) -> NodeData {
        NodeData::IdentifierDecl(value)
    }
}

impl ToAST for IdentifierDecl {
    open spec fn node_data(self) -> NodeData {
        NodeData::IdentifierDecl(self)
    }

    fn to_ast(self, range: Range<usize>) -> (r: StAst) {
        StAst::new(range, NodeData::IdentifierDecl(self))
    }

    fn to_ast_debug(self) -> (r: StAst) {
        StAst::new(0..0, NodeData::IdentifierDecl(self))
    }

    fn to_ast_boxed_debug(self) -> (r: Box<StAst>) {
        Box::new(StAst::new(0..0, NodeData::IdentifierDecl(self)))
    }
}

impl View for TypeDecl {
    type V = NodeModel;

    open spec fn view(&self) -> NodeModel {
        node_model(NodeData::TypeDecl(*self))
    }
}

impl TypeDecl {
    pub fn new(name: Box<StAst>, generic_params: Option<Vec<StAst>>, inherits: Option<Vec<StAst>>, body: Option<Vec<StAst>>) -> (r: TypeDecl)
        ensures
            r == (TypeDecl { name, generic_params, inherits, body }),
    {
        TypeDecl { name, generic_params, inherits, body }
    }

    pub fn name(&self) -> (r: &Box<StAst>)
        ensures
            *r == self.name,
    {
        &self.name
    }

    pub fn generic_params(&self) -> (r: &Option<Vec<StAst>>)
        ensures
            *r == self.generic_params,
    {
        &self.generic_params
    }

    pub fn inherits(&self) -> (r: &Option<Vec<StAst>>)
        ensures
            *r == self.inherits,
    {
        &self.inherits
    }

    pub fn body(&self) -> (r: &Option<Vec<StAst>>)
        ensures
            *r == self.body,
    {
        &self.body
    }
}

impl From<TypeDecl> for NodeData {
    fn from(value: TypeDecl) -> (r: NodeData) {
        NodeData::TypeDecl(value)
    }
}

impl vstd::std_specs::convert::FromSpecImpl<TypeDecl> for NodeData {
    open spec fn obeys_from_spec() -> bool {
        true
    }

    open spec fn from_spec(value: TypeDecl) -> NodeData {
        NodeData::TypeDecl(value)
    }
}

impl ToAST for TypeDecl {
    open spec fn node_data(self) -> NodeData {
        NodeData::TypeDecl(self)
    }

    fn to_ast(self, range: Range<usize>) -> (r: StAst) {
        StAst::new(range, NodeData::TypeDecl(self))
    }

    fn to_ast_debug(self) -> (r: StAst) {
        StAst::new(0..0, NodeData::TypeDecl(self))
    }

    fn to_ast_boxed_debug(self) -> (r: Box<StAst>) {
        Box::new(StAst::new(0..0, NodeData::TypeDecl(self)))
    }
}

impl View for FieldDecl {
    type V = NodeModel;

    open spec fn view(&self) -> NodeModel {
        node_model(NodeData::FieldDecl(*self))
    }
}

impl FieldDecl {
    pub fn new(identifier: Box<StAst>, is_static: bool) -> (r: FieldDecl)
        ensures
            r == (FieldDecl { identifier, is_static }),
    {
        FieldDecl { identifier, is_static }
    }

    pub fn identifier(&self) -> (r: &Box<StAst>)
        ensures
            *r == self.identifier,
    {
        &self.identifier
    }

    pub fn is_static(&self) -> (r: &bool)
        ensures
            *r == self.is_static,
    {
        &self.is_static
    }
}

impl From<FieldDecl> for NodeData {
    fn from(value: FieldDecl) -> (r: NodeData) {
        NodeData::FieldDecl(value)
    }
}

impl vstd::std_specs::convert::FromSpecImpl<FieldDecl> for NodeData {
    open spec fn obeys_from_spec() -> bool {
        true
    }

    open spec fn from_spec(value: FieldDecl) -> NodeData {
        NodeData::FieldDecl(value)
    }
}

impl ToAST for FieldDecl {
    open spec fn node_data(self) -> NodeData {
        NodeData::FieldDecl(self)
    }

    fn to_ast(self, range: Range<usize>) -> (r: StAst) {
        StAst::new(range, NodeData::FieldDecl(self))
    }

    fn to_ast_debug(self) -> (r: StAst) {
        StAst::new(0..0, NodeData::FieldDecl(self))
    }

    fn to_ast_boxed_debug(self) -> (r: Box<StAst>) {
        Box::new(StAst::new(0..0, NodeData::FieldDecl(self)))
    }
}

impl View for MethodDecl {
    type V = NodeModel;

    open spec fn view(&self) -> NodeModel {
        node_model(NodeData::MethodDecl(*self))
    }
}

impl MethodDecl {
    pub fn new(name: Box<StAst>, generic_params: Option<Vec<StAst>>, params: Vec<StAst>, return_type: Option<Box<StAst>>, is_static: bool) -> (r: MethodDecl)
        ensures
            r == (MethodDecl { name, generic_params, params, return_type, is_static }),
    {
        MethodDecl { name, generic_params, params, return_type, is_static }
    }

    pub fn name(&self) -> (r: &Box<StAst>)
        ensures
            *r == self.name,
    {
        &self.name
    }

    pub fn generic_params(&self) -> (r: &Option<Vec<StAst>>)
        ensures
            *r == self.generic_params,
    {
        &self.generic_params
    }

    pub fn params(&self) -> (r: &Vec<StAst>)
        ensures
            *r == self.params,
    {
        &self.params
    }

    pub fn return_type(&self) -> (r: &Option<Box<StAst>>)
        ensures
            *r == self.return_type,
    {
        &self.return_type
    }

    pub fn is_static(&self) -> (r: &bool)
        ensures
            *r == self.is_static,
    {
        &self.is_static
    }
}

impl From<MethodDecl> for NodeData {
    fn from(value: MethodDecl) -> (r: NodeData) {
        NodeData::MethodDecl(value)
    }
}

impl vstd::std_specs::convert::FromSpecImpl<MethodDecl> for NodeData {
    open spec fn obeys_from_spec() -> bool {
        true
    }

    open spec fn from_spec(value: MethodDecl) -> NodeData {
        NodeData::MethodDecl(value)
    }
}

impl ToAST for MethodDecl {
    open spec fn node_data(self) -> NodeData {
        NodeData::MethodDecl(self)
    }

    fn to_ast(self, range: Range<usize>) -> (r: StAst) {
        StAst::new(range, NodeData::MethodDecl(self))
    }

    fn to_ast_debug(self) -> (r: StAst) {
        StAst::new(0..0, NodeData::MethodDecl(self))
    }

    fn to_ast_boxed_debug(self) -> (r: Box<StAst>) {
        Box::new(StAst::new(0..0, NodeData::MethodDecl(self)))
    }
}

impl View for GlobalDecl {
    type V = NodeModel;

    open spec fn view(&self) -> NodeModel {
        node_model(NodeData::GlobalDecl(*self))
    }
}

impl GlobalDecl {
    pub fn new(identifier: Box<StAst>) -> (r: GlobalDecl)
        ensures
            r == (GlobalDecl { identifier }),
    {
        GlobalDecl { identifier }
    }

    pub fn identifier(&self) -> (r: &Box<StAst>)
        ensures
            *r == self.identifier,
    {
        &self.identifier
    }
}

impl From<GlobalDecl> for NodeData {
    fn from(value: GlobalDecl) -> (r: NodeData) {
        NodeData::GlobalDecl(value)
    }
}

impl vstd::std_specs::convert::FromSpecImpl<GlobalDecl> for NodeData {
    open spec fn obeys_from_spec() -> bool {
        true
    }

    open spec fn from_spec(value: GlobalDecl) -> NodeData {
        NodeData::GlobalDecl(value)
    }
}

impl ToAST for GlobalDecl {
    open spec fn node_data(self) -> NodeData {
        NodeData::GlobalDecl(self)
    }

    fn to_ast(self, range: Range<usize>) -> (r: StAst) {
        StAst::new(range, NodeData::GlobalDecl(self))
    }

    fn to_ast_debug(self) -> (r: StAst) {
        StAst::new(0..0, NodeData::GlobalDecl(self))
    }

    fn to_ast_boxed_debug(self) -> (r: Box<StAst>) {
        Box::new(StAst::new(0..0, NodeData::GlobalDecl(self)))
    }
}

impl View for TypeProgramNode {
    type V = NodeModel;

    open spec fn view(&self) -> NodeModel {
        node_model(NodeData::TypeProgramNode(*self))
    }
}

impl TypeProgramNode {
    pub fn new(statements: Vec<StAst>) -> (r: TypeProgramNode)
        ensures
            r == (TypeProgramNode { statements }),
    {
        TypeProgramNode { statements }
    }

    pub fn statements(&self) -> (r: &Vec<StAst>)
        ensures
            *r == self.statements,
    {
        &self.statements
    }
}

impl From<TypeProgramNode> for NodeData {
    fn from(value: TypeProgramNode) -> (r: NodeData) {
        NodeData::TypeProgramNode(value)
    }
}

impl vstd::std_specs::convert::FromSpecImpl<TypeProgramNode> for NodeData {
    open spec fn obeys_from_spec() -> bool {
        true
    }

    open spec fn from_spec(value: TypeProgramNode) -> NodeData {
        NodeData::TypeProgramNode(value)
    }
}

impl ToAST for TypeProgramNode {
    open spec fn node_data(self) -> NodeData {
        NodeData::TypeProgramNode(self)
    }

    fn to_ast(self, range: Range<usize>) -> (r: StAst) {
        StAst::new(range, NodeData::TypeProgramNode(self))
    }

    fn to_ast_debug(self) -> (r: StAst) {
        StAst::new(0..0, NodeData::TypeProgramNode(self))
    }

    fn to_ast_boxed_debug(self) -> (r: Box<StAst>) {
        Box::new(StAst::new(0..0, NodeData::TypeProgramNode(self)))
    }
}

impl View for UnitDecl {
    type V = NodeModel;

    open spec fn view(&self) -> NodeModel {
        node_model(NodeData::UnitDecl(*self))
    }
}

impl UnitDecl {
    pub fn new(unit: Box<StAst>) -> (r: UnitDecl)
        ensures
            r == (UnitDecl { unit }),
    {
        UnitDecl { unit }
    }

    pub fn unit(&self) -> (r: &Box<StAst>)
        ensures
            *r == self.unit,
    {
        &self.unit
    }
}

impl From<UnitDecl> for NodeData {
    fn from(value: UnitDecl) -> (r: NodeData) {
        NodeData::UnitDecl(value)
    }
}

impl vstd::std_specs::convert::FromSpecImpl<UnitDecl> for NodeData {
    open spec fn obeys_from_spec() -> bool {
        true
    }

    open spec fn from_spec(value: UnitDecl) -> NodeData {
        NodeData::UnitDecl(value)
    }
}

impl ToAST for UnitDecl {
    open spec fn node_data(self) -> NodeData {
        NodeData::UnitDecl(self)
    }

    fn to_ast(self, range: Range<usize>) -> (r: StAst) {
        StAst::new(range, NodeData::UnitDecl(self))
    }

    fn to_ast_debug(self) -> (r: StAst) {
        StAst::new(0..0, NodeData::UnitDecl(self))
    }

    fn to_ast_boxed_debug(self) -> (r: Box<StAst>) {
        Box::new(StAst::new(0..0, NodeData::UnitDecl(self)))
    }
}

impl NodeData {
    /// The kind of the node.
    pub fn discriminant(&self) -> (r: NodeDataDiscriminants)
        ensures
            r == discriminant_of(self@),
    {
        match self {
            NodeData::SymbolNode(_) => NodeDataDiscriminants::SymbolNode,
            NodeData::TypeName(_) => NodeDataDiscriminants::TypeName,
            NodeData::ArrayDecl(_) => NodeDataDiscriminants::ArrayDecl,
            NodeData::TypeRefDecl(_) => NodeDataDiscriminants::TypeRefDecl,
            NodeData::LambdaDecl(_) => NodeDataDiscriminants::LambdaDecl,
            NodeData::MethodParamDecl(_) => NodeDataDiscriminants::MethodParamDecl,
            NodeData::GenericParamDecl(_) => NodeDataDiscriminants::GenericParamDecl,
            NodeData::IdentifierDecl(_) => NodeDataDiscriminants::IdentifierDecl,
            NodeData::TypeDecl(_) => NodeDataDiscriminants::TypeDecl,
            NodeData::FieldDecl(_) => NodeDataDiscriminants::FieldDecl,
            NodeData::MethodDecl(_) => NodeDataDiscriminants::MethodDecl,
            NodeData::GlobalDecl(_) => NodeDataDiscriminants::GlobalDecl,
            NodeData::TypeProgramNode(_) => NodeDataDiscriminants::TypeProgramNode,
            NodeData::UnitDecl(_) => NodeDataDiscriminants::UnitDecl,
        }
    }

    /// What the node holds if it is of the kind `SymbolNode`.
    pub fn try_as_symbol_node_ref(&self) -> (r: Option<&SymbolNode>)
        ensures
            r is Some == self is SymbolNode,
            r matches Some(d) ==> *self == NodeData::SymbolNode(*d),
    {
        match self {
            NodeData::SymbolNode(d) => Some(d),
            _ => None,
        }
    }

    /// What the node holds if it is of the kind `TypeName`.
    pub fn try_as_type_name_ref(&self) -> (r: Option<&TypeName>)
        ensures
            r is Some == self is TypeName,
            r matches Some(d) ==> *self == NodeData::TypeName(*d),
    {
        match self {
            NodeData::TypeName(d) => Some(d),
            _ => None,
        }
    }

    /// What the node holds if it is of the kind `ArrayDecl`.
    pub fn try_as_array_decl_ref(&self) -> (r: Option<&ArrayDecl>)
        ensures
            r is Some == self is ArrayDecl,
            r matches Some(d) ==> *self == NodeData::ArrayDecl(*d),
    {
        match self {
            NodeData::ArrayDecl(d) => Some(d),
            _ => None,
        }
    }

    /// What the node holds if it is of the kind `TypeRefDecl`.
    pub fn try_as_type_ref_decl_ref(&self) -> (r: Option<&TypeRefDecl>)
        ensures
            r is Some == self is TypeRefDecl,
            r matches Some(d) ==> *self == NodeData::TypeRefDecl(*d),
    {
        match self {
            NodeData::TypeRefDecl(d) => Some(d),
            _ => None,
        }
    }

    /// What the node holds if it is of the kind `LambdaDecl`.
    pub fn try_as_lambda_decl_ref(&self) -> (r: Option<&LambdaDecl>)
        ensures
            r is Some == self is LambdaDecl,
            r matches Some(d) ==> *self == NodeData::LambdaDecl(*d),
    {
        match self {
            NodeData::LambdaDecl(d) => Some(d),
            _ => None,
        }
    }

    /// What the node holds if it is of the kind `MethodParamDecl`.
    pub fn try_as_method_param_decl_ref(&self) -> (r: Option<&MethodParamDecl>)
        ensures
            r is Some == self is MethodParamDecl,
            r matches Some(d) ==> *self == NodeData::MethodParamDecl(*d),
    {
        match self {
            NodeData::MethodParamDecl(d) => Some(d),
            _ => None,
        }
    }

    /// What the node holds if it is of the kind `GenericParamDecl`.
    pub fn try_as_generic_param_decl_ref(&self) -> (r: Option<&GenericParamDecl>)
        ensures
            r is Some == self is GenericParamDecl,
            r matches Some(d) ==> *self == NodeData::GenericParamDecl(*d),
    {
        match self {
            NodeData::GenericParamDecl(d) => Some(d),
            _ => None,
        }
    }

    /// What the node holds if it is of the kind `IdentifierDecl`.
    pub fn try_as_identifier_decl_ref(&self) -> (r: Option<&IdentifierDecl>)
        ensures
            r is Some == self is IdentifierDecl,
            r matches Some(d) ==> *self == NodeData::IdentifierDecl(*d),
    {
        match self {
            NodeData::IdentifierDecl(d) => Some(d),
            _ => None,
        }
    }

    /// What the node holds if it is of the kind `TypeDecl`.
    pub fn try_as_type_decl_ref(&self) -> (r: Option<&TypeDecl>)
        ensures
            r is Some == self is TypeDecl,
            r matches Some(d) ==> *self == NodeData::TypeDecl(*d),
    {
        match self {
            NodeData::TypeDecl(d) => Some(d),
            _ => None,
        }
    }

    /// What the node holds if it is of the kind `FieldDecl`.
    pub fn try_as_field_decl_ref(&self) -> (r: Option<&FieldDecl>)
        ensures
            r is Some == self is FieldDecl,
            r matches Some(d) ==> *self == NodeData::FieldDecl(*d),
    {
        match self {
            NodeData::FieldDecl(d) => Some(d),
            _ => None,
        }
    }

    /// What the node holds if it is of the kind `MethodDecl`.
    pub fn try_as_method_decl_ref(&self) -> (r: Option<&MethodDecl>)
        ensures
            r is Some == self is MethodDecl,
            r matches Some(d) ==> *self == NodeData::MethodDecl(*d),
    {
        match self {
            NodeData::MethodDecl(d) => Some(d),
            _ => None,
        }
    }

    /// What the node holds if it is of the kind `GlobalDecl`.
    pub fn try_as_global_decl_ref(&self) -> (r: Option<&GlobalDecl>)
        ensures
            r is Some == self is GlobalDecl,
            r matches Some(d) ==> *self == NodeData::GlobalDecl(*d),
    {
        match self {
            NodeData::GlobalDecl(d) => Some(d),
            _ => None,
        }
    }

    /// What the node holds if it is of the kind `TypeProgramNode`.
    pub fn try_as_type_program_node_ref(&self) -> (r: Option<&TypeProgramNode>)
        ensures
            r is Some == self is TypeProgramNode,
            r matches Some(d) ==> *self == NodeData::TypeProgramNode(*d),
    {
        match self {
            NodeData::TypeProgramNode(d) => Some(d),
            _ => None,
        }
    }

    /// What the node holds if it is of the kind `UnitDecl`.
    pub fn try_as_unit_decl_ref(&self) -> (r: Option<&UnitDecl>)
        ensures
            r is Some == self is UnitDecl,
            r matches Some(d) ==> *self == NodeData::UnitDecl(*d),
    {
        match self {
            NodeData::UnitDecl(d) => Some(d),
            _ => None,
        }
    }
}

/// The kind of a node.
pub open spec fn discriminant_of(d: NodeModel) -> NodeDataDiscriminants {
    match d {
        NodeModel::SymbolNode { .. } => NodeDataDiscriminants::SymbolNode,
        NodeModel::TypeName { .. } => NodeDataDiscriminants::TypeName,
        NodeModel::ArrayDecl { .. } => NodeDataDiscriminants::ArrayDecl,
        NodeModel::TypeRefDecl { .. } => NodeDataDiscriminants::TypeRefDecl,
        NodeModel::LambdaDecl { .. } => NodeDataDiscriminants::LambdaDecl,
        NodeModel::MethodParamDecl { .. } => NodeDataDiscriminants::MethodParamDecl,
        NodeModel::GenericParamDecl { .. } => NodeDataDiscriminants::GenericParamDecl,
        NodeModel::IdentifierDecl { .. } => NodeDataDiscriminants::IdentifierDecl,
        NodeModel::TypeDecl { .. } => NodeDataDiscriminants::TypeDecl,
        NodeModel::FieldDecl { .. } => NodeDataDiscriminants::FieldDecl,
        NodeModel::MethodDecl { .. } => NodeDataDiscriminants::MethodDecl,
        NodeModel::GlobalDecl { .. } => NodeDataDiscriminants::GlobalDecl,
        NodeModel::TypeProgramNode { .. } => NodeDataDiscriminants::TypeProgramNode,
        NodeModel::UnitDecl { .. } => NodeDataDiscriminants::UnitDecl,
    }
}

/// The names of the nodes of a path, the empty name for a node without one.
pub open spec fn path_names(path: Seq<AstModel>) -> Seq<Seq<char>>
    decreases path, 0int,
{
    Seq::new(
        path.len(),
        |i: int|
            if 0 <= i < path.len() {
                match node_name(path[i]) {
                    Some(n) => n,
                    None => Seq::empty(),
                }
            } else {
                Seq::empty()
            },
    )
}

/// The name that a node stands for: a symbol's own name, or the names of a
/// path joined by `::`. Other nodes stand for no name.
pub open spec fn node_name(a: AstModel) -> Option<Seq<char>>
    decreases a, 1int,
{
    match a.data {
        NodeModel::SymbolNode { name } => Some(name),
        NodeModel::TypeName { path } => Some(join_seq(path_names(path), "::"@)),
        _ => None,
    }
}

/// The nodes directly below a node, in source order.
pub open spec fn children_model(a: AstModel) -> Seq<AstModel> {
    match a.data {
        NodeModel::SymbolNode { .. } => Seq::empty(),
        NodeModel::TypeName { path } => path,
        NodeModel::ArrayDecl { type_decl, .. } => seq![*type_decl],
        NodeModel::TypeRefDecl { name, generic_decl } => seq![*name] + list_or_empty(generic_decl),
        NodeModel::LambdaDecl { generic_params, params, return_type } => list_or_empty(
            generic_params,
        ) + params + one_or_empty(return_type),
        NodeModel::MethodParamDecl { type_ref, .. } => seq![*type_ref],
        NodeModel::GenericParamDecl { name, inherits } => seq![*name] + list_or_empty(inherits),
        NodeModel::IdentifierDecl { name, type_ref } => seq![*name, *type_ref],
        NodeModel::TypeDecl { name, generic_params, inherits, body } => seq![*name]
            + list_or_empty(generic_params) + list_or_empty(inherits) + list_or_empty(body),
        NodeModel::FieldDecl { identifier, .. } => seq![*identifier],
        NodeModel::MethodDecl { name, generic_params, params, return_type, .. } => seq![*name]
            + list_or_empty(generic_params) + params + one_or_empty(return_type),
        NodeModel::GlobalDecl { identifier } => seq![*identifier],
        NodeModel::TypeProgramNode { statements } => statements,
        NodeModel::UnitDecl { unit } => seq![*unit],
    }
}

/// The models of an optional list of nodes.
pub open spec fn opt_asts_model(o: Option<Vec<StAst>>) -> Option<Seq<AstModel>> {
    match o {
        Some(v) => Some(asts_model(v@)),
        None => None,
    }
}

/// The model of an optional node.
pub open spec fn opt_ast_model(o: Option<Box<StAst>>) -> Option<Box<AstModel>> {
    match o {
        Some(b) => Some(Box::new(ast_model(*b))),
        None => None,
    }
}

/// The nodes of an optional list.
pub open spec fn list_or_empty(o: Option<Seq<AstModel>>) -> Seq<AstModel> {
    match o {
        Some(s) => s,
        None => Seq::empty(),
    }
}

/// The node of an optional node, as a list.
pub open spec fn one_or_empty(o: Option<Box<AstModel>>) -> Seq<AstModel> {
    match o {
        Some(b) => seq![*b],
        None => Seq::empty(),
    }
}

/// The nodes of the trees of a list, each tree in pre-order, tree after tree.
pub open spec fn preorder_all(s: Seq<AstModel>) -> Seq<AstModel>
    decreases s, 0int,
{
    if s.len() == 0 {
        Seq::empty()
    } else {
        preorder_all(s.drop_last()) + preorder(s.last())
    }
}

/// The nodes of a tree in pre-order: a node before the nodes below it, and
/// those in source order.
pub open spec fn preorder(a: AstModel) -> Seq<AstModel>
    decreases a, 1int,
{
    seq![a] + match a.data {
        NodeModel::SymbolNode { .. } => Seq::empty(),
        NodeModel::TypeName { path } => preorder_all(path),
        NodeModel::ArrayDecl { type_decl, .. } => preorder(*type_decl),
        NodeModel::TypeRefDecl { name, generic_decl } => preorder(*name) + (match generic_decl {
            Some(s) => preorder_all(s),
            None => Seq::empty(),
        }),
        NodeModel::LambdaDecl { generic_params, params, return_type } => (match generic_params {
            Some(s) => preorder_all(s),
            None => Seq::empty(),
        }) + preorder_all(params) + (match return_type {
            Some(b) => preorder(*b),
            None => Seq::empty(),
        }),
        NodeModel::MethodParamDecl { type_ref, .. } => preorder(*type_ref),
        NodeModel::GenericParamDecl { name, inherits } => preorder(*name) + (match inherits {
            Some(s) => preorder_all(s),
            None => Seq::empty(),
        }),
        NodeModel::IdentifierDecl { name, type_ref } => preorder(*name) + preorder(*type_ref),
        NodeModel::TypeDecl { name, generic_params, inherits, body } => preorder(*name) + (
        match generic_params {
            Some(s) => preorder_all(s),
            None => Seq::empty(),
        }) + (match inherits {
            Some(s) => preorder_all(s),
            None => Seq::empty(),
        }) + (match body {
            Some(s) => preorder_all(s),
            None => Seq::empty(),
        }),
        NodeModel::FieldDecl { identifier, .. } => preorder(*identifier),
        NodeModel::MethodDecl { name, generic_params, params, return_type, .. } => preorder(*name)
            + (match generic_params {
            Some(s) => preorder_all(s),
            None => Seq::empty(),
        }) + preorder_all(params) + (match return_type {
            Some(b) => preorder(*b),
            None => Seq::empty(),
        }),
        NodeModel::GlobalDecl { identifier } => preorder(*identifier),
        NodeModel::TypeProgramNode { statements } => preorder_all(statements),
        NodeModel::UnitDecl { unit } => preorder(*unit),
    }
}

impl StAst {
    /// A node without a remembered type.
    pub fn new(range: Range<usize>, data: NodeData) -> (r: StAst)
        ensures
            r == (StAst { range, data, cached_type: None }),
    {
        StAst { range, data, cached_type: None }
    }

    pub fn range(&self) -> (r: &Range<usize>)
        ensures
            *r == self.range,
    {
        &self.range
    }

    pub fn data(&self) -> (r: &NodeData)
        ensures
            *r == self.data,
    {
        &self.data
    }

    /// The type remembered for the node.
    pub fn get_type(&self) -> (r: (Option<String>, Type))
        requires
            self.cached_type is Some,
        ensures
            Some(typing_model(r)) == self@.cached,
    {
        match &self.cached_type {
            Some(c) => (
                match &c.0 {
                    Some(n) => Some(n.clone()),
                    None => None,
                },
                c.1.clone(),
            ),
            None => unreached(),
        }
    }

    /// The name that the node stands for, if it stands for one.
    pub fn qualified_name(&self) -> (r: Option<String>)
        ensures
            name_model(r) == node_name(self@),
        decreases self, 1int,
    {
        match &self.data {
            NodeData::SymbolNode(sym) => Some(sym.name.clone()),
            NodeData::TypeName(path_node) => Some(Self::joined_path(&path_node.path)),
            _ => None,
        }
    }

    /// The names of the nodes of `path` joined by `::`.
    #[verifier::rlimit(50)]
    pub fn joined_path(path: &Vec<StAst>) -> (r: String)
        ensures
            r@ == join_seq(path_names(asts_model(path@)), "::"@),
        decreases path, 0int,
    {
        let mut names: Vec<String> = Vec::new();
        let mut i: usize = 0;
        while i < path.len()
            invariant
                i <= path@.len(),
                names@.len() == i,
                forall|j: int|
                    0 <= j < i ==> (#[trigger] names@[j])@ == path_names(asts_model(path@))[j],
            decreases path@.len() - i,
        {
            let name = match path[i].qualified_name() {
                Some(n) => n,
                None => String::new(),
            };
            names.push(name);
            i = i + 1;
        }
        proof {
            assert(crate::text::strings_view(names@) =~= path_names(asts_model(path@)));
        }
        join_display(&names, "::")
    }

    /// The nodes directly below this one, in source order.
    #[verifier::rlimit(50)]
    pub fn children(&self) -> (r: Vec<&StAst>)
        ensures
            refs_model(r@) == children_model(self@),
    {
        let mut out: Vec<&StAst> = Vec::new();
        match &self.data {
            NodeData::SymbolNode(_) => {},
            NodeData::TypeName(d) => {
                push_refs(&mut out, &d.path);
            },
            NodeData::ArrayDecl(d) => {
                push_ref(&mut out, &d.type_decl);
            },
            NodeData::TypeRefDecl(d) => {
                push_ref(&mut out, &d.name);
                push_opt_refs(&mut out, &d.generic_decl);
            },
            NodeData::LambdaDecl(d) => {
                push_opt_refs(&mut out, &d.generic_params);
                push_refs(&mut out, &d.params);
                push_opt_ref(&mut out, &d.return_type);
            },
            NodeData::MethodParamDecl(d) => {
                push_ref(&mut out, &d.type_ref);
            },
            NodeData::GenericParamDecl(d) => {
                push_ref(&mut out, &d.name);
                push_opt_refs(&mut out, &d.inherits);
            },
            NodeData::IdentifierDecl(d) => {
                push_ref(&mut out, &d.name);
                push_ref(&mut out, &d.type_ref);
            },
            NodeData::TypeDecl(d) => {
                push_ref(&mut out, &d.name);
                push_opt_refs(&mut out, &d.generic_params);
                push_opt_refs(&mut out, &d.inherits);
                push_opt_refs(&mut out, &d.body);
            },
            NodeData::FieldDecl(d) => {
                push_ref(&mut out, &d.identifier);
            },
            NodeData::MethodDecl(d) => {
                push_ref(&mut out, &d.name);
                push_opt_refs(&mut out, &d.generic_params);
                push_refs(&mut out, &d.params);
                push_opt_ref(&mut out, &d.return_type);
            },
            NodeData::GlobalDecl(d) => {
                push_ref(&mut out, &d.identifier);
            },
            NodeData::TypeProgramNode(d) => {
                push_refs(&mut out, &d.statements);
            },
            NodeData::UnitDecl(d) => {
                push_ref(&mut out, &d.unit);
            },
        }
        proof {
            assert(refs_model(out@) =~= children_model(self@));
        }
        out
    }

    /// The nodes of the tree in pre-order.
    pub fn collect(&self) -> (r: Vec<&StAst>)
        ensures
            refs_model(r@) == preorder(self@),
    {
        let mut out: Vec<&StAst> = Vec::new();
        self.collect_into(&mut out);
        proof {
            assert(Seq::<AstModel>::empty() + preorder(self@) == preorder(self@));
        }
        out
    }

    #[verifier::rlimit(100)]
    fn collect_into<'a>(&'a self, out: &mut Vec<&'a StAst>)
        ensures
            refs_model(final(out)@) == refs_model(old(out)@) + preorder(self@),
        decreases self, 1int,
    {
        let ghost before = refs_model(out@);
        out.push(self);
        proof {
            assert(refs_model(out@) =~= before + seq![self@]);
        }
        match &self.data {
            NodeData::SymbolNode(_) => {},
            NodeData::TypeName(d) => {
                Self::collect_all(&d.path, out);
            },
            NodeData::ArrayDecl(d) => {
                d.type_decl.collect_into(out);
            },
            NodeData::TypeRefDecl(d) => {
                d.name.collect_into(out);
                Self::collect_opt(&d.generic_decl, out);
            },
            NodeData::LambdaDecl(d) => {
                Self::collect_opt(&d.generic_params, out);
                Self::collect_all(&d.params, out);
                Self::collect_one(&d.return_type, out);
            },
            NodeData::MethodParamDecl(d) => {
                d.type_ref.collect_into(out);
            },
            NodeData::GenericParamDecl(d) => {
                d.name.collect_into(out);
                Self::collect_opt(&d.inherits, out);
            },
            NodeData::IdentifierDecl(d) => {
                d.name.collect_into(out);
                d.type_ref.collect_into(out);
            },
            NodeData::TypeDecl(d) => {
                d.name.collect_into(out);
                Self::collect_opt(&d.generic_params, out);
                Self::collect_opt(&d.inherits, out);
                Self::collect_opt(&d.body, out);
            },
            NodeData::FieldDecl(d) => {
                d.identifier.collect_into(out);
            },
            NodeData::MethodDecl(d) => {
                d.name.collect_into(out);
                Self::collect_opt(&d.generic_params, out);
                Self::collect_all(&d.params, out);
                Self::collect_one(&d.return_type, out);
            },
            NodeData::GlobalDecl(d) => {
                d.identifier.collect_into(out);
            },
            NodeData::TypeProgramNode(d) => {
                Self::collect_all(&d.statements, out);
            },
            NodeData::UnitDecl(d) => {
                d.unit.collect_into(out);
            },
        }
        proof {
            assert(refs_model(out@) =~= before + preorder(self@));
        }
    }

    #[verifier::rlimit(50)]
    fn collect_all<'a>(nodes: &'a Vec<StAst>, out: &mut Vec<&'a StAst>)
        ensures
            refs_model(final(out)@) == refs_model(old(out)@) + preorder_all(asts_model(nodes@)),
        decreases nodes, 0int,
    {
        let ghost before = refs_model(out@);
        let ghost all = asts_model(nodes@);
        let mut i: usize = 0;
        while i < nodes.len()
            invariant
                i <= nodes@.len(),
                all == asts_model(nodes@),
                refs_model(out@) == before + preorder_all(all.subrange(0, i as int)),
            decreases nodes@.len() - i,
        {
            nodes[i].collect_into(out);
            proof {
                let next = all.subrange(0, i + 1);
                assert(next.drop_last() == all.subrange(0, i as int));
                assert(next.last() == nodes@[i as int]@);
                assert(refs_model(out@) =~= before + preorder_all(next));
            }
            i = i + 1;
        }
        proof {
            assert(all.subrange(0, nodes@.len() as int) == all);
        }
    }

    fn collect_opt<'a>(nodes: &'a Option<Vec<StAst>>, out: &mut Vec<&'a StAst>)
        ensures
            refs_model(final(out)@) == refs_model(old(out)@) + (match *nodes {
                Some(v) => preorder_all(asts_model(v@)),
                None => Seq::empty(),
            }),
        decreases nodes, 1int,
    {
        match nodes {
            Some(v) => {
                Self::collect_all(v, out);
            },
            None => {
                proof {
                    assert(refs_model(out@) + Seq::<AstModel>::empty() == refs_model(out@));
                }
            },
        }
    }

    fn collect_one<'a>(node: &'a Option<Box<StAst>>, out: &mut Vec<&'a StAst>)
        ensures
            refs_model(final(out)@) == refs_model(old(out)@) + (match *node {
                Some(b) => preorder(b@),
                None => Seq::empty(),
            }),
        decreases node, 2int,
    {
        match node {
            Some(b) => {
                b.collect_into(out);
            },
            None => {
                proof {
                    assert(refs_model(out@) + Seq::<AstModel>::empty() == refs_model(out@));
                }
            },
        }
    }

    /// Shows every node of the tree to `visitor`, in pre-order.
    pub fn traverse<Visitor: Fn(&StAst)>(&self, visitor: &Visitor)
        requires
            forall|node: &StAst| visitor.requires((node,)),
        ensures
            exists|visited: Seq<&StAst>|
                refs_model(visited) == preorder(self@) && forall|i: int|
                    0 <= i < visited.len() ==> visitor.ensures((#[trigger] visited[i],), ()),
    {
        let nodes = self.collect();
        let mut i: usize = 0;
        while i < nodes.len()
            invariant
                i <= nodes@.len(),
                forall|node: &StAst| visitor.requires((node,)),
                forall|j: int| 0 <= j < i ==> visitor.ensures((#[trigger] nodes@[j],), ()),
            decreases nodes@.len() - i,
        {
            visitor(nodes[i]);
            i = i + 1;
        }
        proof {
            let visited = nodes@;
            assert(refs_model(visited) == preorder(self@) && forall|i: int|
                0 <= i < visited.len() ==> visitor.ensures((#[trigger] visited[i],), ()));
        }
    }
}

fn push_ref<'a>(out: &mut Vec<&'a StAst>, node: &'a Box<StAst>)
    ensures
        refs_model(final(out)@) == refs_model(old(out)@) + seq![node@],
{
    let ghost before = refs_model(out@);
    out.push(&**node);
    proof {
        assert(refs_model(out@) =~= before + seq![node@]);
    }
}

fn push_opt_ref<'a>(out: &mut Vec<&'a StAst>, node: &'a Option<Box<StAst>>)
    ensures
        refs_model(final(out)@) == refs_model(old(out)@) + (match *node {
            Some(b) => seq![b@],
            None => Seq::empty(),
        }),
{
    match node {
        Some(b) => {
            push_ref(out, b);
        },
        None => {
            proof {
                assert(refs_model(out@) + Seq::<AstModel>::empty() == refs_model(out@));
            }
        },
    }
}

fn push_refs<'a>(out: &mut Vec<&'a StAst>, nodes: &'a Vec<StAst>)
    ensures
        refs_model(final(out)@) == refs_model(old(out)@) + asts_model(nodes@),
{
    let ghost before = refs_model(out@);
    let mut i: usize = 0;
    while i < nodes.len()
        invariant
            i <= nodes@.len(),
            refs_model(out@) == before + asts_model(nodes@).subrange(0, i as int),
        decreases nodes@.len() - i,
    {
        let ghost prev = out@;
        out.push(&nodes[i]);
        proof {
            assert(out@ == prev.push(&nodes@[i as int]));
            assert(refs_model(out@) =~= refs_model(prev).push(nodes@[i as int]@));
            assert(asts_model(nodes@).subrange(0, i + 1) =~= asts_model(nodes@).subrange(
                0,
                i as int,
            ).push(nodes@[i as int]@));
            assert(refs_model(out@) =~= before + asts_model(nodes@).subrange(0, i + 1));
        }
        i = i + 1;
    }
    proof {
        assert(asts_model(nodes@).subrange(0, nodes@.len() as int) == asts_model(nodes@));
    }
}

fn push_opt_refs<'a>(out: &mut Vec<&'a StAst>, nodes: &'a Option<Vec<StAst>>)
    ensures
        refs_model(final(out)@) == refs_model(old(out)@) + (match *nodes {
            Some(v) => asts_model(v@),
            None => Seq::empty(),
        }),
{
    match nodes {
        Some(v) => {
            push_refs(out, v);
        },
        None => {
            proof {
                assert(refs_model(out@) + Seq::<AstModel>::empty() == refs_model(out@));
            }
        },
    }
}

} // verus!
