use crate::expression_token::{ExpressionToken, ExpressionTokenModel};
use crate::program_equivalent::ProgramEquivalent;
use std::rc::Rc;
use vstd::prelude::*;

verus! {

/// A node of the tree of an expression.
#[derive(Debug)]
pub enum SolAST {
    ExpressionSet(ExpressionSet),
    SymbolExpression(SymbolExpression),
    ReferenceChain(ReferenceChain),
}

/// A dotted reference: its symbols from left to right.
#[derive(Debug)]
pub struct ReferenceChain {
    pub chain: Vec<Rc<SolAST>>,
}

/// The references found in an expression, in order.
#[derive(Debug)]
pub struct ExpressionSet {
    pub expressions: Vec<Rc<SolAST>>,
}

/// A symbol of an expression.
#[derive(Debug)]
pub struct SymbolExpression {
    pub token: ExpressionToken,
}

/// Model of a node of the tree of an expression.
pub ghost enum SolModel {
    ExpressionSet { expressions: Seq<SolModel> },
    SymbolExpression { token: ExpressionTokenModel },
    ReferenceChain { chain: Seq<SolModel> },
}

/// The models of a list of shared nodes.
pub open spec fn sols_model(s: Seq<Rc<SolAST>>) -> Seq<SolModel>
    decreases s, 0int,
{
    Seq::new(
        s.len(),
        |i: int|
            if 0 <= i < s.len() {
                sol_model(*s[i])
            } else {
                SolModel::ExpressionSet { expressions: Seq::empty() }
            },
    )
}

/// The model of a node.
pub open spec fn sol_model(a: SolAST) -> SolModel
    decreases a, 1int,
{
    match a {
        SolAST::ExpressionSet(e) => SolModel::ExpressionSet {
            expressions: sols_model(e.expressions@),
        },
        SolAST::SymbolExpression(s) => SolModel::SymbolExpression { token: s.token@ },
        SolAST::ReferenceChain(c) => SolModel::ReferenceChain { chain: sols_model(c.chain@) },
    }
}

impl View for SolAST {
    type V = SolModel;

    open spec fn view(&self) -> SolModel {
        sol_model(*self)
    }
}

/// Two lists of nodes are of the same shape if their nodes are, pair by
/// pair, as far as both lists go.
pub open spec fn sols_equivalent(a: Seq<SolModel>, b: Seq<SolModel>) -> bool
    decreases a, 0int,
{
    forall|i: int| 0 <= i < a.len() && i < b.len() ==> sol_equivalent(#[trigger] a[i], b[i])
}

/// Whether two nodes are of the same shape: the same kind, with symbols of
/// one kind that read the same and lists of the same shape.
pub open spec fn sol_equivalent(a: SolModel, b: SolModel) -> bool
    decreases a, 1int,
{
    match (a, b) {
        (SolModel::SymbolExpression { token: x }, SolModel::SymbolExpression { token: y }) => x.kind
            == y.kind && x.text == y.text,
        (SolModel::ReferenceChain { chain: x }, SolModel::ReferenceChain { chain: y }) =>
            sols_equivalent(x, y),
        (
            SolModel::ExpressionSet { expressions: x },
            SolModel::ExpressionSet { expressions: y },
        ) => sols_equivalent(x, y),
        _ => false,
    }
}

/// Whether two lists of nodes are of the same shape.
pub fn sols_equiv(a: &Vec<Rc<SolAST>>, b: &Vec<Rc<SolAST>>) -> (r: bool)
    ensures
        r == sols_equivalent(sols_model(a@), sols_model(b@)),
    decreases a, 0int,
{
    let mut i: usize = 0;
    while i < a.len() && i < b.len()
        invariant
            forall|j: int| 0 <= j < i ==> sol_equivalent((#[trigger] a@[j])@, b@[j]@),
        decreases a@.len() - i,
    {
        if !sol_equiv(&a[i], &b[i]) {
            proof {
                assert(!sol_equivalent(sols_model(a@)[i as int], sols_model(b@)[i as int]));
            }
            return false;
        }
        i = i + 1;
    }
    proof {
        let x = sols_model(a@);
        let y = sols_model(b@);
        assert forall|j: int| 0 <= j < x.len() && j < y.len() implies sol_equivalent(
            #[trigger] x[j],
            y[j],
        ) by {
            assert(sol_equivalent(a@[j]@, b@[j]@));
        }
    }
    true
}

/// Whether two nodes are of the same shape.
pub fn sol_equiv(a: &SolAST, b: &SolAST) -> (r: bool)
    ensures
        r == sol_equivalent(a@, b@),
    decreases a, 1int,
{
    match (a, b) {
        (SolAST::SymbolExpression(x), SolAST::SymbolExpression(y)) => x.token.program_equivalent(
            &y.token,
        ),
        (SolAST::ReferenceChain(x), SolAST::ReferenceChain(y)) => sols_equiv(&x.chain, &y.chain),
        (SolAST::ExpressionSet(x), SolAST::ExpressionSet(y)) => sols_equiv(
            &x.expressions,
            &y.expressions,
        ),
        _ => false,
    }
}

impl ProgramEquivalent for SolAST {
    open spec fn equivalent(&self, other: &Self) -> bool {
        sol_equivalent(self@, other@)
    }

    fn program_equivalent(&self, other: &Self) -> (r: bool) {
        sol_equiv(self, other)
    }
}

impl ReferenceChain {
    pub fn new(chain: Vec<Rc<SolAST>>) -> (r: ReferenceChain)
        ensures
            r == (ReferenceChain { chain }),
    {
        ReferenceChain { chain }
    }

    pub fn chain(&self) -> (r: &Vec<Rc<SolAST>>)
        ensures
            *r == self.chain,
    {
        &self.chain
    }
}

impl ProgramEquivalent for ReferenceChain {
    open spec fn equivalent(&self, other: &Self) -> bool {
        sols_equivalent(sols_model(self.chain@), sols_model(other.chain@))
    }

    fn program_equivalent(&self, other: &Self) -> (r: bool) {
        sols_equiv(&self.chain, &other.chain)
    }
}

impl ExpressionSet {
    pub fn new(expressions: Vec<Rc<SolAST>>) -> (r: ExpressionSet)
        ensures
            r == (ExpressionSet { expressions }),
    {
        ExpressionSet { expressions }
    }

    pub fn expressions(&self) -> (r: &Vec<Rc<SolAST>>)
        ensures
            *r == self.expressions,
    {
        &self.expressions
    }
}

impl ProgramEquivalent for ExpressionSet {
    open spec fn equivalent(&self, other: &Self) -> bool {
        sols_equivalent(sols_model(self.expressions@), sols_model(other.expressions@))
    }

    fn program_equivalent(&self, other: &Self) -> (r: bool) {
        sols_equiv(&self.expressions, &other.expressions)
    }
}

impl SymbolExpression {
    pub fn new(token: ExpressionToken) -> (r: SymbolExpression)
        ensures
            r == (SymbolExpression { token }),
    {
        SymbolExpression { token }
    }

    pub fn token(&self) -> (r: &ExpressionToken)
        ensures
            *r == self.token,
    {
        &self.token
    }
}

impl ProgramEquivalent for SymbolExpression {
    open spec fn equivalent(&self, other: &Self) -> bool {
        self.token.equivalent(&other.token)
    }

    fn program_equivalent(&self, other: &Self) -> (r: bool) {
        self.token.program_equivalent(&other.token)
    }
}

/// Conversion into a shared node.
pub trait ToRc<T>: Sized {
    /// The node that `self` stands for.
    spec fn as_node(self) -> T;

    fn to_rc(self) -> (r: Rc<T>)
        ensures
            *r == self.as_node(),
    ;
}

impl ToRc<SolAST> for SolAST {
    open spec fn as_node(self) -> SolAST {
        self
    }

    fn to_rc(self) -> (r: Rc<SolAST>) {
        Rc::new(self)
    }
}

impl ToRc<SolAST> for ExpressionSet {
    open spec fn as_node(self) -> SolAST {
        SolAST::ExpressionSet(self)
    }

    fn to_rc(self) -> (r: Rc<SolAST>) {
        Rc::new(SolAST::ExpressionSet(self))
    }
}

impl ToRc<SolAST> for SymbolExpression {
    open spec fn as_node(self) -> SolAST {
        SolAST::SymbolExpression(self)
    }

    fn to_rc(self) -> (r: Rc<SolAST>) {
        Rc::new(SolAST::SymbolExpression(self))
    }
}

impl ToRc<SolAST> for ReferenceChain {
    open spec fn as_node(self) -> SolAST {
        SolAST::ReferenceChain(self)
    }

    fn to_rc(self) -> (r: Rc<SolAST>) {
        Rc::new(SolAST::ReferenceChain(self))
    }
}

impl From<ExpressionSet> for SolAST {
    fn from(value: ExpressionSet) -> (r: SolAST) {
        SolAST::ExpressionSet(value)
    }
}

impl vstd::std_specs::convert::FromSpecImpl<ExpressionSet> for SolAST {
    open spec fn obeys_from_spec() -> bool {
        true
    }

    open spec fn from_spec(value: ExpressionSet) -> SolAST {
        SolAST::ExpressionSet(value)
    }
}

impl From<SymbolExpression> for SolAST {
    fn from(value: SymbolExpression) -> (r: SolAST) {
        SolAST::SymbolExpression(value)
    }
}

impl vstd::std_specs::convert::FromSpecImpl<SymbolExpression> for SolAST {
    open spec fn obeys_from_spec() -> bool {
        true
    }

    open spec fn from_spec(value: SymbolExpression) -> SolAST {
        SolAST::SymbolExpression(value)
    }
}

impl From<ReferenceChain> for SolAST {
    fn from(value: ReferenceChain) -> (r: SolAST) {
        SolAST::ReferenceChain(value)
    }
}

impl vstd::std_specs::convert::FromSpecImpl<ReferenceChain> for SolAST {
    open spec fn obeys_from_spec() -> bool {
        true
    }

    open spec fn from_spec(value: ReferenceChain) -> SolAST {
        SolAST::ReferenceChain(value)
    }
}

} // verus!
