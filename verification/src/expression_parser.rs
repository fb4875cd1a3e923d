use crate::expression_token::{
    expression_tokens_model, ExpressionToken, ExpressionTokenDiscriminants, ExpressionTokenModel,
};
use crate::sol_ast::{sols_model, ExpressionSet, ReferenceChain, SolAST, SolModel, SymbolExpression};
use std::rc::Rc;
use vstd::prelude::*;

verus! {

/// One thing, or a list of things.
pub enum MapUnit<T> {
    Unit(T),
    Vec(Vec<T>),
}

/// Hands a list of exactly one element to `unit_fn`, as that element, and
/// any other list to `vec_fn`.
pub fn map_unit<T, U, F: FnOnce(&T) -> U, G: FnOnce(Vec<T>) -> U>(
    input: Vec<T>,
    unit_fn: F,
    vec_fn: G,
) -> (r: U)
    requires
        input@.len() == 1 ==> unit_fn.requires((&input@[0],)),
        input@.len() != 1 ==> vec_fn.requires((input,)),
    ensures
        input@.len() == 1 ==> unit_fn.ensures((&input@[0],), r),
        input@.len() != 1 ==> vec_fn.ensures((input,), r),
{
    if input.len() == 1 {
        unit_fn(&input[0])
    } else {
        vec_fn(input)
    }
}

/// A node of an expression with the position after it.
pub type ParsedExpression = Option<(SolModel, int)>;

/// Whether the token at `pos` is of the given kind.
pub open spec fn expression_token_is(
    t: Seq<ExpressionTokenModel>,
    pos: int,
    kind: ExpressionTokenDiscriminants,
) -> bool {
    0 <= pos < t.len() && t[pos].kind == kind
}

/// symbol := Symbol
pub open spec fn expression_symbol_at(t: Seq<ExpressionTokenModel>, pos: int) -> ParsedExpression {
    if expression_token_is(t, pos, ExpressionTokenDiscriminants::Symbol) {
        Some((SolModel::SymbolExpression { token: t[pos] }, pos + 1))
    } else {
        None
    }
}

/// The rest of a chain: ("." symbol)*
pub open spec fn chain_rest(t: Seq<ExpressionTokenModel>, pos: int, acc: Seq<SolModel>) -> (
    Seq<SolModel>,
    int,
)
    decreases t.len() - pos,
{
    if expression_token_is(t, pos, ExpressionTokenDiscriminants::DotOp) {
        match expression_symbol_at(t, pos + 1) {
            Some((s, p)) => chain_rest(t, p, acc.push(s)),
            None => (acc, pos),
        }
    } else {
        (acc, pos)
    }
}

/// chain := symbol ("." symbol)*
pub open spec fn reference_chain_at(t: Seq<ExpressionTokenModel>, pos: int) -> ParsedExpression {
    match expression_symbol_at(t, pos) {
        Some((s, p)) => {
            let (chain, end) = chain_rest(t, p, seq![s]);
            Some((SolModel::ReferenceChain { chain }, end))
        },
        None => None,
    }
}

/// Whether a token of this kind may stand between two chains: brackets and
/// the signs of arithmetic.
pub open spec fn is_chuff(kind: ExpressionTokenDiscriminants) -> bool {
    match kind {
        ExpressionTokenDiscriminants::OpenParen
        | ExpressionTokenDiscriminants::ClosedParen
        | ExpressionTokenDiscriminants::OpenAngle
        | ExpressionTokenDiscriminants::ClosedAngle
        | ExpressionTokenDiscriminants::AddOp
        | ExpressionTokenDiscriminants::MinusOp
        | ExpressionTokenDiscriminants::MulOp
        | ExpressionTokenDiscriminants::DivOp => true,
        _ => false,
    }
}

/// The position behind the tokens from `pos` on that may stand between two chains.
pub open spec fn chuff_end(t: Seq<ExpressionTokenModel>, pos: int) -> int
    decreases t.len() - pos,
{
    if 0 <= pos < t.len() && is_chuff(t[pos].kind) {
        chuff_end(t, pos + 1)
    } else {
        pos
    }
}

/// (chain chuff*)* from `pos` on.
pub open spec fn sparse_chains_at(t: Seq<ExpressionTokenModel>, pos: int, acc: Seq<SolModel>) -> (
    Seq<SolModel>,
    int,
)
    decreases t.len() - pos,
{
    match reference_chain_at(t, pos) {
        Some((chain, p)) => {
            let next = chuff_end(t, p);
            if pos < next <= t.len() {
                sparse_chains_at(t, next, acc.push(chain))
            } else {
                (acc, pos)
            }
        },
        None => (acc, pos),
    }
}

/// sequence := (chain chuff*)*
pub open spec fn reference_sequence_at(t: Seq<ExpressionTokenModel>, pos: int) -> (SolModel, int) {
    let (expressions, end) = sparse_chains_at(t, pos, Seq::empty());
    (SolModel::ExpressionSet { expressions }, end)
}

/// The model of what a parser of one node hands back.
pub open spec fn parsed_expression_model(r: Option<(SolAST, usize)>) -> ParsedExpression {
    match r {
        Some((a, p)) => Some((a@, p as int)),
        None => None,
    }
}

/// Whether the token at `pos` is of the given kind.
fn expression_kind_at(
    tokens: &Vec<ExpressionToken>,
    pos: usize,
    kind: ExpressionTokenDiscriminants,
) -> (r: bool)
    ensures
        r == expression_token_is(expression_tokens_model(tokens@), pos as int, kind),
        r ==> pos < tokens@.len() <= usize::MAX,
{
    pos < tokens.len() && tokens[pos].discriminant() == kind
}

/// Puts `node` behind the nodes of `list`.
fn push_sol(list: &mut Vec<Rc<SolAST>>, node: SolAST)
    ensures
        sols_model(final(list)@) == sols_model(old(list)@).push(node@),
{
    let ghost before = sols_model(list@);
    list.push(Rc::new(node));
    proof {
        assert(sols_model(list@) =~= before.push(node@));
    }
}

/// An empty list of nodes.
fn no_sols() -> (r: Vec<Rc<SolAST>>)
    ensures
        sols_model(r@) == Seq::<SolModel>::empty(),
{
    let r: Vec<Rc<SolAST>> = Vec::new();
    proof {
        assert(sols_model(r@) =~= Seq::<SolModel>::empty());
    }
    r
}

/// Parser for a single symbol
pub fn symbol_parser(tokens: &Vec<ExpressionToken>, pos: usize) -> (r: Option<(SolAST, usize)>)
    ensures
        parsed_expression_model(r) == expression_symbol_at(
            expression_tokens_model(tokens@),
            pos as int,
        ),
        r matches Some((_, p)) ==> pos < p <= tokens@.len() <= usize::MAX,
{
    if expression_kind_at(tokens, pos, ExpressionTokenDiscriminants::Symbol) {
        Some((SolAST::SymbolExpression(SymbolExpression::new(tokens[pos].clone())), pos + 1))
    } else {
        None
    }
}

/// Parser for one link of a reference chain
pub fn reference_chain_unit_parser(tokens: &Vec<ExpressionToken>, pos: usize) -> (r: Option<
    (SolAST, usize),
>)
    ensures
        parsed_expression_model(r) == expression_symbol_at(
            expression_tokens_model(tokens@),
            pos as int,
        ),
        r matches Some((_, p)) ==> pos < p <= tokens@.len() <= usize::MAX,
{
    symbol_parser(tokens, pos)
}

/// Parser for a dotted reference: symbols with dots between them
#[verifier::rlimit(50)]
pub fn reference_chain_parser(tokens: &Vec<ExpressionToken>, pos: usize) -> (r: Option<
    (SolAST, usize),
>)
    ensures
        parsed_expression_model(r) == reference_chain_at(
            expression_tokens_model(tokens@),
            pos as int,
        ),
        r matches Some((_, p)) ==> pos < p <= tokens@.len() <= usize::MAX,
{
    let ghost t = expression_tokens_model(tokens@);
    match reference_chain_unit_parser(tokens, pos) {
        None => None,
        Some((first, start)) => {
            let ghost whole = chain_rest(t, start as int, seq![first@]);
            let mut chain = no_sols();
            push_sol(&mut chain, first);
            proof {
                assert(Seq::<SolModel>::empty().push(first@) =~= seq![first@]);
            }
            let mut p = start;
            let mut more = true;
            while more
                invariant
                    t == expression_tokens_model(tokens@),
                    tokens@.len() <= usize::MAX,
                    pos < p <= tokens@.len(),
                    whole == (if more {
                        chain_rest(t, p as int, sols_model(chain@))
                    } else {
                        (sols_model(chain@), p as int)
                    }),
                decreases
                        tokens@.len() - p + (if more {
                            1int
                        } else {
                            0int
                        }),
            {
                if expression_kind_at(tokens, p, ExpressionTokenDiscriminants::DotOp) {
                    match reference_chain_unit_parser(tokens, p + 1) {
                        Some((next, q)) => {
                            push_sol(&mut chain, next);
                            p = q;
                        },
                        None => {
                            more = false;
                        },
                    }
                } else {
                    more = false;
                }
            }
            Some((SolAST::ReferenceChain(ReferenceChain::new(chain)), p))
        },
    }
}

/// Parser that passes over what may stand between two references and hands
/// back the position behind it
pub fn reference_chain_chuff_parser(tokens: &Vec<ExpressionToken>, pos: usize) -> (r: usize)
    ensures
        r == chuff_end(expression_tokens_model(tokens@), pos as int),
        pos <= r,
        pos <= tokens@.len() ==> r <= tokens@.len(),
{
    let ghost t = expression_tokens_model(tokens@);
    if pos > tokens.len() {
        return pos;
    }
    let mut p = pos;
    while p < tokens.len() && is_chuff_kind(tokens[p].discriminant())
        invariant
            t == expression_tokens_model(tokens@),
            pos <= p <= tokens@.len(),
            chuff_end(t, pos as int) == chuff_end(t, p as int),
        decreases tokens@.len() - p,
    {
        p = p + 1;
    }
    p
}

fn is_chuff_kind(kind: ExpressionTokenDiscriminants) -> (r: bool)
    ensures
        r == is_chuff(kind),
{
    match kind {
        ExpressionTokenDiscriminants::OpenParen
        | ExpressionTokenDiscriminants::ClosedParen
        | ExpressionTokenDiscriminants::OpenAngle
        | ExpressionTokenDiscriminants::ClosedAngle
        | ExpressionTokenDiscriminants::AddOp
        | ExpressionTokenDiscriminants::MinusOp
        | ExpressionTokenDiscriminants::MulOp
        | ExpressionTokenDiscriminants::DivOp => true,
        _ => false,
    }
}

/// Parser for the references of an expression, whatever brackets and signs
/// of arithmetic stand between them
#[verifier::rlimit(50)]
pub fn reference_sequence_sparse_parser(tokens: &Vec<ExpressionToken>, pos: usize) -> (r: (
    SolAST,
    usize,
))
    ensures
        (r.0@, r.1 as int) == reference_sequence_at(expression_tokens_model(tokens@), pos as int),
        pos <= r.1,
        pos <= tokens@.len() ==> r.1 <= tokens@.len(),
{
    let ghost t = expression_tokens_model(tokens@);
    let ghost whole = sparse_chains_at(t, pos as int, Seq::empty());
    if pos > tokens.len() {
        return (SolAST::ExpressionSet(ExpressionSet::new(no_sols())), pos);
    }
    let mut expressions = no_sols();
    let mut p = pos;
    let mut more = true;
    while more
        invariant
            t == expression_tokens_model(tokens@),
            pos <= p <= tokens@.len(),
            whole == (if more {
                sparse_chains_at(t, p as int, sols_model(expressions@))
            } else {
                (sols_model(expressions@), p as int)
            }),
        decreases
                tokens@.len() - p + (if more {
                    1int
                } else {
                    0int
                }),
    {
        match reference_chain_parser(tokens, p) {
            Some((chain, q)) => {
                let next = reference_chain_chuff_parser(tokens, q);
                push_sol(&mut expressions, chain);
                p = next;
            },
            None => {
                more = false;
            },
        }
    }
    (SolAST::ExpressionSet(ExpressionSet::new(expressions)), p)
}

/// The node of a parser's result if the parser read the tokens to the end.
pub fn complete_expression(parsed: Option<(SolAST, usize)>, tokens: &Vec<ExpressionToken>) -> (r:
    Option<SolAST>)
    ensures
        r == (match parsed {
            Some((a, end)) => if end == tokens@.len() {
                Some(a)
            } else {
                None
            },
            None => None,
        }),
{
    match parsed {
        Some((a, end)) => if end == tokens.len() {
            Some(a)
        } else {
            None
        },
        None => None,
    }
}

} // verus!
