use crate::calc_type::{all_named, all_typable, typable, type_of};
use crate::st_ast::{
    asts_model, node_name, ArrayDecl, AstModel, FieldDecl, GenericParamDecl, GlobalDecl,
    IdentifierDecl, LambdaDecl, MethodDecl, MethodParamDecl, NodeData, NodeModel, StAst, SymbolNode,
    TypeDecl, TypeName, TypeProgramNode, TypeRefDecl, UnitDecl,
};
use crate::st_token::{tokens_model, StToken, StTokenKind, TokenModel};
use std::ops::Range;
use vstd::prelude::*;

verus! {

/// A node with the position after it.
pub type Parsed = Option<(AstModel, int)>;

/// A list of nodes with the position after it.
pub type ParsedList = (Seq<AstModel>, int);

/// Whether the token at `pos` is of the given kind.
pub open spec fn token_is(t: Seq<TokenModel>, pos: int, kind: StTokenKind) -> bool {
    0 <= pos < t.len() && t[pos].kind == kind
}

/// The bytes that the tokens from `from` up to `to` cover; none for no token.
pub open spec fn span_of(t: Seq<TokenModel>, from: int, to: int) -> (int, int) {
    if 0 <= from < to <= t.len() {
        (t[from].start, t[to - 1].end)
    } else {
        (0, 0)
    }
}

/// The smallest range that holds both ranges.
pub open spec fn union_of(a: (int, int), b: (int, int)) -> (int, int) {
    (
        if a.0 <= b.0 {
            a.0
        } else {
            b.0
        },
        if a.1 >= b.1 {
            a.1
        } else {
            b.1
        },
    )
}

/// The node that holds `data` and comes from the tokens from `from` up to `to`.
pub open spec fn node_of(t: Seq<TokenModel>, from: int, to: int, data: NodeModel) -> AstModel {
    AstModel { start: span_of(t, from, to).0, end: span_of(t, from, to).1, data, cached: None }
}

/// A result counts only if it ends after `pos` and within the tokens.
pub open spec fn after(t: Seq<TokenModel>, pos: int, r: Parsed) -> Parsed {
    match r {
        Some((a, p)) => if pos < p <= t.len() {
            r
        } else {
            None
        },
        None => None,
    }
}

/// symbol := Symbol
pub open spec fn symbol_at(t: Seq<TokenModel>, pos: int) -> Parsed {
    if token_is(t, pos, StTokenKind::Symbol) {
        Some((node_of(t, pos, pos + 1, NodeModel::SymbolNode { name: t[pos].text }), pos + 1))
    } else {
        None
    }
}

/// The rest of a path: ("::" symbol)*
pub open spec fn path_rest(t: Seq<TokenModel>, pos: int, acc: Seq<AstModel>) -> ParsedList
    decreases t.len() - pos,
{
    if token_is(t, pos, StTokenKind::ScopeOp) {
        match symbol_at(t, pos + 1) {
            Some((s, p)) => path_rest(t, p, acc.push(s)),
            None => (acc, pos),
        }
    } else {
        (acc, pos)
    }
}

/// typeName := symbol ("::" symbol)*
pub open spec fn type_name_at(t: Seq<TokenModel>, pos: int) -> Parsed {
    match symbol_at(t, pos) {
        Some((s, p)) => {
            let (path, end) = path_rest(t, p, seq![s]);
            Some((node_of(t, pos, end, NodeModel::TypeName { path }), end))
        },
        None => None,
    }
}

/// The number of commas in a row from `pos` on.
pub open spec fn commas_at(t: Seq<TokenModel>, pos: int) -> int
    decreases t.len() - pos,
{
    if token_is(t, pos, StTokenKind::Comma) {
        1 + commas_at(t, pos + 1)
    } else {
        0
    }
}

/// arraySuffix := "[" ","* "]", as its arity (one more than its commas) and
/// the position after it.
pub open spec fn array_suffix_at(t: Seq<TokenModel>, pos: int) -> Option<(int, int)> {
    if token_is(t, pos, StTokenKind::OpenAngle) {
        let commas = commas_at(t, pos + 1);
        if token_is(t, pos + 1 + commas, StTokenKind::ClosedAngle) {
            Some((commas + 1, pos + commas + 2))
        } else {
            None
        }
    } else {
        None
    }
}

/// arraySuffix* behind the type `curr`: every suffix makes an array of what
/// stands before it.
pub open spec fn arrays_at(t: Seq<TokenModel>, pos: int, curr: AstModel) -> (AstModel, int)
    decreases t.len() - pos,
{
    match array_suffix_at(t, pos) {
        Some((arity, end)) => if pos < end <= t.len() {
            let range = union_of(span_of(t, pos, end), (curr.start, curr.end));
            arrays_at(
                t,
                end,
                AstModel {
                    start: range.0,
                    end: range.1,
                    data: NodeModel::ArrayDecl {
                        arity: arity as usize,
                        type_decl: Box::new(curr),
                    },
                    cached: None,
                },
            )
        } else {
            (curr, pos)
        },
        None => (curr, pos),
    }
}

/// More type references, each behind the separator `sep`.
pub open spec fn type_refs_rest(
    t: Seq<TokenModel>,
    pos: int,
    sep: StTokenKind,
    acc: Seq<AstModel>,
) -> ParsedList
    decreases t.len() - pos, 0int,
{
    if token_is(t, pos, sep) {
        match after(t, pos + 1, type_ref_at(t, pos + 1)) {
            Some((item, p)) => type_refs_rest(t, p, sep, acc.push(item)),
            None => (acc, pos),
        }
    } else {
        (acc, pos)
    }
}

/// Type references with the separator `sep` between them; none is a list too.
pub open spec fn type_refs_at(t: Seq<TokenModel>, pos: int, sep: StTokenKind) -> ParsedList
    decreases t.len() - pos, 11int,
{
    match after(t, pos, type_ref_at(t, pos)) {
        Some((item, p)) => type_refs_rest(t, p, sep, seq![item]),
        None => (Seq::empty(), pos),
    }
}

/// genericArgs := "<" (typeRef ("," typeRef)*)? ">"
pub open spec fn generic_args_at(t: Seq<TokenModel>, pos: int) -> Option<ParsedList>
    decreases t.len() - pos, 5int,
{
    if token_is(t, pos, StTokenKind::OpenCaret) {
        let (items, p) = type_refs_at(t, pos + 1, StTokenKind::Comma);
        if token_is(t, p, StTokenKind::ClosedCaret) {
            Some((items, p + 1))
        } else {
            None
        }
    } else {
        None
    }
}

/// typeName genericArgs?
pub open spec fn sym_type_ref_at(t: Seq<TokenModel>, pos: int) -> Parsed
    decreases t.len() - pos, 7int,
{
    match after(t, pos, type_name_at(t, pos)) {
        Some((name, p)) => match generic_args_at(t, p) {
            Some((args, end)) => Some(
                (
                    node_of(
                        t,
                        pos,
                        end,
                        NodeModel::TypeRefDecl {
                            name: Box::new(name),
                            generic_decl: Some(args),
                        },
                    ),
                    end,
                ),
            ),
            None => Some(
                (
                    node_of(
                        t,
                        pos,
                        p,
                        NodeModel::TypeRefDecl { name: Box::new(name), generic_decl: None },
                    ),
                    p,
                ),
            ),
        },
        None => None,
    }
}

/// genericParam := symbol (":" (typeRef ("+" typeRef)*)?)?
pub open spec fn generic_param_at(t: Seq<TokenModel>, pos: int) -> Parsed
    decreases t.len() - pos, 10int,
{
    match symbol_at(t, pos) {
        Some((name, p)) => if token_is(t, p, StTokenKind::Colon) {
            let (inherits, end) = type_refs_at(t, p + 1, StTokenKind::AddOp);
            Some(
                (
                    node_of(
                        t,
                        pos,
                        end,
                        NodeModel::GenericParamDecl {
                            name: Box::new(name),
                            inherits: Some(inherits),
                        },
                    ),
                    end,
                ),
            )
        } else {
            Some(
                (
                    node_of(
                        t,
                        pos,
                        p,
                        NodeModel::GenericParamDecl { name: Box::new(name), inherits: None },
                    ),
                    p,
                ),
            )
        },
        None => None,
    }
}

/// More generic parameters, each behind a comma.
pub open spec fn generic_params_rest(t: Seq<TokenModel>, pos: int, acc: Seq<AstModel>) -> ParsedList
    decreases t.len() - pos, 0int,
{
    if token_is(t, pos, StTokenKind::Comma) {
        match after(t, pos + 1, generic_param_at(t, pos + 1)) {
            Some((item, p)) => generic_params_rest(t, p, acc.push(item)),
            None => (acc, pos),
        }
    } else {
        (acc, pos)
    }
}

/// Generic parameters with commas between them; none is a list too.
pub open spec fn generic_params_at(t: Seq<TokenModel>, pos: int) -> ParsedList
    decreases t.len() - pos, 11int,
{
    match after(t, pos, generic_param_at(t, pos)) {
        Some((item, p)) => generic_params_rest(t, p, seq![item]),
        None => (Seq::empty(), pos),
    }
}

/// genericParams? with genericParams := "<" (genericParam ("," genericParam)*)? ">"
pub open spec fn generic_param_set_at(t: Seq<TokenModel>, pos: int) -> (Option<Seq<AstModel>>, int)
    decreases t.len() - pos, 6int,
{
    if token_is(t, pos, StTokenKind::OpenCaret) {
        let (items, p) = generic_params_at(t, pos + 1);
        if token_is(t, p, StTokenKind::ClosedCaret) {
            (Some(items), p + 1)
        } else {
            (None, pos)
        }
    } else {
        (None, pos)
    }
}

/// param := "..."? typeRef
pub open spec fn method_param_at(t: Seq<TokenModel>, pos: int) -> Parsed
    decreases t.len() - pos, 10int,
{
    if token_is(t, pos, StTokenKind::Spread) {
        match after(t, pos + 1, type_ref_at(t, pos + 1)) {
            Some((type_ref, end)) => Some(
                (
                    node_of(
                        t,
                        pos,
                        end,
                        NodeModel::MethodParamDecl { type_ref: Box::new(type_ref), variadic: true },
                    ),
                    end,
                ),
            ),
            None => None,
        }
    } else {
        match after(t, pos, type_ref_at(t, pos)) {
            Some((type_ref, end)) => Some(
                (
                    node_of(
                        t,
                        pos,
                        end,
                        NodeModel::MethodParamDecl {
                            type_ref: Box::new(type_ref),
                            variadic: false,
                        },
                    ),
                    end,
                ),
            ),
            None => None,
        }
    }
}

/// More parameters, each behind a comma.
pub open spec fn method_params_rest(t: Seq<TokenModel>, pos: int, acc: Seq<AstModel>) -> ParsedList
    decreases t.len() - pos, 0int,
{
    if token_is(t, pos, StTokenKind::Comma) {
        match after(t, pos + 1, method_param_at(t, pos + 1)) {
            Some((item, p)) => method_params_rest(t, p, acc.push(item)),
            None => (acc, pos),
        }
    } else {
        (acc, pos)
    }
}

/// Parameters with commas between them; none is a list too.
pub open spec fn method_params_at(t: Seq<TokenModel>, pos: int) -> ParsedList
    decreases t.len() - pos, 11int,
{
    match after(t, pos, method_param_at(t, pos)) {
        Some((item, p)) => method_params_rest(t, p, seq![item]),
        None => (Seq::empty(), pos),
    }
}

/// "(" (param ("," param)*)? ")"
pub open spec fn method_param_set_at(t: Seq<TokenModel>, pos: int) -> Option<ParsedList>
    decreases t.len() - pos, 6int,
{
    if token_is(t, pos, StTokenKind::OpenParen) {
        let (items, p) = method_params_at(t, pos + 1);
        if token_is(t, p, StTokenKind::ClosedParen) {
            Some((items, p + 1))
        } else {
            None
        }
    } else {
        None
    }
}

/// typeRef | "void", the latter standing for no type.
pub open spec fn return_type_at(t: Seq<TokenModel>, pos: int) -> Option<(Option<AstModel>, int)>
    decreases t.len() - pos, 10int,
{
    match after(t, pos, type_ref_at(t, pos)) {
        Some((type_ref, end)) => Some((Some(type_ref), end)),
        None => if token_is(t, pos, StTokenKind::VoidKeyword) {
            Some((None, pos + 1))
        } else {
            None
        },
    }
}

/// lambdaType := genericParams? "(" (param ("," param)*)? ")" "=>" (typeRef | "void")
pub open spec fn lambda_at(t: Seq<TokenModel>, pos: int) -> Parsed
    decreases t.len() - pos, 7int,
{
    let (generic_params, p) = generic_param_set_at(t, pos);
    if pos <= p <= t.len() {
        match method_param_set_at(t, p) {
            Some((params, q)) => if token_is(t, q, StTokenKind::ArrowOp) && p < q {
                match return_type_at(t, q + 1) {
                    Some((return_type, end)) => Some(
                        (
                            node_of(
                                t,
                                pos,
                                end,
                                NodeModel::LambdaDecl {
                                    generic_params,
                                    params,
                                    return_type: match return_type {
                                        Some(r) => Some(Box::new(r)),
                                        None => None,
                                    },
                                },
                            ),
                            end,
                        ),
                    ),
                    None => None,
                }
            } else {
                None
            },
            None => None,
        }
    } else {
        None
    }
}

/// "(" typeRef ")"
pub open spec fn unit_at(t: Seq<TokenModel>, pos: int) -> Parsed
    decreases t.len() - pos, 7int,
{
    if token_is(t, pos, StTokenKind::OpenParen) {
        match after(t, pos + 1, type_ref_at(t, pos + 1)) {
            Some((inner, p)) => if token_is(t, p, StTokenKind::ClosedParen) {
                Some((node_of(t, pos, p + 1, NodeModel::UnitDecl { unit: Box::new(inner) }), p + 1))
            } else {
                None
            },
            None => None,
        }
    } else {
        None
    }
}

/// A type reference without array suffixes: the first that fits of a named
/// type, a lambda and a type in parentheses.
pub open spec fn type_ref_base_at(t: Seq<TokenModel>, pos: int) -> Parsed
    decreases t.len() - pos, 8int,
{
    match sym_type_ref_at(t, pos) {
        Some(r) => Some(r),
        None => match lambda_at(t, pos) {
            Some(r) => Some(r),
            None => unit_at(t, pos),
        },
    }
}

/// typeRef := (typeName genericArgs? | lambdaType | "(" typeRef ")") arraySuffix*
pub open spec fn type_ref_at(t: Seq<TokenModel>, pos: int) -> Parsed
    decreases t.len() - pos, 9int,
{
    match type_ref_base_at(t, pos) {
        Some((base, p)) => Some(arrays_at(t, p, base)),
        None => None,
    }
}

/// identifier := symbol ":" typeRef
pub open spec fn identifier_decl_at(t: Seq<TokenModel>, pos: int) -> Parsed {
    match symbol_at(t, pos) {
        Some((name, p)) => if token_is(t, p, StTokenKind::Colon) {
            match type_ref_at(t, p + 1) {
                Some((type_ref, end)) => Some(
                    (
                        node_of(
                            t,
                            pos,
                            end,
                            NodeModel::IdentifierDecl {
                                name: Box::new(name),
                                type_ref: Box::new(type_ref),
                            },
                        ),
                        end,
                    ),
                ),
                None => None,
            }
        } else {
            None
        },
        None => None,
    }
}

/// globalDecl := "static" identifier ";"
pub open spec fn global_decl_at(t: Seq<TokenModel>, pos: int) -> Parsed {
    if token_is(t, pos, StTokenKind::StaticKeyword) {
        match identifier_decl_at(t, pos + 1) {
            Some((identifier, p)) => if token_is(t, p, StTokenKind::Semicolon) {
                Some(
                    (
                        node_of(
                            t,
                            pos,
                            p + 1,
                            NodeModel::GlobalDecl { identifier: Box::new(identifier) },
                        ),
                        p + 1,
                    ),
                )
            } else {
                None
            },
            None => None,
        }
    } else {
        None
    }
}

/// The position behind an optional "static".
pub open spec fn behind_static(t: Seq<TokenModel>, pos: int) -> int {
    if token_is(t, pos, StTokenKind::StaticKeyword) {
        pos + 1
    } else {
        pos
    }
}

/// fieldDecl := "static"? identifier ";"
pub open spec fn field_at(t: Seq<TokenModel>, pos: int) -> Parsed {
    match identifier_decl_at(t, behind_static(t, pos)) {
        Some((identifier, p)) => if token_is(t, p, StTokenKind::Semicolon) {
            Some(
                (
                    node_of(
                        t,
                        pos,
                        p + 1,
                        NodeModel::FieldDecl {
                            identifier: Box::new(identifier),
                            is_static: token_is(t, pos, StTokenKind::StaticKeyword),
                        },
                    ),
                    p + 1,
                ),
            )
        } else {
            None
        },
        None => None,
    }
}

/// The return type of a method: (":" typeRef | ":" "void")?, where "void"
/// and nothing both stand for no type.
pub open spec fn method_return_at(t: Seq<TokenModel>, pos: int) -> (Option<AstModel>, int) {
    if token_is(t, pos, StTokenKind::Colon) {
        match type_ref_at(t, pos + 1) {
            Some((type_ref, end)) => (Some(type_ref), end),
            None => if token_is(t, pos + 1, StTokenKind::VoidKeyword) {
                (None, pos + 2)
            } else {
                (None, pos)
            },
        }
    } else {
        (None, pos)
    }
}

/// methodDecl := "static"? symbol genericParams? "(" (param ("," param)*)? ")"
/// (":" (typeRef | "void"))? ";"
pub open spec fn method_at(t: Seq<TokenModel>, pos: int) -> Parsed {
    match symbol_at(t, behind_static(t, pos)) {
        Some((name, p)) => {
            let (generic_params, q) = generic_param_set_at(t, p);
            match method_param_set_at(t, q) {
                Some((params, r)) => {
                    let (return_type, s) = method_return_at(t, r);
                    if token_is(t, s, StTokenKind::Semicolon) {
                        Some(
                            (
                                node_of(
                                    t,
                                    pos,
                                    s + 1,
                                    NodeModel::MethodDecl {
                                        name: Box::new(name),
                                        generic_params,
                                        params,
                                        return_type: match return_type {
                                            Some(x) => Some(Box::new(x)),
                                            None => None,
                                        },
                                        is_static: token_is(t, pos, StTokenKind::StaticKeyword),
                                    },
                                ),
                                s + 1,
                            ),
                        )
                    } else {
                        None
                    }
                },
                None => None,
            }
        },
        None => None,
    }
}

/// A statement of a body: a field, or else a method.
pub open spec fn body_statement_at(t: Seq<TokenModel>, pos: int) -> Parsed {
    match field_at(t, pos) {
        Some(r) => Some(r),
        None => method_at(t, pos),
    }
}

/// The statements of a body from `pos` on, as many as there are.
pub open spec fn body_statements_at(t: Seq<TokenModel>, pos: int, acc: Seq<AstModel>) -> ParsedList
    decreases t.len() - pos,
{
    match after(t, pos, body_statement_at(t, pos)) {
        Some((item, p)) => body_statements_at(t, p, acc.push(item)),
        None => (acc, pos),
    }
}

/// The parents of a type: (":" (typeRef ("+" typeRef)*)?)?
pub open spec fn inherits_at(t: Seq<TokenModel>, pos: int) -> (Option<Seq<AstModel>>, int) {
    if token_is(t, pos, StTokenKind::Colon) {
        let (items, p) = type_refs_at(t, pos + 1, StTokenKind::AddOp);
        (Some(items), p)
    } else {
        (None, pos)
    }
}

/// The body of a type: "{" statement* "}", or ";" for a type without one.
pub open spec fn type_body_at(t: Seq<TokenModel>, pos: int) -> Option<(Option<Seq<AstModel>>, int)> {
    if token_is(t, pos, StTokenKind::OpenCurly) {
        let (items, p) = body_statements_at(t, pos + 1, Seq::empty());
        if token_is(t, p, StTokenKind::ClosedCurly) {
            Some((Some(items), p + 1))
        } else {
            None
        }
    } else if token_is(t, pos, StTokenKind::Semicolon) {
        Some((None, pos + 1))
    } else {
        None
    }
}

/// typeDecl := "type" typeName genericParams? (":" (typeRef ("+" typeRef)*)?)? (body | ";")
pub open spec fn type_decl_at(t: Seq<TokenModel>, pos: int) -> Parsed {
    if token_is(t, pos, StTokenKind::TypeKeyword) {
        match type_name_at(t, pos + 1) {
            Some((name, p)) => {
                let (generic_params, q) = generic_param_set_at(t, p);
                let (inherits, r) = inherits_at(t, q);
                match type_body_at(t, r) {
                    Some((body, end)) => Some(
                        (
                            node_of(
                                t,
                                pos,
                                end,
                                NodeModel::TypeDecl {
                                    name: Box::new(name),
                                    generic_params,
                                    inherits,
                                    body,
                                },
                            ),
                            end,
                        ),
                    ),
                    None => None,
                }
            },
            None => None,
        }
    } else {
        None
    }
}

/// statement := globalDecl | typeDecl
pub open spec fn top_level_statement_at(t: Seq<TokenModel>, pos: int) -> Parsed {
    match global_decl_at(t, pos) {
        Some(r) => Some(r),
        None => type_decl_at(t, pos),
    }
}

/// The statements of a program from `pos` on, as many as there are.
pub open spec fn statements_at(t: Seq<TokenModel>, pos: int, acc: Seq<AstModel>) -> ParsedList
    decreases t.len() - pos,
{
    match after(t, pos, top_level_statement_at(t, pos)) {
        Some((item, p)) => statements_at(t, p, acc.push(item)),
        None => (acc, pos),
    }
}

/// program := statement*, as the program node and the position after it.
pub open spec fn type_program_at(t: Seq<TokenModel>, pos: int) -> (AstModel, int) {
    let (statements, end) = statements_at(t, pos, Seq::empty());
    (node_of(t, pos, end, NodeModel::TypeProgramNode { statements }), end)
}

/// The tree of a whole list of tokens: the program that the tokens read as,
/// if they read as one from the first token to the last.
pub open spec fn parse_model(t: Seq<TokenModel>) -> Option<AstModel> {
    let (program, end) = type_program_at(t, 0);
    if end == t.len() {
        Some(program)
    } else {
        None
    }
}


/// Beyond the last token nothing can be read: every parser of a node fails
/// there, and every parser of a list reads the empty list.
pub proof fn lemma_nothing_beyond(t: Seq<TokenModel>, pos: int)
    requires
        pos >= t.len(),
    ensures
        symbol_at(t, pos) is None,
        type_name_at(t, pos) is None,
        sym_type_ref_at(t, pos) is None,
        generic_param_at(t, pos) is None,
        generic_param_set_at(t, pos) == (None::<Seq<AstModel>>, pos),
        method_param_at(t, pos) is None,
        method_param_set_at(t, pos) is None,
        return_type_at(t, pos) is None,
        lambda_at(t, pos) is None,
        unit_at(t, pos) is None,
        type_ref_base_at(t, pos) is None,
        type_ref_at(t, pos) is None,
        identifier_decl_at(t, pos) is None,
        global_decl_at(t, pos) is None,
        field_at(t, pos) is None,
        method_at(t, pos) is None,
        body_statement_at(t, pos) is None,
        type_decl_at(t, pos) is None,
        top_level_statement_at(t, pos) is None,
        statements_at(t, pos, Seq::empty()) == (Seq::<AstModel>::empty(), pos),
{
    assert(symbol_at(t, pos) is None);
    assert(type_name_at(t, pos) is None);
    assert(sym_type_ref_at(t, pos) is None);
    assert(generic_param_set_at(t, pos) == (None::<Seq<AstModel>>, pos));
    assert(method_param_set_at(t, pos) is None);
    assert(lambda_at(t, pos) is None);
    assert(unit_at(t, pos) is None);
    assert(type_ref_base_at(t, pos) is None);
    assert(type_ref_at(t, pos) is None);
    assert(method_param_at(t, pos) is None);
    assert(return_type_at(t, pos) is None);
    assert(generic_param_at(t, pos) is None);
    assert(identifier_decl_at(t, pos) is None);
    assert(behind_static(t, pos) == pos);
    assert(field_at(t, pos) is None);
    assert(method_at(t, pos) is None);
    assert(global_decl_at(t, pos) is None);
    assert(type_decl_at(t, pos) is None);
    assert(top_level_statement_at(t, pos) is None);
}

/// The model of what a parser of one node hands back.
pub open spec fn parsed_model(r: Option<(StAst, usize)>) -> Parsed {
    match r {
        Some((a, p)) => Some((a@, p as int)),
        None => None,
    }
}

/// The model of what a parser of a list hands back.
pub open spec fn parsed_list_model(r: (Vec<StAst>, usize)) -> ParsedList {
    (asts_model(r.0@), r.1 as int)
}

/// The model of what a parser of an optional list hands back.
pub open spec fn parsed_opt_list_model(r: (Option<Vec<StAst>>, usize)) -> (
    Option<Seq<AstModel>>,
    int,
) {
    (
        match r.0 {
            Some(v) => Some(asts_model(v@)),
            None => None,
        },
        r.1 as int,
    )
}

/// A node parser ends after where it started and within the tokens.
pub open spec fn advances(r: Option<(StAst, usize)>, pos: usize, len: nat) -> bool {
    r matches Some((_, p)) ==> pos < p <= len <= usize::MAX
}

/// The type of the node is no field.
pub open spec fn unfielded(a: AstModel) -> bool {
    !(type_of(a, None).1 is Field)
}

/// The type of no node of the list is a field.
pub open spec fn all_unfielded(s: Seq<AstModel>) -> bool {
    forall|i: int| 0 <= i < s.len() ==> unfielded(#[trigger] s[i])
}

/// The bindings of statements whose types are no fields hold no bare field.
pub proof fn lemma_bindings_hold_no_field(s: Seq<AstModel>)
    requires
        all_unfielded(s),
    ensures
        crate::type_resolution::field_free(crate::calc_type::bindings_of(s)),
    decreases s.len(),
{
    if s.len() > 0 {
        let before = s.drop_last();
        assert forall|i: int| 0 <= i < before.len() implies unfielded(#[trigger] before[i]) by {
            assert(before[i] == s[i]);
        }
        lemma_bindings_hold_no_field(before);
        assert(unfielded(s[s.len() - 1]));
    }
}

/// The node has a type without being handed one, and that type is no field.
pub open spec fn typed(r: Option<(StAst, usize)>) -> bool {
    r matches Some((a, _)) ==> typable(a@, false) && unfielded(a@)
}

/// The node has a name and a type without being handed a type, and that
/// type is no field: it can stand at the top level of a program.
pub open spec fn declares(r: Option<(StAst, usize)>) -> bool {
    r matches Some((a, _)) ==> typable(a@, false) && type_of(a@, None).0 is Some && unfielded(a@)
}

/// The node has a type and a name without being handed a type.
pub open spec fn typed_and_named(r: Option<(StAst, usize)>) -> bool {
    r matches Some((a, _)) ==> typable(a@, false) && type_of(a@, None).0 is Some
}

/// Whether the token at `pos` is of the given kind.
fn kind_at(tokens: &Vec<StToken>, pos: usize, kind: StTokenKind) -> (r: bool)
    ensures
        r == token_is(tokens_model(tokens@), pos as int, kind),
        r ==> pos < tokens@.len() <= usize::MAX,
{
    pos < tokens.len() && tokens[pos].kind() == kind
}

/// The bytes that the tokens from `from` up to `to` cover.
fn range(tokens: &Vec<StToken>, from: usize, to: usize) -> (r: Range<usize>)
    ensures
        (r.start as int, r.end as int) == span_of(tokens_model(tokens@), from as int, to as int),
{
    if from < to && to <= tokens.len() {
        tokens[from].start()..tokens[to - 1].end()
    } else {
        0..0
    }
}

/// Create a union between two ranges.
fn union(a: &Range<usize>, b: &Range<usize>) -> (r: Range<usize>)
    ensures
        (r.start as int, r.end as int) == union_of(
            (a.start as int, a.end as int),
            (b.start as int, b.end as int),
        ),
{
    let start = if a.start <= b.start {
        a.start
    } else {
        b.start
    };
    let end = if a.end >= b.end {
        a.end
    } else {
        b.end
    };
    start..end
}

/// Puts `node` behind the nodes of `list`.
#[verifier::rlimit(50)]
fn push_node(list: &mut Vec<StAst>, node: StAst)
    ensures
        asts_model(final(list)@) == asts_model(old(list)@).push(node@),
        all_typable(asts_model(old(list)@)) && typable(node@, false) ==> all_typable(
            asts_model(final(list)@),
        ),
        all_named(asts_model(old(list)@)) && type_of(node@, None).0 is Some ==> all_named(
            asts_model(final(list)@),
        ),
        all_unfielded(asts_model(old(list)@)) && unfielded(node@) ==> all_unfielded(
            asts_model(final(list)@),
        ),
{
    let ghost before = asts_model(list@);
    list.push(node);
    proof {
        let now = asts_model(list@);
        assert(now =~= before.push(node@));
        if all_unfielded(before) && unfielded(node@) {
            assert forall|i: int| 0 <= i < now.len() implies unfielded(#[trigger] now[i]) by {
                if i < before.len() {
                    assert(now[i] == before[i]);
                }
            }
        }
        if all_typable(before) && typable(node@, false) {
            assert forall|i: int| 0 <= i < now.len() implies typable(#[trigger] now[i], false) by {
                if i < before.len() {
                    assert(now[i] == before[i]);
                }
            }
        }
        if all_named(before) && type_of(node@, None).0 is Some {
            assert forall|i: int| 0 <= i < now.len() implies (#[trigger] type_of(
                now[i],
                None,
            )).0 is Some by {
                if i < before.len() {
                    assert(now[i] == before[i]);
                }
            }
        }
    }
}

/// An empty list of nodes.
fn no_nodes() -> (r: Vec<StAst>)
    ensures
        asts_model(r@) == Seq::<AstModel>::empty(),
        all_typable(asts_model(r@)),
        all_named(asts_model(r@)),
        all_unfielded(asts_model(r@)),
{
    let r: Vec<StAst> = Vec::new();
    proof {
        assert(asts_model(r@) =~= Seq::<AstModel>::empty());
    }
    r
}

/// The list that holds `node` alone.
fn one_node(node: StAst) -> (r: Vec<StAst>)
    ensures
        asts_model(r@) == seq![node@],
        typable(node@, false) ==> all_typable(asts_model(r@)),
        type_of(node@, None).0 is Some ==> all_named(asts_model(r@)),
{
    let mut r = no_nodes();
    push_node(&mut r, node);
    proof {
        assert(Seq::<AstModel>::empty().push(node@) =~= seq![node@]);
    }
    r
}

/// Parser for a single symbol
pub fn symbol_parser(tokens: &Vec<StToken>, pos: usize) -> (r: Option<(StAst, usize)>)
    ensures
        parsed_model(r) == symbol_at(tokens_model(tokens@), pos as int),
        advances(r, pos, tokens@.len()),
        r matches Some((a, _)) ==> node_name(a@) is Some,
{
    if kind_at(tokens, pos, StTokenKind::Symbol) {
        let name = tokens[pos].get_info().source.clone();
        Some(
            (
                StAst::new(range(tokens, pos, pos + 1), NodeData::SymbolNode(SymbolNode::new(name))),
                pos + 1,
            ),
        )
    } else {
        None
    }
}

/// Parser for a type. ie: namespace::typeName
#[verifier::rlimit(50)]
pub fn type_name_parser(tokens: &Vec<StToken>, pos: usize) -> (r: Option<(StAst, usize)>)
    ensures
        parsed_model(r) == type_name_at(tokens_model(tokens@), pos as int),
        advances(r, pos, tokens@.len()),
        r matches Some((a, _)) ==> node_name(a@) is Some,
{
    let ghost t = tokens_model(tokens@);
    match symbol_parser(tokens, pos) {
        None => None,
        Some((first, start)) => {
            let ghost whole = path_rest(t, start as int, seq![first@]);
            let mut path = one_node(first);
            let mut p = start;
            let mut more = true;
            while more
                invariant
                    t == tokens_model(tokens@),
                    tokens@.len() <= usize::MAX,
                    pos < p <= tokens@.len(),
                    whole == (if more {
                        path_rest(t, p as int, asts_model(path@))
                    } else {
                        (asts_model(path@), p as int)
                    }),
                decreases
                        tokens@.len() - p + (if more {
                            1int
                        } else {
                            0int
                        }),
            {
                if kind_at(tokens, p, StTokenKind::ScopeOp) {
                    match symbol_parser(tokens, p + 1) {
                        Some((next, q)) => {
                            push_node(&mut path, next);
                            p = q;
                        },
                        None => {
                            more = false;
                        },
                    }
                } else {
                    more = false;
                }
            }
            Some((StAst::new(range(tokens, pos, p), NodeData::TypeName(TypeName::new(path))), p))
        },
    }
}

/// The array suffix at `pos`, as its arity and the position after it.
fn array_suffix(tokens: &Vec<StToken>, pos: usize) -> (r: Option<(usize, usize)>)
    ensures
        match r {
            Some((arity, end)) => array_suffix_at(tokens_model(tokens@), pos as int) == Some(
                (arity as int, end as int),
            ) && pos < end <= tokens@.len(),
            None => array_suffix_at(tokens_model(tokens@), pos as int) is None,
        },
{
    let ghost t = tokens_model(tokens@);
    if kind_at(tokens, pos, StTokenKind::OpenAngle) {
        let mut commas: usize = 0;
        while kind_at(tokens, pos + 1 + commas, StTokenKind::Comma)
            invariant
                t == tokens_model(tokens@),
                tokens@.len() <= usize::MAX,
                pos < tokens@.len(),
                pos + 1 + commas <= tokens@.len(),
                commas_at(t, pos + 1) == commas + commas_at(t, pos + 1 + commas),
            decreases tokens@.len() - commas,
        {
            commas = commas + 1;
        }
        if kind_at(tokens, pos + 1 + commas, StTokenKind::ClosedAngle) {
            Some((commas + 1, pos + commas + 2))
        } else {
            None
        }
    } else {
        None
    }
}


/// Whether the nodes of an optional list have types without being handed one.
pub open spec fn opt_typed(o: Option<Vec<StAst>>) -> bool {
    match o {
        Some(v) => all_typable(asts_model(v@)),
        None => true,
    }
}

/// The array suffixes behind the type `base`.
#[verifier::rlimit(50)]
fn array_suffixes(tokens: &Vec<StToken>, pos: usize, base: StAst) -> (r: (StAst, usize))
    requires
        pos <= tokens@.len(),
        typable(base@, false),
        unfielded(base@),
    ensures
        (r.0@, r.1 as int) == arrays_at(tokens_model(tokens@), pos as int, base@),
        pos <= r.1 <= tokens@.len(),
        typable(r.0@, false),
        unfielded(r.0@),
{
    let ghost t = tokens_model(tokens@);
    let ghost whole = arrays_at(t, pos as int, base@);
    let mut curr = base;
    let mut p = pos;
    let mut more = true;
    while more
        invariant
            t == tokens_model(tokens@),
            pos <= p <= tokens@.len(),
            typable(curr@, false),
            unfielded(curr@),
            whole == (if more {
                arrays_at(t, p as int, curr@)
            } else {
                (curr@, p as int)
            }),
        decreases
                tokens@.len() - p + (if more {
                    1int
                } else {
                    0int
                }),
    {
        match array_suffix(tokens, p) {
            Some((arity, end)) => {
                let covered = union(&range(tokens, p, end), &curr.range);
                curr = StAst::new(covered, NodeData::ArrayDecl(ArrayDecl::new(arity, Box::new(curr))));
                p = end;
            },
            None => {
                more = false;
            },
        }
    }
    (curr, p)
}

/// Type references with the separator `sep` between them.
#[verifier::rlimit(50)]
fn type_refs(tokens: &Vec<StToken>, pos: usize, sep: StTokenKind) -> (r: (Vec<StAst>, usize))
    requires
        pos <= tokens@.len(),
    ensures
        parsed_list_model(r) == type_refs_at(tokens_model(tokens@), pos as int, sep),
        pos <= r.1 <= tokens@.len(),
        all_typable(asts_model(r.0@)),
    decreases tokens@.len() - pos, 11int,
{
    let ghost t = tokens_model(tokens@);
    match type_ref_decl_parser(tokens, pos) {
        None => (no_nodes(), pos),
        Some((first, start)) => {
            let ghost whole = type_refs_rest(t, start as int, sep, seq![first@]);
            let mut items = one_node(first);
            let mut p = start;
            let mut more = true;
            while more
                invariant
                    t == tokens_model(tokens@),
                    tokens@.len() <= usize::MAX,
                    pos < p <= tokens@.len(),
                    all_typable(asts_model(items@)),
                    whole == (if more {
                        type_refs_rest(t, p as int, sep, asts_model(items@))
                    } else {
                        (asts_model(items@), p as int)
                    }),
                decreases
                        tokens@.len() - p + (if more {
                            1int
                        } else {
                            0int
                        }),
            {
                if kind_at(tokens, p, sep) {
                    match type_ref_decl_parser(tokens, p + 1) {
                        Some((next, q)) => {
                            push_node(&mut items, next);
                            p = q;
                        },
                        None => {
                            more = false;
                        },
                    }
                } else {
                    more = false;
                }
            }
            (items, p)
        },
    }
}

/// The generic arguments of a type reference.
#[verifier::rlimit(50)]
fn generic_args(tokens: &Vec<StToken>, pos: usize) -> (r: Option<(Vec<StAst>, usize)>)
    requires
        pos <= tokens@.len(),
    ensures
        (match r {
            Some(list) => Some(parsed_list_model(list)),
            None => None,
        }) == generic_args_at(tokens_model(tokens@), pos as int),
        r matches Some((items, end)) ==> pos < end <= tokens@.len() && all_typable(
            asts_model(items@),
        ),
    decreases tokens@.len() - pos, 5int,
{
    if kind_at(tokens, pos, StTokenKind::OpenCaret) {
        let (items, p) = type_refs(tokens, pos + 1, StTokenKind::Comma);
        if kind_at(tokens, p, StTokenKind::ClosedCaret) {
            Some((items, p + 1))
        } else {
            None
        }
    } else {
        None
    }
}

/// Parser for a type ref of the form Name<Generic>
#[verifier::rlimit(50)]
pub fn sym_type_ref_decl_parser(tokens: &Vec<StToken>, pos: usize) -> (r: Option<(StAst, usize)>)
    ensures
        parsed_model(r) == sym_type_ref_at(tokens_model(tokens@), pos as int),
        advances(r, pos, tokens@.len()),
        typed(r),
    decreases tokens@.len() - pos, 7int,
{
    if pos > tokens.len() {
        proof {
            lemma_nothing_beyond(tokens_model(tokens@), pos as int);
        }
        return None;
    }
    match type_name_parser(tokens, pos) {
        None => None,
        Some((name, p)) => match generic_args(tokens, p) {
            Some((args, end)) => Some(
                (
                    StAst::new(
                        range(tokens, pos, end),
                        NodeData::TypeRefDecl(TypeRefDecl::new(Box::new(name), Some(args))),
                    ),
                    end,
                ),
            ),
            None => Some(
                (
                    StAst::new(
                        range(tokens, pos, p),
                        NodeData::TypeRefDecl(TypeRefDecl::new(Box::new(name), None)),
                    ),
                    p,
                ),
            ),
        },
    }
}

/// Parser for a single generic parameter.
#[verifier::rlimit(50)]
pub fn generic_param_parser(tokens: &Vec<StToken>, pos: usize) -> (r: Option<(StAst, usize)>)
    ensures
        parsed_model(r) == generic_param_at(tokens_model(tokens@), pos as int),
        advances(r, pos, tokens@.len()),
        typed(r),
    decreases tokens@.len() - pos, 10int,
{
    if pos > tokens.len() {
        proof {
            lemma_nothing_beyond(tokens_model(tokens@), pos as int);
        }
        return None;
    }
    match symbol_parser(tokens, pos) {
        None => None,
        Some((name, p)) => if kind_at(tokens, p, StTokenKind::Colon) {
            let (inherits, end) = type_refs(tokens, p + 1, StTokenKind::AddOp);
            Some(
                (
                    StAst::new(
                        range(tokens, pos, end),
                        NodeData::GenericParamDecl(
                            GenericParamDecl::new(Box::new(name), Some(inherits)),
                        ),
                    ),
                    end,
                ),
            )
        } else {
            Some(
                (
                    StAst::new(
                        range(tokens, pos, p),
                        NodeData::GenericParamDecl(GenericParamDecl::new(Box::new(name), None)),
                    ),
                    p,
                ),
            )
        },
    }
}

/// Generic parameters with commas between them.
#[verifier::rlimit(50)]
fn generic_params(tokens: &Vec<StToken>, pos: usize) -> (r: (Vec<StAst>, usize))
    requires
        pos <= tokens@.len(),
    ensures
        parsed_list_model(r) == generic_params_at(tokens_model(tokens@), pos as int),
        pos <= r.1 <= tokens@.len(),
        all_typable(asts_model(r.0@)),
    decreases tokens@.len() - pos, 11int,
{
    let ghost t = tokens_model(tokens@);
    match generic_param_parser(tokens, pos) {
        None => (no_nodes(), pos),
        Some((first, start)) => {
            let ghost whole = generic_params_rest(t, start as int, seq![first@]);
            let mut items = one_node(first);
            let mut p = start;
            let mut more = true;
            while more
                invariant
                    t == tokens_model(tokens@),
                    tokens@.len() <= usize::MAX,
                    pos < p <= tokens@.len(),
                    all_typable(asts_model(items@)),
                    whole == (if more {
                        generic_params_rest(t, p as int, asts_model(items@))
                    } else {
                        (asts_model(items@), p as int)
                    }),
                decreases
                        tokens@.len() - p + (if more {
                            1int
                        } else {
                            0int
                        }),
            {
                if kind_at(tokens, p, StTokenKind::Comma) {
                    match generic_param_parser(tokens, p + 1) {
                        Some((next, q)) => {
                            push_node(&mut items, next);
                            p = q;
                        },
                        None => {
                            more = false;
                        },
                    }
                } else {
                    more = false;
                }
            }
            (items, p)
        },
    }
}

/// Parser for a set of generic params
#[verifier::rlimit(50)]
pub fn generic_param_set_parser(tokens: &Vec<StToken>, pos: usize) -> (r: (
    Option<Vec<StAst>>,
    usize,
))
    ensures
        parsed_opt_list_model(r) == generic_param_set_at(tokens_model(tokens@), pos as int),
        pos <= r.1,
        pos <= tokens@.len() ==> r.1 <= tokens@.len(),
        opt_typed(r.0),
    decreases tokens@.len() - pos, 6int,
{
    if pos > tokens.len() {
        proof {
            lemma_nothing_beyond(tokens_model(tokens@), pos as int);
        }
        return (None, pos);
    }
    if kind_at(tokens, pos, StTokenKind::OpenCaret) {
        let (items, p) = generic_params(tokens, pos + 1);
        if kind_at(tokens, p, StTokenKind::ClosedCaret) {
            (Some(items), p + 1)
        } else {
            (None, pos)
        }
    } else {
        (None, pos)
    }
}

/// Parser for a single method param.
#[verifier::rlimit(50)]
pub fn method_param_parser(tokens: &Vec<StToken>, pos: usize) -> (r: Option<(StAst, usize)>)
    ensures
        parsed_model(r) == method_param_at(tokens_model(tokens@), pos as int),
        advances(r, pos, tokens@.len()),
        typed(r),
    decreases tokens@.len() - pos, 10int,
{
    if pos > tokens.len() {
        proof {
            lemma_nothing_beyond(tokens_model(tokens@), pos as int);
        }
        return None;
    }
    if kind_at(tokens, pos, StTokenKind::Spread) {
        match type_ref_decl_parser(tokens, pos + 1) {
            Some((type_ref, end)) => Some(
                (
                    StAst::new(
                        range(tokens, pos, end),
                        NodeData::MethodParamDecl(MethodParamDecl::new(Box::new(type_ref), true)),
                    ),
                    end,
                ),
            ),
            None => None,
        }
    } else {
        match type_ref_decl_parser(tokens, pos) {
            Some((type_ref, end)) => Some(
                (
                    StAst::new(
                        range(tokens, pos, end),
                        NodeData::MethodParamDecl(MethodParamDecl::new(Box::new(type_ref), false)),
                    ),
                    end,
                ),
            ),
            None => None,
        }
    }
}

/// Parameters with commas between them.
#[verifier::rlimit(50)]
fn method_params(tokens: &Vec<StToken>, pos: usize) -> (r: (Vec<StAst>, usize))
    requires
        pos <= tokens@.len(),
    ensures
        parsed_list_model(r) == method_params_at(tokens_model(tokens@), pos as int),
        pos <= r.1 <= tokens@.len(),
        all_typable(asts_model(r.0@)),
    decreases tokens@.len() - pos, 11int,
{
    let ghost t = tokens_model(tokens@);
    match method_param_parser(tokens, pos) {
        None => (no_nodes(), pos),
        Some((first, start)) => {
            let ghost whole = method_params_rest(t, start as int, seq![first@]);
            let mut items = one_node(first);
            let mut p = start;
            let mut more = true;
            while more
                invariant
                    t == tokens_model(tokens@),
                    tokens@.len() <= usize::MAX,
                    pos < p <= tokens@.len(),
                    all_typable(asts_model(items@)),
                    whole == (if more {
                        method_params_rest(t, p as int, asts_model(items@))
                    } else {
                        (asts_model(items@), p as int)
                    }),
                decreases
                        tokens@.len() - p + (if more {
                            1int
                        } else {
                            0int
                        }),
            {
                if kind_at(tokens, p, StTokenKind::Comma) {
                    match method_param_parser(tokens, p + 1) {
                        Some((next, q)) => {
                            push_node(&mut items, next);
                            p = q;
                        },
                        None => {
                            more = false;
                        },
                    }
                } else {
                    more = false;
                }
            }
            (items, p)
        },
    }
}

/// Parser for a set of method params.
#[verifier::rlimit(50)]
pub fn method_param_set_parser(tokens: &Vec<StToken>, pos: usize) -> (r: Option<
    (Vec<StAst>, usize),
>)
    ensures
        (match r {
            Some(list) => Some(parsed_list_model(list)),
            None => None,
        }) == method_param_set_at(tokens_model(tokens@), pos as int),
        r matches Some((items, end)) ==> pos < end <= tokens@.len() && all_typable(
            asts_model(items@),
        ),
    decreases tokens@.len() - pos, 6int,
{
    if pos > tokens.len() {
        proof {
            lemma_nothing_beyond(tokens_model(tokens@), pos as int);
        }
        return None;
    }
    if kind_at(tokens, pos, StTokenKind::OpenParen) {
        let (items, p) = method_params(tokens, pos + 1);
        if kind_at(tokens, p, StTokenKind::ClosedParen) {
            Some((items, p + 1))
        } else {
            None
        }
    } else {
        None
    }
}

/// The model of what the parser of a return type hands back.
pub open spec fn parsed_return_model(r: Option<(Option<StAst>, usize)>) -> Option<
    (Option<AstModel>, int),
> {
    match r {
        Some((Some(a), p)) => Some((Some(a@), p as int)),
        Some((None, p)) => Some((None, p as int)),
        None => None,
    }
}

/// Parser for a return type: a type reference, or `void` for none.
#[verifier::rlimit(50)]
pub fn return_type_parser(tokens: &Vec<StToken>, pos: usize) -> (r: Option<
    (Option<StAst>, usize),
>)
    ensures
        parsed_return_model(r) == return_type_at(tokens_model(tokens@), pos as int),
        r matches Some((ret, end)) ==> pos < end <= tokens@.len() && (ret matches Some(a)
            ==> typable(a@, false)),
    decreases tokens@.len() - pos, 10int,
{
    if pos > tokens.len() {
        proof {
            lemma_nothing_beyond(tokens_model(tokens@), pos as int);
        }
        return None;
    }
    match type_ref_decl_parser(tokens, pos) {
        Some((type_ref, end)) => Some((Some(type_ref), end)),
        None => if kind_at(tokens, pos, StTokenKind::VoidKeyword) {
            Some((None, pos + 1))
        } else {
            None
        },
    }
}

/// An optional node in a box.
fn boxed(node: Option<StAst>) -> (r: Option<Box<StAst>>)
    ensures
        match node {
            Some(a) => r matches Some(b) && *b == a,
            None => r is None,
        },
{
    match node {
        Some(a) => Some(Box::new(a)),
        None => None,
    }
}

/// The model of an optional list of nodes.
pub open spec fn opt_list_model(o: Option<Vec<StAst>>) -> Option<Seq<AstModel>> {
    match o {
        Some(v) => Some(asts_model(v@)),
        None => None,
    }
}

/// The model of an optional node, boxed.
pub open spec fn opt_boxed_model(o: Option<StAst>) -> Option<Box<AstModel>> {
    match o {
        Some(a) => Some(Box::new(a@)),
        None => None,
    }
}

/// The lambda node made of the given parts.
#[verifier::rlimit(50)]
fn lambda_node(
    covered: Range<usize>,
    generic_params: Option<Vec<StAst>>,
    params: Vec<StAst>,
    return_type: Option<StAst>,
) -> (r: StAst)
    requires
        opt_typed(generic_params),
        all_typable(asts_model(params@)),
        return_type matches Some(a) ==> typable(a@, false),
    ensures
        r@ == (AstModel {
            start: covered.start as int,
            end: covered.end as int,
            data: NodeModel::LambdaDecl {
                generic_params: opt_list_model(generic_params),
                params: asts_model(params@),
                return_type: opt_boxed_model(return_type),
            },
            cached: None,
        }),
        typable(r@, false),
        unfielded(r@),
{
    StAst::new(
        covered,
        NodeData::LambdaDecl(LambdaDecl::new(generic_params, params, boxed(return_type))),
    )
}

/// Parser for a lambda declaration.
#[verifier::rlimit(50)]
pub fn lambda_decl_parser(tokens: &Vec<StToken>, pos: usize) -> (r: Option<(StAst, usize)>)
    ensures
        parsed_model(r) == lambda_at(tokens_model(tokens@), pos as int),
        advances(r, pos, tokens@.len()),
        typed(r),
    decreases tokens@.len() - pos, 7int,
{
    if pos > tokens.len() {
        proof {
            lemma_nothing_beyond(tokens_model(tokens@), pos as int);
        }
        return None;
    }
    let (generic_params, p) = generic_param_set_parser(tokens, pos);
    match method_param_set_parser(tokens, p) {
        Some((params, q)) => if kind_at(tokens, q, StTokenKind::ArrowOp) {
            match return_type_parser(tokens, q + 1) {
                Some((return_type, end)) => Some(
                    (lambda_node(range(tokens, pos, end), generic_params, params, return_type), end),
                ),
                None => None,
            }
        } else {
            None
        },
        None => None,
    }
}

/// Parser for a unit in parens. ie (TypeRef)
#[verifier::rlimit(50)]
pub fn unit_parser(tokens: &Vec<StToken>, pos: usize) -> (r: Option<(StAst, usize)>)
    ensures
        parsed_model(r) == unit_at(tokens_model(tokens@), pos as int),
        advances(r, pos, tokens@.len()),
        typed(r),
    decreases tokens@.len() - pos, 7int,
{
    if pos > tokens.len() {
        proof {
            lemma_nothing_beyond(tokens_model(tokens@), pos as int);
        }
        return None;
    }
    if kind_at(tokens, pos, StTokenKind::OpenParen) {
        match type_ref_decl_parser(tokens, pos + 1) {
            Some((inner, p)) => if kind_at(tokens, p, StTokenKind::ClosedParen) {
                Some(
                    (
                        StAst::new(
                            range(tokens, pos, p + 1),
                            NodeData::UnitDecl(UnitDecl::new(Box::new(inner))),
                        ),
                        p + 1,
                    ),
                )
            } else {
                None
            },
            None => None,
        }
    } else {
        None
    }
}

/// A type reference without array suffixes.
#[verifier::rlimit(50)]
fn type_ref_base(tokens: &Vec<StToken>, pos: usize) -> (r: Option<(StAst, usize)>)
    requires
        pos <= tokens@.len(),
    ensures
        parsed_model(r) == type_ref_base_at(tokens_model(tokens@), pos as int),
        advances(r, pos, tokens@.len()),
        typed(r),
    decreases tokens@.len() - pos, 8int,
{
    match sym_type_ref_decl_parser(tokens, pos) {
        Some(r) => Some(r),
        None => match lambda_decl_parser(tokens, pos) {
            Some(r) => Some(r),
            None => unit_parser(tokens, pos),
        },
    }
}

/// Parser for a reference to any type.
#[verifier::rlimit(50)]
pub fn type_ref_decl_parser(tokens: &Vec<StToken>, pos: usize) -> (r: Option<(StAst, usize)>)
    ensures
        parsed_model(r) == type_ref_at(tokens_model(tokens@), pos as int),
        advances(r, pos, tokens@.len()),
        typed(r),
    decreases tokens@.len() - pos, 9int,
{
    if pos > tokens.len() {
        proof {
            lemma_nothing_beyond(tokens_model(tokens@), pos as int);
        }
        return None;
    }
    match type_ref_base(tokens, pos) {
        Some((base, p)) => Some(array_suffixes(tokens, p, base)),
        None => None,
    }
}


/// Parser for an identifier. ie: varName: Type
#[verifier::rlimit(50)]
pub fn identifier_decl_parser(tokens: &Vec<StToken>, pos: usize) -> (r: Option<(StAst, usize)>)
    ensures
        parsed_model(r) == identifier_decl_at(tokens_model(tokens@), pos as int),
        advances(r, pos, tokens@.len()),
        declares(r),
{
    if pos > tokens.len() {
        proof {
            lemma_nothing_beyond(tokens_model(tokens@), pos as int);
        }
        return None;
    }
    match symbol_parser(tokens, pos) {
        Some((name, p)) => if kind_at(tokens, p, StTokenKind::Colon) {
            match type_ref_decl_parser(tokens, p + 1) {
                Some((type_ref, end)) => Some(
                    (
                        StAst::new(
                            range(tokens, pos, end),
                            NodeData::IdentifierDecl(
                                IdentifierDecl::new(Box::new(name), Box::new(type_ref)),
                            ),
                        ),
                        end,
                    ),
                ),
                None => None,
            }
        } else {
            None
        },
        None => None,
    }
}

/// Parser for a static field.
#[verifier::rlimit(50)]
pub fn global_decl_parser(tokens: &Vec<StToken>, pos: usize) -> (r: Option<(StAst, usize)>)
    ensures
        parsed_model(r) == global_decl_at(tokens_model(tokens@), pos as int),
        advances(r, pos, tokens@.len()),
        declares(r),
{
    if pos > tokens.len() {
        proof {
            lemma_nothing_beyond(tokens_model(tokens@), pos as int);
        }
        return None;
    }
    if kind_at(tokens, pos, StTokenKind::StaticKeyword) {
        match identifier_decl_parser(tokens, pos + 1) {
            Some((identifier, p)) => if kind_at(tokens, p, StTokenKind::Semicolon) {
                Some(
                    (
                        StAst::new(
                            range(tokens, pos, p + 1),
                            NodeData::GlobalDecl(GlobalDecl::new(Box::new(identifier))),
                        ),
                        p + 1,
                    ),
                )
            } else {
                None
            },
            None => None,
        }
    } else {
        None
    }
}

/// Whether a declaration starts with "static", and where it goes on.
fn static_prefix(tokens: &Vec<StToken>, pos: usize) -> (r: (bool, usize))
    requires
        pos <= tokens@.len(),
    ensures
        r.0 == token_is(tokens_model(tokens@), pos as int, StTokenKind::StaticKeyword),
        r.1 == behind_static(tokens_model(tokens@), pos as int),
        pos <= r.1 <= tokens@.len(),
{
    if kind_at(tokens, pos, StTokenKind::StaticKeyword) {
        (true, pos + 1)
    } else {
        (false, pos)
    }
}

/// Parser for a class field.
#[verifier::rlimit(50)]
pub fn field_parser(tokens: &Vec<StToken>, pos: usize) -> (r: Option<(StAst, usize)>)
    ensures
        parsed_model(r) == field_at(tokens_model(tokens@), pos as int),
        advances(r, pos, tokens@.len()),
        typed_and_named(r),
{
    if pos > tokens.len() {
        proof {
            lemma_nothing_beyond(tokens_model(tokens@), pos as int);
        }
        return None;
    }
    let (is_static, start) = static_prefix(tokens, pos);
    match identifier_decl_parser(tokens, start) {
        Some((identifier, p)) => if kind_at(tokens, p, StTokenKind::Semicolon) {
            Some(
                (
                    StAst::new(
                        range(tokens, pos, p + 1),
                        NodeData::FieldDecl(FieldDecl::new(Box::new(identifier), is_static)),
                    ),
                    p + 1,
                ),
            )
        } else {
            None
        },
        None => None,
    }
}

/// The return type that a method declares, if it declares one.
#[verifier::rlimit(50)]
fn method_return(tokens: &Vec<StToken>, pos: usize) -> (r: (Option<StAst>, usize))
    requires
        pos <= tokens@.len(),
    ensures
        (
            match r.0 {
                Some(a) => Some(a@),
                None => None,
            },
            r.1 as int,
        ) == method_return_at(tokens_model(tokens@), pos as int),
        pos <= r.1 <= tokens@.len(),
        r.0 matches Some(a) ==> typable(a@, false),
{
    if kind_at(tokens, pos, StTokenKind::Colon) {
        match type_ref_decl_parser(tokens, pos + 1) {
            Some((type_ref, end)) => (Some(type_ref), end),
            None => if kind_at(tokens, pos + 1, StTokenKind::VoidKeyword) {
                (None, pos + 2)
            } else {
                (None, pos)
            },
        }
    } else {
        (None, pos)
    }
}

/// The method node made of the given parts.
#[verifier::rlimit(50)]
fn method_node(
    covered: Range<usize>,
    name: StAst,
    generic_params: Option<Vec<StAst>>,
    params: Vec<StAst>,
    return_type: Option<StAst>,
    is_static: bool,
) -> (r: StAst)
    requires
        node_name(name@) is Some,
        opt_typed(generic_params),
        all_typable(asts_model(params@)),
        return_type matches Some(a) ==> typable(a@, false),
    ensures
        r@ == (AstModel {
            start: covered.start as int,
            end: covered.end as int,
            data: NodeModel::MethodDecl {
                name: Box::new(name@),
                generic_params: opt_list_model(generic_params),
                params: asts_model(params@),
                return_type: opt_boxed_model(return_type),
                is_static,
            },
            cached: None,
        }),
        typable(r@, false),
        type_of(r@, None).0 is Some,
{
    StAst::new(
        covered,
        NodeData::MethodDecl(
            MethodDecl::new(Box::new(name), generic_params, params, boxed(return_type), is_static),
        ),
    )
}

/// Parser for a method
#[verifier::rlimit(50)]
pub fn method_parser(tokens: &Vec<StToken>, pos: usize) -> (r: Option<(StAst, usize)>)
    ensures
        parsed_model(r) == method_at(tokens_model(tokens@), pos as int),
        advances(r, pos, tokens@.len()),
        typed_and_named(r),
{
    if pos > tokens.len() {
        proof {
            lemma_nothing_beyond(tokens_model(tokens@), pos as int);
        }
        return None;
    }
    let (is_static, start) = static_prefix(tokens, pos);
    match symbol_parser(tokens, start) {
        Some((name, p)) => {
            let (generic_params, q) = generic_param_set_parser(tokens, p);
            match method_param_set_parser(tokens, q) {
                Some((params, r)) => {
                    let (return_type, s) = method_return(tokens, r);
                    if kind_at(tokens, s, StTokenKind::Semicolon) {
                        Some(
                            (
                                method_node(
                                    range(tokens, pos, s + 1),
                                    name,
                                    generic_params,
                                    params,
                                    return_type,
                                    is_static,
                                ),
                                s + 1,
                            ),
                        )
                    } else {
                        None
                    }
                },
                None => None,
            }
        },
        None => None,
    }
}

/// Parser for a statement in a type body
pub fn body_statement_parser(tokens: &Vec<StToken>, pos: usize) -> (r: Option<(StAst, usize)>)
    ensures
        parsed_model(r) == body_statement_at(tokens_model(tokens@), pos as int),
        advances(r, pos, tokens@.len()),
        typed_and_named(r),
{
    if pos > tokens.len() {
        proof {
            lemma_nothing_beyond(tokens_model(tokens@), pos as int);
        }
        return None;
    }
    match field_parser(tokens, pos) {
        Some(r) => Some(r),
        None => method_parser(tokens, pos),
    }
}

/// The statements of a body from `pos` on.
#[verifier::rlimit(50)]
fn body_statements(tokens: &Vec<StToken>, pos: usize) -> (r: (Vec<StAst>, usize))
    requires
        pos <= tokens@.len(),
    ensures
        parsed_list_model(r) == body_statements_at(
            tokens_model(tokens@),
            pos as int,
            Seq::empty(),
        ),
        pos <= r.1 <= tokens@.len(),
        all_typable(asts_model(r.0@)),
        all_named(asts_model(r.0@)),
{
    let ghost t = tokens_model(tokens@);
    let ghost whole = body_statements_at(t, pos as int, Seq::empty());
    let mut items = no_nodes();
    let mut p = pos;
    let mut more = true;
    while more
        invariant
            t == tokens_model(tokens@),
            pos <= p <= tokens@.len(),
            all_typable(asts_model(items@)),
            all_named(asts_model(items@)),
            whole == (if more {
                body_statements_at(t, p as int, asts_model(items@))
            } else {
                (asts_model(items@), p as int)
            }),
        decreases
                tokens@.len() - p + (if more {
                    1int
                } else {
                    0int
                }),
    {
        match body_statement_parser(tokens, p) {
            Some((next, q)) => {
                push_node(&mut items, next);
                p = q;
            },
            None => {
                more = false;
            },
        }
    }
    (items, p)
}

/// The parents that a type declares, if it declares any.
fn inherits(tokens: &Vec<StToken>, pos: usize) -> (r: (Option<Vec<StAst>>, usize))
    requires
        pos <= tokens@.len(),
    ensures
        parsed_opt_list_model(r) == inherits_at(tokens_model(tokens@), pos as int),
        pos <= r.1 <= tokens@.len(),
        opt_typed(r.0),
{
    if kind_at(tokens, pos, StTokenKind::Colon) {
        let (items, p) = type_refs(tokens, pos + 1, StTokenKind::AddOp);
        (Some(items), p)
    } else {
        (None, pos)
    }
}

/// The body of a type, or nothing for a type that ends in ";".
#[verifier::rlimit(50)]
fn type_body(tokens: &Vec<StToken>, pos: usize) -> (r: Option<(Option<Vec<StAst>>, usize)>)
    requires
        pos <= tokens@.len(),
    ensures
        (match r {
            Some(body) => Some(parsed_opt_list_model(body)),
            None => None,
        }) == type_body_at(tokens_model(tokens@), pos as int),
        r matches Some((body, end)) ==> pos < end <= tokens@.len() <= usize::MAX && (
        body matches Some(v) ==> all_typable(asts_model(v@)) && all_named(asts_model(v@))),
{
    if kind_at(tokens, pos, StTokenKind::OpenCurly) {
        let (items, p) = body_statements(tokens, pos + 1);
        if kind_at(tokens, p, StTokenKind::ClosedCurly) {
            Some((Some(items), p + 1))
        } else {
            None
        }
    } else if kind_at(tokens, pos, StTokenKind::Semicolon) {
        Some((None, pos + 1))
    } else {
        None
    }
}

/// The type declaration node made of the given parts.
#[verifier::rlimit(50)]
fn type_decl_node(
    covered: Range<usize>,
    name: StAst,
    generic_params: Option<Vec<StAst>>,
    parents: Option<Vec<StAst>>,
    body: Option<Vec<StAst>>,
) -> (r: StAst)
    requires
        node_name(name@) is Some,
        opt_typed(generic_params),
        opt_typed(parents),
        body matches Some(v) ==> all_typable(asts_model(v@)) && all_named(asts_model(v@)),
    ensures
        r@ == (AstModel {
            start: covered.start as int,
            end: covered.end as int,
            data: NodeModel::TypeDecl {
                name: Box::new(name@),
                generic_params: opt_list_model(generic_params),
                inherits: opt_list_model(parents),
                body: opt_list_model(body),
            },
            cached: None,
        }),
        typable(r@, false),
        type_of(r@, None).0 is Some,
        unfielded(r@),
{
    StAst::new(
        covered,
        NodeData::TypeDecl(TypeDecl::new(Box::new(name), generic_params, parents, body)),
    )
}

/// Parser for a type. ie: type TypeName {};
#[verifier::rlimit(50)]
pub fn type_decl_parser(tokens: &Vec<StToken>, pos: usize) -> (r: Option<(StAst, usize)>)
    ensures
        parsed_model(r) == type_decl_at(tokens_model(tokens@), pos as int),
        advances(r, pos, tokens@.len()),
        declares(r),
{
    if pos > tokens.len() {
        proof {
            lemma_nothing_beyond(tokens_model(tokens@), pos as int);
        }
        return None;
    }
    if kind_at(tokens, pos, StTokenKind::TypeKeyword) {
        match type_name_parser(tokens, pos + 1) {
            Some((name, p)) => {
                let (generic_params, q) = generic_param_set_parser(tokens, p);
                let (parents, r) = inherits(tokens, q);
                match type_body(tokens, r) {
                    Some((body, end)) => Some(
                        (
                            type_decl_node(
                                range(tokens, pos, end),
                                name,
                                generic_params,
                                parents,
                                body,
                            ),
                            end,
                        ),
                    ),
                    None => None,
                }
            },
            None => None,
        }
    } else {
        None
    }
}

/// Parser for a statement that can appear at the top level of a type program.
pub fn top_level_statement_parser(tokens: &Vec<StToken>, pos: usize) -> (r: Option<
    (StAst, usize),
>)
    ensures
        parsed_model(r) == top_level_statement_at(tokens_model(tokens@), pos as int),
        advances(r, pos, tokens@.len()),
        declares(r),
{
    if pos > tokens.len() {
        proof {
            lemma_nothing_beyond(tokens_model(tokens@), pos as int);
        }
        return None;
    }
    match global_decl_parser(tokens, pos) {
        Some(r) => Some(r),
        None => type_decl_parser(tokens, pos),
    }
}

/// Parser for an entire type program: as many statements as there are from
/// `pos` on.
#[verifier::rlimit(50)]
pub fn type_program_parser(tokens: &Vec<StToken>, pos: usize) -> (r: (StAst, usize))
    ensures
        (r.0@, r.1 as int) == type_program_at(tokens_model(tokens@), pos as int),
        pos <= r.1,
        pos <= tokens@.len() ==> r.1 <= tokens@.len(),
        typable(r.0@, false),
        r.0.cached_type is None,
        r.0.data is TypeProgramNode,
        type_of(r.0@, None).1 is Program,
        crate::type_resolution::field_free(type_of(r.0@, None).1->Program_types),
{
    if pos > tokens.len() {
        proof {
            lemma_nothing_beyond(tokens_model(tokens@), pos as int);
            lemma_bindings_hold_no_field(Seq::<AstModel>::empty());
        }
        return (
            StAst::new(
                range(tokens, pos, pos),
                NodeData::TypeProgramNode(TypeProgramNode::new(no_nodes())),
            ),
            pos,
        );
    }
    let ghost t = tokens_model(tokens@);
    let ghost whole = statements_at(t, pos as int, Seq::empty());
    let mut items = no_nodes();
    let mut p = pos;
    let mut more = true;
    while more
        invariant
            t == tokens_model(tokens@),
            pos <= p <= tokens@.len(),
            all_typable(asts_model(items@)),
            all_named(asts_model(items@)),
            all_unfielded(asts_model(items@)),
            whole == (if more {
                statements_at(t, p as int, asts_model(items@))
            } else {
                (asts_model(items@), p as int)
            }),
        decreases
                tokens@.len() - p + (if more {
                    1int
                } else {
                    0int
                }),
    {
        match top_level_statement_parser(tokens, p) {
            Some((next, q)) => {
                push_node(&mut items, next);
                p = q;
            },
            None => {
                more = false;
            },
        }
    }
    proof {
        lemma_bindings_hold_no_field(asts_model(items@));
    }
    (StAst::new(range(tokens, pos, p), NodeData::TypeProgramNode(TypeProgramNode::new(items))), p)
}

/// The tree that the whole list of tokens reads as, if it reads as a program
/// from the first token to the last.
#[verifier::rlimit(50)]
pub fn parse_tokens(tokens: &Vec<StToken>) -> (r: Option<StAst>)
    ensures
        (match r {
            Some(a) => Some(a@),
            None => None,
        }) == parse_model(tokens_model(tokens@)),
        r matches Some(a) ==> typable(a@, false) && a.cached_type is None
            && a.data is TypeProgramNode && type_of(a@, None).1 is Program
            && crate::type_resolution::field_free(type_of(a@, None).1->Program_types),
{
    let (program, end) = type_program_parser(tokens, 0);
    if end == tokens.len() {
        Some(program)
    } else {
        None
    }
}

/// The node of a parser's result if the parser read the tokens to the end.
pub fn complete(parsed: Option<(StAst, usize)>, tokens: &Vec<StToken>) -> (r: Option<StAst>)
    ensures
        r == (match parsed {
            Some((a, end)) => if end == tokens@.len() {
                Some(a)
            } else {
                None
            },
            None => None,
        }),
{
    match parsed {
        Some((a, end)) => if end == tokens.len() {
            Some(a)
        } else {
            None
        },
        None => None,
    }
}

} // verus!
