use crate::lexer::{lex_source, scan};
use crate::st_token::{tokens_model, StToken, StTokenInfo, StTokenKind, TokenModel};
use vstd::prelude::*;

verus! {

/// A token of a type program in the vocabulary without scoped names: `::`
/// reads as two colons.
#[derive(Debug, PartialEq)]
pub enum TypeToken {
    // Keywords
    TypeKeyword(StTokenInfo),
    VoidKeyword(StTokenInfo),
    StaticKeyword(StTokenInfo),
    // Symbols
    Colon(StTokenInfo),
    Semicolon(StTokenInfo),
    Comma(StTokenInfo),
    AddOp(StTokenInfo),
    ArrowOp(StTokenInfo),
    Spread(StTokenInfo),
    // Brackets
    OpenCurly(StTokenInfo),
    ClosedCurly(StTokenInfo),
    OpenParen(StTokenInfo),
    ClosedParen(StTokenInfo),
    OpenAngle(StTokenInfo),
    ClosedAngle(StTokenInfo),
    OpenCaret(StTokenInfo),
    ClosedCaret(StTokenInfo),
    // Symbol
    Symbol(StTokenInfo),
    // Whitespace
    Whitespace,
}

/// Why a source could not be turned into tokens.
#[derive(Debug, PartialEq)]
pub enum CompileError {
    /// A character of the source begins no token.
    LexError,
}

impl TypeToken {
    /// The kind of the token.
    pub open spec fn kind_of(self) -> StTokenKind {
        match self {
            TypeToken::TypeKeyword(_) => StTokenKind::TypeKeyword,
            TypeToken::VoidKeyword(_) => StTokenKind::VoidKeyword,
            TypeToken::StaticKeyword(_) => StTokenKind::StaticKeyword,
            TypeToken::Colon(_) => StTokenKind::Colon,
            TypeToken::Semicolon(_) => StTokenKind::Semicolon,
            TypeToken::Comma(_) => StTokenKind::Comma,
            TypeToken::AddOp(_) => StTokenKind::AddOp,
            TypeToken::ArrowOp(_) => StTokenKind::ArrowOp,
            TypeToken::Spread(_) => StTokenKind::Spread,
            TypeToken::OpenCurly(_) => StTokenKind::OpenCurly,
            TypeToken::ClosedCurly(_) => StTokenKind::ClosedCurly,
            TypeToken::OpenParen(_) => StTokenKind::OpenParen,
            TypeToken::ClosedParen(_) => StTokenKind::ClosedParen,
            TypeToken::OpenAngle(_) => StTokenKind::OpenAngle,
            TypeToken::ClosedAngle(_) => StTokenKind::ClosedAngle,
            TypeToken::OpenCaret(_) => StTokenKind::OpenCaret,
            TypeToken::ClosedCaret(_) => StTokenKind::ClosedCaret,
            TypeToken::Symbol(_) => StTokenKind::Symbol,
            TypeToken::Whitespace => StTokenKind::Whitespace,
        }
    }

    /// What the token carries; whitespace carries nothing.
    pub open spec fn info_of(self) -> Option<StTokenInfo> {
        match self {
            TypeToken::TypeKeyword(info) => Some(info),
            TypeToken::VoidKeyword(info) => Some(info),
            TypeToken::StaticKeyword(info) => Some(info),
            TypeToken::Colon(info) => Some(info),
            TypeToken::Semicolon(info) => Some(info),
            TypeToken::Comma(info) => Some(info),
            TypeToken::AddOp(info) => Some(info),
            TypeToken::ArrowOp(info) => Some(info),
            TypeToken::Spread(info) => Some(info),
            TypeToken::OpenCurly(info) => Some(info),
            TypeToken::ClosedCurly(info) => Some(info),
            TypeToken::OpenParen(info) => Some(info),
            TypeToken::ClosedParen(info) => Some(info),
            TypeToken::OpenAngle(info) => Some(info),
            TypeToken::ClosedAngle(info) => Some(info),
            TypeToken::OpenCaret(info) => Some(info),
            TypeToken::ClosedCaret(info) => Some(info),
            TypeToken::Symbol(info) => Some(info),
            TypeToken::Whitespace => None,
        }
    }

    pub fn get_info_mut(&mut self) -> (r: &mut StTokenInfo)
        requires
            !(*old(self) is Whitespace),
        ensures
            Some(*r) == old(self).info_of(),
            final(self).kind_of() == old(self).kind_of(),
            final(self).info_of() == Some(*final(r)),
    {
        match self {
            TypeToken::TypeKeyword(info) => info,
            TypeToken::VoidKeyword(info) => info,
            TypeToken::StaticKeyword(info) => info,
            TypeToken::Colon(info) => info,
            TypeToken::Semicolon(info) => info,
            TypeToken::Comma(info) => info,
            TypeToken::AddOp(info) => info,
            TypeToken::ArrowOp(info) => info,
            TypeToken::Spread(info) => info,
            TypeToken::OpenCurly(info) => info,
            TypeToken::ClosedCurly(info) => info,
            TypeToken::OpenParen(info) => info,
            TypeToken::ClosedParen(info) => info,
            TypeToken::OpenAngle(info) => info,
            TypeToken::ClosedAngle(info) => info,
            TypeToken::OpenCaret(info) => info,
            TypeToken::ClosedCaret(info) => info,
            TypeToken::Symbol(info) => info,
            TypeToken::Whitespace => unreached(),
        }
    }

    pub fn get_info(&self) -> (r: &StTokenInfo)
        requires
            !(*self is Whitespace),
        ensures
            Some(*r) == self.info_of(),
    {
        match self {
            TypeToken::TypeKeyword(info) => info,
            TypeToken::VoidKeyword(info) => info,
            TypeToken::StaticKeyword(info) => info,
            TypeToken::Colon(info) => info,
            TypeToken::Semicolon(info) => info,
            TypeToken::Comma(info) => info,
            TypeToken::AddOp(info) => info,
            TypeToken::ArrowOp(info) => info,
            TypeToken::Spread(info) => info,
            TypeToken::OpenCurly(info) => info,
            TypeToken::ClosedCurly(info) => info,
            TypeToken::OpenParen(info) => info,
            TypeToken::ClosedParen(info) => info,
            TypeToken::OpenAngle(info) => info,
            TypeToken::ClosedAngle(info) => info,
            TypeToken::OpenCaret(info) => info,
            TypeToken::ClosedCaret(info) => info,
            TypeToken::Symbol(info) => info,
            TypeToken::Whitespace => unreached(),
        }
    }

    pub fn is_keyword(&self) -> (r: bool)
        ensures
            r == (*self is TypeKeyword || *self is VoidKeyword || *self is StaticKeyword),
    {
        match self {
            TypeToken::TypeKeyword(_) | TypeToken::VoidKeyword(_) | TypeToken::StaticKeyword(
                _,
            ) => true,
            _ => false,
        }
    }

    pub fn is_op(&self) -> (r: bool)
        ensures
            r == (*self is AddOp || *self is Spread),
    {
        match self {
            TypeToken::AddOp(_) | TypeToken::Spread(_) => true,
            _ => false,
        }
    }

    /// The text that the token shows as: what it reads in the source, or a
    /// placeholder for whitespace.
    pub fn to_text(&self) -> (r: String)
        ensures
            r@ == (match self.info_of() {
                Some(info) => info.source@,
                None => "<whitespace>"@,
            }),
    {
        match self {
            TypeToken::Whitespace => "<whitespace>".to_owned(),
            _ => self.get_info().source.clone(),
        }
    }

    /// The token of the given kind that carries `info`; a scope operator
    /// has no token in this vocabulary and whitespace carries nothing.
    fn of_kind(kind: StTokenKind, info: StTokenInfo) -> (r: TypeToken)
        requires
            kind != StTokenKind::ScopeOp,
        ensures
            r.kind_of() == kind,
            kind != StTokenKind::Whitespace ==> r.info_of() == Some(info),
    {
        match kind {
            StTokenKind::TypeKeyword => TypeToken::TypeKeyword(info),
            StTokenKind::VoidKeyword => TypeToken::VoidKeyword(info),
            StTokenKind::StaticKeyword => TypeToken::StaticKeyword(info),
            StTokenKind::Colon => TypeToken::Colon(info),
            StTokenKind::Semicolon => TypeToken::Semicolon(info),
            StTokenKind::Comma => TypeToken::Comma(info),
            StTokenKind::AddOp => TypeToken::AddOp(info),
            StTokenKind::ArrowOp => TypeToken::ArrowOp(info),
            StTokenKind::Spread => TypeToken::Spread(info),
            StTokenKind::OpenCurly => TypeToken::OpenCurly(info),
            StTokenKind::ClosedCurly => TypeToken::ClosedCurly(info),
            StTokenKind::OpenParen => TypeToken::OpenParen(info),
            StTokenKind::ClosedParen => TypeToken::ClosedParen(info),
            StTokenKind::OpenAngle => TypeToken::OpenAngle(info),
            StTokenKind::ClosedAngle => TypeToken::ClosedAngle(info),
            StTokenKind::OpenCaret => TypeToken::OpenCaret(info),
            StTokenKind::ClosedCaret => TypeToken::ClosedCaret(info),
            StTokenKind::Symbol => TypeToken::Symbol(info),
            StTokenKind::ScopeOp => unreached(),
            StTokenKind::Whitespace => TypeToken::Whitespace,
        }
    }
}

impl View for TypeToken {
    type V = TokenModel;

    open spec fn view(&self) -> TokenModel {
        match self.info_of() {
            Some(info) => TokenModel {
                kind: self.kind_of(),
                start: info.span.start as int,
                end: info.span.end as int,
                text: info.source@,
                index: info.index as int,
            },
            None => TokenModel {
                kind: self.kind_of(),
                start: 0,
                end: 0,
                text: Seq::empty(),
                index: -1,
            },
        }
    }
}

/// The models of a list of tokens.
pub open spec fn type_tokens_model(tokens: Seq<TypeToken>) -> Seq<TokenModel> {
    Seq::new(tokens.len(), |i: int| tokens[i]@)
}

/// The number that a token gets at place `place` of a list: the place
/// itself, cut to the 32 bits of the number.
pub open spec fn index_at(place: int) -> int {
    ((place as usize) as i32) as int
}

/// Where the first colon of a scope operator ends and the second starts:
/// after the first byte.
pub open spec fn middle_of(token: TokenModel) -> int {
    if token.start < token.end {
        token.start + 1
    } else {
        token.start
    }
}

/// The token with the number of its place; whitespace carries no number.
pub open spec fn numbered(token: TokenModel, place: int) -> TokenModel {
    if token.kind == StTokenKind::Whitespace {
        token
    } else {
        TokenModel { index: index_at(place), ..token }
    }
}

/// A colon that covers the bytes from `start` up to `end`.
pub open spec fn colon_at(start: int, end: int, place: int) -> TokenModel {
    TokenModel { kind: StTokenKind::Colon, start, end, text: ":"@, index: index_at(place) }
}

/// The tokens of the vocabulary without scoped names that stand for
/// `tokens`: every scope operator becomes two colons, and every token has
/// the number of its place.
pub open spec fn unscoped(tokens: Seq<TokenModel>) -> Seq<TokenModel>
    decreases tokens.len(),
{
    if tokens.len() == 0 {
        Seq::empty()
    } else {
        let before = unscoped(tokens.drop_last());
        let last = tokens.last();
        if last.kind == StTokenKind::ScopeOp {
            before.push(colon_at(last.start, middle_of(last), before.len() as int)).push(
                colon_at(middle_of(last), last.end, before.len() as int + 1),
            )
        } else {
            before.push(numbered(last, before.len() as int))
        }
    }
}

/// The tokens of `source` in the vocabulary without scoped names, each with
/// the number of its place.
#[verifier::rlimit(50)]
pub fn lex_type_program(source: &str) -> (r: Result<Vec<TypeToken>, CompileError>)
    ensures
        match r {
            Ok(tokens) => scan(source@, 0) matches Some(scoped) && type_tokens_model(tokens@)
                == unscoped(scoped),
            Err(e) => scan(source@, 0) is None,
        },
{
    let scoped = match lex_source(source) {
        Some(tokens) => tokens,
        None => {
            return Err(CompileError::LexError);
        },
    };
    let ghost all = tokens_model(scoped@);
    let mut out: Vec<TypeToken> = Vec::new();
    let mut i: usize = 0;
    while i < scoped.len()
        invariant
            i <= scoped@.len(),
            all == tokens_model(scoped@),
            type_tokens_model(out@) == unscoped(all.subrange(0, i as int)),
        decreases scoped@.len() - i,
    {
        let ghost before = type_tokens_model(out@);
        proof {
            let next = all.subrange(0, i + 1);
            assert(next.drop_last() == all.subrange(0, i as int));
            assert(next.last() == scoped@[i as int]@);
        }
        let token = &scoped[i];
        match token {
            StToken::Whitespace => {
                out.push(TypeToken::Whitespace);
                proof {
                    assert(type_tokens_model(out@) =~= before.push(
                        numbered(token@, before.len() as int),
                    ));
                }
            },
            StToken::ScopeOp(info) => {
                let start = info.span.start;
                let end = info.span.end;
                let middle = if start < end {
                    start + 1
                } else {
                    start
                };
                let first = out.len();
                out.push(
                    TypeToken::Colon(
                        StTokenInfo::new(start..middle, ":".to_owned(), #[verifier::truncate] (first as i32)),
                    ),
                );
                let second = out.len();
                out.push(
                    TypeToken::Colon(
                        StTokenInfo::new(middle..end, ":".to_owned(), #[verifier::truncate] (second as i32)),
                    ),
                );
                proof {
                    assert(type_tokens_model(out@) =~= before.push(
                        colon_at(token@.start, middle_of(token@), before.len() as int),
                    ).push(colon_at(middle_of(token@), token@.end, before.len() as int + 1)));
                }
            },
            _ => {
                let info = token.get_info();
                let place = out.len();
                let copy = StTokenInfo::new(
                    info.span.start..info.span.end,
                    info.source.clone(),
                    #[verifier::truncate] (place as i32),
                );
                out.push(TypeToken::of_kind(token.kind(), copy));
                proof {
                    assert(type_tokens_model(out@) =~= before.push(
                        numbered(token@, before.len() as int),
                    ));
                }
            },
        }
        i = i + 1;
    }
    proof {
        assert(all.subrange(0, scoped@.len() as int) == all);
    }
    Ok(out)
}

} // verus!
