use std::ops::Range;
use vstd::prelude::*;

verus! {

/// Where a token stands in the source, what it reads, and its number in the
/// token list (-1 while it has none).
#[derive(Debug, PartialEq)]
pub struct StTokenInfo {
    pub span: Range<usize>,
    pub source: String,
    pub index: i32,
}

/// A token of a type program.
#[derive(Debug, PartialEq)]
pub enum StToken {
    // Keywords
    TypeKeyword(StTokenInfo),
    VoidKeyword(StTokenInfo),
    StaticKeyword(StTokenInfo),
    // Symbols
    ScopeOp(StTokenInfo),
    Colon(StTokenInfo),
    Semicolon(StTokenInfo),
    Comma(StTokenInfo),
    AddOp(StTokenInfo),
    ArrowOp(StTokenInfo),
    Spread(StTokenInfo),
    // Brackets
    OpenCurly(StTokenInfo),
    ClosedCurly(StTokenInfo),
    OpenParen(StTokenInfo),
    ClosedParen(StTokenInfo),
    OpenAngle(StTokenInfo),
    ClosedAngle(StTokenInfo),
    OpenCaret(StTokenInfo),
    ClosedCaret(StTokenInfo),
    // Symbol
    Symbol(StTokenInfo),
    // Whitespace
    Whitespace,
}

/// The kind of a token, without what it carries.
#[derive(Debug, Clone, Copy, PartialEq, Eq, Structural)]
pub enum StTokenKind {
    TypeKeyword,
    VoidKeyword,
    StaticKeyword,
    ScopeOp,
    Colon,
    Semicolon,
    Comma,
    AddOp,
    ArrowOp,
    Spread,
    OpenCurly,
    ClosedCurly,
    OpenParen,
    ClosedParen,
    OpenAngle,
    ClosedAngle,
    OpenCaret,
    ClosedCaret,
    Symbol,
    Whitespace,
}

/// Model of a token: its kind, the byte range it covers, its text and its
/// number in the token list.
pub ghost struct TokenModel {
    pub kind: StTokenKind,
    pub start: int,
    pub end: int,
    pub text: Seq<char>,
    pub index: int,
}

impl Clone for StTokenInfo {
    fn clone(&self) -> (r: StTokenInfo)
        ensures
            r == *self,
    {
        StTokenInfo {
            span: self.span.start..self.span.end,
            source: self.source.clone(),
            index: self.index,
        }
    }
}

/// What carries the information of a token.
pub trait TokenInfoImpl {
    /// The information that `self` carries.
    spec fn token_info_of(&self) -> StTokenInfo;

    fn get_token_info(&self) -> (r: &StTokenInfo)
        ensures
            *r == self.token_info_of(),
    ;
}

impl TokenInfoImpl for StTokenInfo {
    open spec fn token_info_of(&self) -> StTokenInfo {
        *self
    }

    fn get_token_info(&self) -> (r: &StTokenInfo) {
        self
    }
}

impl StTokenInfo {
    pub fn new(span: Range<usize>, source: String, index: i32) -> (r: StTokenInfo)
        ensures
            r == (StTokenInfo { span, source, index }),
    {
        StTokenInfo { span, source, index }
    }
}

impl StToken {
    /// The kind of the token.
    pub open spec fn kind_of(self) -> StTokenKind {
        match self {
            StToken::TypeKeyword(_) => StTokenKind::TypeKeyword,
            StToken::VoidKeyword(_) => StTokenKind::VoidKeyword,
            StToken::StaticKeyword(_) => StTokenKind::StaticKeyword,
            StToken::ScopeOp(_) => StTokenKind::ScopeOp,
            StToken::Colon(_) => StTokenKind::Colon,
            StToken::Semicolon(_) => StTokenKind::Semicolon,
            StToken::Comma(_) => StTokenKind::Comma,
            StToken::AddOp(_) => StTokenKind::AddOp,
            StToken::ArrowOp(_) => StTokenKind::ArrowOp,
            StToken::Spread(_) => StTokenKind::Spread,
            StToken::OpenCurly(_) => StTokenKind::OpenCurly,
            StToken::ClosedCurly(_) => StTokenKind::ClosedCurly,
            StToken::OpenParen(_) => StTokenKind::OpenParen,
            StToken::ClosedParen(_) => StTokenKind::ClosedParen,
            StToken::OpenAngle(_) => StTokenKind::OpenAngle,
            StToken::ClosedAngle(_) => StTokenKind::ClosedAngle,
            StToken::OpenCaret(_) => StTokenKind::OpenCaret,
            StToken::ClosedCaret(_) => StTokenKind::ClosedCaret,
            StToken::Symbol(_) => StTokenKind::Symbol,
            StToken::Whitespace => StTokenKind::Whitespace,
        }
    }

    /// What the token carries; whitespace carries nothing.
    pub open spec fn info_of(self) -> Option<StTokenInfo> {
        match self {
            StToken::TypeKeyword(info) => Some(info),
            StToken::VoidKeyword(info) => Some(info),
            StToken::StaticKeyword(info) => Some(info),
            StToken::ScopeOp(info) => Some(info),
            StToken::Colon(info) => Some(info),
            StToken::Semicolon(info) => Some(info),
            StToken::Comma(info) => Some(info),
            StToken::AddOp(info) => Some(info),
            StToken::ArrowOp(info) => Some(info),
            StToken::Spread(info) => Some(info),
            StToken::OpenCurly(info) => Some(info),
            StToken::ClosedCurly(info) => Some(info),
            StToken::OpenParen(info) => Some(info),
            StToken::ClosedParen(info) => Some(info),
            StToken::OpenAngle(info) => Some(info),
            StToken::ClosedAngle(info) => Some(info),
            StToken::OpenCaret(info) => Some(info),
            StToken::ClosedCaret(info) => Some(info),
            StToken::Symbol(info) => Some(info),
            StToken::Whitespace => None,
        }
    }

    /// The token of the given kind that carries `info`.
    pub fn of_kind(kind: StTokenKind, info: StTokenInfo) -> (r: StToken)
        ensures
            r.kind_of() == kind,
            kind != StTokenKind::Whitespace ==> r.info_of() == Some(info),
    {
        match kind {
            StTokenKind::TypeKeyword => StToken::TypeKeyword(info),
            StTokenKind::VoidKeyword => StToken::VoidKeyword(info),
            StTokenKind::StaticKeyword => StToken::StaticKeyword(info),
            StTokenKind::ScopeOp => StToken::ScopeOp(info),
            StTokenKind::Colon => StToken::Colon(info),
            StTokenKind::Semicolon => StToken::Semicolon(info),
            StTokenKind::Comma => StToken::Comma(info),
            StTokenKind::AddOp => StToken::AddOp(info),
            StTokenKind::ArrowOp => StToken::ArrowOp(info),
            StTokenKind::Spread => StToken::Spread(info),
            StTokenKind::OpenCurly => StToken::OpenCurly(info),
            StTokenKind::ClosedCurly => StToken::ClosedCurly(info),
            StTokenKind::OpenParen => StToken::OpenParen(info),
            StTokenKind::ClosedParen => StToken::ClosedParen(info),
            StTokenKind::OpenAngle => StToken::OpenAngle(info),
            StTokenKind::ClosedAngle => StToken::ClosedAngle(info),
            StTokenKind::OpenCaret => StToken::OpenCaret(info),
            StTokenKind::ClosedCaret => StToken::ClosedCaret(info),
            StTokenKind::Symbol => StToken::Symbol(info),
            StTokenKind::Whitespace => StToken::Whitespace,
        }
    }

    /// The kind of the token.
    pub fn kind(&self) -> (r: StTokenKind)
        ensures
            r == self.kind_of(),
    {
        match self {
            StToken::TypeKeyword(_) => StTokenKind::TypeKeyword,
            StToken::VoidKeyword(_) => StTokenKind::VoidKeyword,
            StToken::StaticKeyword(_) => StTokenKind::StaticKeyword,
            StToken::ScopeOp(_) => StTokenKind::ScopeOp,
            StToken::Colon(_) => StTokenKind::Colon,
            StToken::Semicolon(_) => StTokenKind::Semicolon,
            StToken::Comma(_) => StTokenKind::Comma,
            StToken::AddOp(_) => StTokenKind::AddOp,
            StToken::ArrowOp(_) => StTokenKind::ArrowOp,
            StToken::Spread(_) => StTokenKind::Spread,
            StToken::OpenCurly(_) => StTokenKind::OpenCurly,
            StToken::ClosedCurly(_) => StTokenKind::ClosedCurly,
            StToken::OpenParen(_) => StTokenKind::OpenParen,
            StToken::ClosedParen(_) => StTokenKind::ClosedParen,
            StToken::OpenAngle(_) => StTokenKind::OpenAngle,
            StToken::ClosedAngle(_) => StTokenKind::ClosedAngle,
            StToken::OpenCaret(_) => StTokenKind::OpenCaret,
            StToken::ClosedCaret(_) => StTokenKind::ClosedCaret,
            StToken::Symbol(_) => StTokenKind::Symbol,
            StToken::Whitespace => StTokenKind::Whitespace,
        }
    }

    pub fn get_info_mut(&mut self) -> (r: &mut StTokenInfo)
        requires
            !(*old(self) is Whitespace),
        ensures
            Some(*r) == old(self).info_of(),
            final(self).kind_of() == old(self).kind_of(),
            final(self).info_of() == Some(*final(r)),
    {
        match self {
            StToken::TypeKeyword(info) => info,
            StToken::VoidKeyword(info) => info,
            StToken::StaticKeyword(info) => info,
            StToken::ScopeOp(info) => info,
            StToken::Colon(info) => info,
            StToken::Semicolon(info) => info,
            StToken::Comma(info) => info,
            StToken::AddOp(info) => info,
            StToken::ArrowOp(info) => info,
            StToken::Spread(info) => info,
            StToken::OpenCurly(info) => info,
            StToken::ClosedCurly(info) => info,
            StToken::OpenParen(info) => info,
            StToken::ClosedParen(info) => info,
            StToken::OpenAngle(info) => info,
            StToken::ClosedAngle(info) => info,
            StToken::OpenCaret(info) => info,
            StToken::ClosedCaret(info) => info,
            StToken::Symbol(info) => info,
            StToken::Whitespace => unreached(),
        }
    }

    pub fn get_info(&self) -> (r: &StTokenInfo)
        requires
            !(*self is Whitespace),
        ensures
            Some(*r) == self.info_of(),
    {
        match self {
            StToken::TypeKeyword(info) => info,
            StToken::VoidKeyword(info) => info,
            StToken::StaticKeyword(info) => info,
            StToken::ScopeOp(info) => info,
            StToken::Colon(info) => info,
            StToken::Semicolon(info) => info,
            StToken::Comma(info) => info,
            StToken::AddOp(info) => info,
            StToken::ArrowOp(info) => info,
            StToken::Spread(info) => info,
            StToken::OpenCurly(info) => info,
            StToken::ClosedCurly(info) => info,
            StToken::OpenParen(info) => info,
            StToken::ClosedParen(info) => info,
            StToken::OpenAngle(info) => info,
            StToken::ClosedAngle(info) => info,
            StToken::OpenCaret(info) => info,
            StToken::ClosedCaret(info) => info,
            StToken::Symbol(info) => info,
            StToken::Whitespace => unreached(),
        }
    }

    pub fn is_keyword(&self) -> (r: bool)
        ensures
            r == (*self is TypeKeyword || *self is VoidKeyword || *self is StaticKeyword),
    {
        match self {
            StToken::TypeKeyword(_) | StToken::VoidKeyword(_) | StToken::StaticKeyword(_) => true,
            _ => false,
        }
    }

    pub fn is_op(&self) -> (r: bool)
        ensures
            r == (*self is AddOp || *self is Spread),
    {
        match self {
            StToken::AddOp(_) | StToken::Spread(_) => true,
            _ => false,
        }
    }

    /// The byte at which the token starts; 0 for whitespace.
    pub fn start(&self) -> (r: usize)
        ensures
            r == self@.start,
    {
        match self {
            StToken::Whitespace => 0,
            _ => self.get_info().span.start,
        }
    }

    /// The byte before which the token ends; 0 for whitespace.
    pub fn end(&self) -> (r: usize)
        ensures
            r == self@.end,
    {
        match self {
            StToken::Whitespace => 0,
            _ => self.get_info().span.end,
        }
    }

    /// The text that the token shows as: what it reads in the source, or a
    /// placeholder for whitespace.
    pub fn to_text(&self) -> (r: String)
        ensures
            r@ == (match self.info_of() {
                Some(info) => info.source@,
                None => "<whitespace>"@,
            }),
    {
        match self {
            StToken::Whitespace => "<whitespace>".to_owned(),
            _ => self.get_info().source.clone(),
        }
    }
}

impl Clone for StToken {
    fn clone(&self) -> (r: StToken)
        ensures
            r == *self,
    {
        match self {
            StToken::TypeKeyword(info) => StToken::TypeKeyword(info.clone()),
            StToken::VoidKeyword(info) => StToken::VoidKeyword(info.clone()),
            StToken::StaticKeyword(info) => StToken::StaticKeyword(info.clone()),
            StToken::ScopeOp(info) => StToken::ScopeOp(info.clone()),
            StToken::Colon(info) => StToken::Colon(info.clone()),
            StToken::Semicolon(info) => StToken::Semicolon(info.clone()),
            StToken::Comma(info) => StToken::Comma(info.clone()),
            StToken::AddOp(info) => StToken::AddOp(info.clone()),
            StToken::ArrowOp(info) => StToken::ArrowOp(info.clone()),
            StToken::Spread(info) => StToken::Spread(info.clone()),
            StToken::OpenCurly(info) => StToken::OpenCurly(info.clone()),
            StToken::ClosedCurly(info) => StToken::ClosedCurly(info.clone()),
            StToken::OpenParen(info) => StToken::OpenParen(info.clone()),
            StToken::ClosedParen(info) => StToken::ClosedParen(info.clone()),
            StToken::OpenAngle(info) => StToken::OpenAngle(info.clone()),
            StToken::ClosedAngle(info) => StToken::ClosedAngle(info.clone()),
            StToken::OpenCaret(info) => StToken::OpenCaret(info.clone()),
            StToken::ClosedCaret(info) => StToken::ClosedCaret(info.clone()),
            StToken::Symbol(info) => StToken::Symbol(info.clone()),
            StToken::Whitespace => StToken::Whitespace,
        }
    }
}

impl View for StToken {
    type V = TokenModel;

    open spec fn view(&self) -> TokenModel {
        match self.info_of() {
            Some(info) => TokenModel {
                kind: self.kind_of(),
                start: info.span.start as int,
                end: info.span.end as int,
                text: info.source@,
                index: info.index as int,
            },
            None => TokenModel {
                kind: self.kind_of(),
                start: 0,
                end: 0,
                text: Seq::empty(),
                index: -1,
            },
        }
    }
}

/// The models of a list of tokens.
pub open spec fn tokens_model(tokens: Seq<StToken>) -> Seq<TokenModel> {
    Seq::new(tokens.len(), |i: int| tokens[i]@)
}

} // verus!
