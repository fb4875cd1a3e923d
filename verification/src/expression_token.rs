use crate::lexer::{ascii_len, is_letter, is_space, lemma_word_end_bounds, word_end};
use crate::program_equivalent::ProgramEquivalent;
use std::ops::Range;
use vstd::prelude::*;
use vstd::string::*;

verus! {

broadcast use {vstd::string::is_ascii_spec_bytes, vstd::utf8::is_ascii_chars_nat_bound};

/// A token of an expression.
#[derive(Debug, PartialEq)]
pub enum ExpressionToken {
    OpenParen(ExpressionTokenInfo),
    ClosedParen(ExpressionTokenInfo),
    OpenAngle(ExpressionTokenInfo),
    ClosedAngle(ExpressionTokenInfo),
    DotOp(ExpressionTokenInfo),
    Symbol(ExpressionTokenInfo),
    AddOp(ExpressionTokenInfo),
    MinusOp(ExpressionTokenInfo),
    MulOp(ExpressionTokenInfo),
    DivOp(ExpressionTokenInfo),
    Whitespace(ExpressionTokenInfo),
}

/// The kind of a token of an expression, without what it carries.
#[derive(Debug, Clone, Copy, PartialEq, Eq, Structural)]
pub enum ExpressionTokenDiscriminants {
    OpenParen,
    ClosedParen,
    OpenAngle,
    ClosedAngle,
    DotOp,
    Symbol,
    AddOp,
    MinusOp,
    MulOp,
    DivOp,
    Whitespace,
}

/// Where a token stands in the source, what it reads, and its number in the
/// token list (-1 while it has none).
#[derive(Debug, PartialEq)]
pub struct ExpressionTokenInfo {
    pub span: Range<usize>,
    pub source: String,
    pub index: i32,
}

/// Model of a token of an expression.
pub ghost struct ExpressionTokenModel {
    pub kind: ExpressionTokenDiscriminants,
    pub start: int,
    pub end: int,
    pub text: Seq<char>,
    pub index: int,
}

/// What carries the information of a token.
pub trait ExpressionTokenImpl {
    /// The information that `self` carries.
    spec fn info_of(&self) -> ExpressionTokenInfo;

    fn get_token_info(&self) -> (r: &ExpressionTokenInfo)
        ensures
            *r == self.info_of(),
    ;
}

impl ExpressionTokenInfo {
    pub fn new(span: Range<usize>, source: String, index: i32) -> (r: ExpressionTokenInfo)
        ensures
            r == (ExpressionTokenInfo { span, source, index }),
    {
        ExpressionTokenInfo { span, source, index }
    }
}

impl Clone for ExpressionTokenInfo {
    fn clone(&self) -> (r: ExpressionTokenInfo)
        ensures
            r == *self,
    {
        ExpressionTokenInfo {
            span: self.span.start..self.span.end,
            source: self.source.clone(),
            index: self.index,
        }
    }
}

impl ExpressionTokenImpl for ExpressionTokenInfo {
    open spec fn info_of(&self) -> ExpressionTokenInfo {
        *self
    }

    fn get_token_info(&self) -> (r: &ExpressionTokenInfo) {
        self
    }
}

impl ExpressionTokenImpl for ExpressionToken {
    open spec fn info_of(&self) -> ExpressionTokenInfo {
        match self {
            ExpressionToken::OpenParen(info) => *info,
            ExpressionToken::ClosedParen(info) => *info,
            ExpressionToken::OpenAngle(info) => *info,
            ExpressionToken::ClosedAngle(info) => *info,
            ExpressionToken::DotOp(info) => *info,
            ExpressionToken::Symbol(info) => *info,
            ExpressionToken::AddOp(info) => *info,
            ExpressionToken::MinusOp(info) => *info,
            ExpressionToken::MulOp(info) => *info,
            ExpressionToken::DivOp(info) => *info,
            ExpressionToken::Whitespace(info) => *info,
        }
    }

    fn get_token_info(&self) -> (r: &ExpressionTokenInfo) {
        match self {
            ExpressionToken::OpenParen(info) => info,
            ExpressionToken::ClosedParen(info) => info,
            ExpressionToken::OpenAngle(info) => info,
            ExpressionToken::ClosedAngle(info) => info,
            ExpressionToken::DotOp(info) => info,
            ExpressionToken::Symbol(info) => info,
            ExpressionToken::AddOp(info) => info,
            ExpressionToken::MinusOp(info) => info,
            ExpressionToken::MulOp(info) => info,
            ExpressionToken::DivOp(info) => info,
            ExpressionToken::Whitespace(info) => info,
        }
    }
}

impl ExpressionToken {
    /// The kind of the token.
    pub open spec fn kind_of(self) -> ExpressionTokenDiscriminants {
        match self {
            ExpressionToken::OpenParen(_) => ExpressionTokenDiscriminants::OpenParen,
            ExpressionToken::ClosedParen(_) => ExpressionTokenDiscriminants::ClosedParen,
            ExpressionToken::OpenAngle(_) => ExpressionTokenDiscriminants::OpenAngle,
            ExpressionToken::ClosedAngle(_) => ExpressionTokenDiscriminants::ClosedAngle,
            ExpressionToken::DotOp(_) => ExpressionTokenDiscriminants::DotOp,
            ExpressionToken::Symbol(_) => ExpressionTokenDiscriminants::Symbol,
            ExpressionToken::AddOp(_) => ExpressionTokenDiscriminants::AddOp,
            ExpressionToken::MinusOp(_) => ExpressionTokenDiscriminants::MinusOp,
            ExpressionToken::MulOp(_) => ExpressionTokenDiscriminants::MulOp,
            ExpressionToken::DivOp(_) => ExpressionTokenDiscriminants::DivOp,
            ExpressionToken::Whitespace(_) => ExpressionTokenDiscriminants::Whitespace,
        }
    }

    pub fn token_info(&self) -> (r: &ExpressionTokenInfo)
        ensures
            *r == self.info_of(),
    {
        self.get_token_info()
    }

    /// The kind of the token.
    pub fn discriminant(&self) -> (r: ExpressionTokenDiscriminants)
        ensures
            r == self.kind_of(),
    {
        match self {
            ExpressionToken::OpenParen(_) => ExpressionTokenDiscriminants::OpenParen,
            ExpressionToken::ClosedParen(_) => ExpressionTokenDiscriminants::ClosedParen,
            ExpressionToken::OpenAngle(_) => ExpressionTokenDiscriminants::OpenAngle,
            ExpressionToken::ClosedAngle(_) => ExpressionTokenDiscriminants::ClosedAngle,
            ExpressionToken::DotOp(_) => ExpressionTokenDiscriminants::DotOp,
            ExpressionToken::Symbol(_) => ExpressionTokenDiscriminants::Symbol,
            ExpressionToken::AddOp(_) => ExpressionTokenDiscriminants::AddOp,
            ExpressionToken::MinusOp(_) => ExpressionTokenDiscriminants::MinusOp,
            ExpressionToken::MulOp(_) => ExpressionTokenDiscriminants::MulOp,
            ExpressionToken::DivOp(_) => ExpressionTokenDiscriminants::DivOp,
            ExpressionToken::Whitespace(_) => ExpressionTokenDiscriminants::Whitespace,
        }
    }

    /// The token of the given kind that carries `info`.
    pub fn of_kind(kind: ExpressionTokenDiscriminants, info: ExpressionTokenInfo) -> (r:
        ExpressionToken)
        ensures
            r.kind_of() == kind,
            r.info_of() == info,
    {
        match kind {
            ExpressionTokenDiscriminants::OpenParen => ExpressionToken::OpenParen(info),
            ExpressionTokenDiscriminants::ClosedParen => ExpressionToken::ClosedParen(info),
            ExpressionTokenDiscriminants::OpenAngle => ExpressionToken::OpenAngle(info),
            ExpressionTokenDiscriminants::ClosedAngle => ExpressionToken::ClosedAngle(info),
            ExpressionTokenDiscriminants::DotOp => ExpressionToken::DotOp(info),
            ExpressionTokenDiscriminants::Symbol => ExpressionToken::Symbol(info),
            ExpressionTokenDiscriminants::AddOp => ExpressionToken::AddOp(info),
            ExpressionTokenDiscriminants::MinusOp => ExpressionToken::MinusOp(info),
            ExpressionTokenDiscriminants::MulOp => ExpressionToken::MulOp(info),
            ExpressionTokenDiscriminants::DivOp => ExpressionToken::DivOp(info),
            ExpressionTokenDiscriminants::Whitespace => ExpressionToken::Whitespace(info),
        }
    }
}

impl Clone for ExpressionToken {
    fn clone(&self) -> (r: ExpressionToken)
        ensures
            r == *self,
    {
        match self {
            ExpressionToken::OpenParen(info) => ExpressionToken::OpenParen(info.clone()),
            ExpressionToken::ClosedParen(info) => ExpressionToken::ClosedParen(info.clone()),
            ExpressionToken::OpenAngle(info) => ExpressionToken::OpenAngle(info.clone()),
            ExpressionToken::ClosedAngle(info) => ExpressionToken::ClosedAngle(info.clone()),
            ExpressionToken::DotOp(info) => ExpressionToken::DotOp(info.clone()),
            ExpressionToken::Symbol(info) => ExpressionToken::Symbol(info.clone()),
            ExpressionToken::AddOp(info) => ExpressionToken::AddOp(info.clone()),
            ExpressionToken::MinusOp(info) => ExpressionToken::MinusOp(info.clone()),
            ExpressionToken::MulOp(info) => ExpressionToken::MulOp(info.clone()),
            ExpressionToken::DivOp(info) => ExpressionToken::DivOp(info.clone()),
            ExpressionToken::Whitespace(info) => ExpressionToken::Whitespace(info.clone()),
        }
    }
}

impl View for ExpressionToken {
    type V = ExpressionTokenModel;

    open spec fn view(&self) -> ExpressionTokenModel {
        ExpressionTokenModel {
            kind: self.kind_of(),
            start: self.info_of().span.start as int,
            end: self.info_of().span.end as int,
            text: self.info_of().source@,
            index: self.info_of().index as int,
        }
    }
}

/// The models of a list of tokens.
pub open spec fn expression_tokens_model(tokens: Seq<ExpressionToken>) -> Seq<
    ExpressionTokenModel,
> {
    Seq::new(tokens.len(), |i: int| tokens[i]@)
}

impl ProgramEquivalent for ExpressionTokenInfo {
    /// Two pieces of token information are of the same shape if they read the same.
    open spec fn equivalent(&self, other: &Self) -> bool {
        self.source@ == other.source@
    }

    fn program_equivalent(&self, b: &Self) -> (r: bool) {
        self.source == b.source
    }
}

impl ProgramEquivalent for ExpressionToken {
    /// Two tokens are of the same shape if they are of one kind and read the same.
    open spec fn equivalent(&self, other: &Self) -> bool {
        self.kind_of() == other.kind_of() && self.info_of().source@ == other.info_of().source@
    }

    fn program_equivalent(&self, other: &Self) -> (r: bool) {
        self.discriminant() == other.discriminant() && self.get_token_info().program_equivalent(
            other.get_token_info(),
        )
    }
}

/// The token that starts at `pos`, as its kind and the position after it: a
/// word, or one of the signs of an expression. None starts at any other
/// character.
pub open spec fn expression_lexeme_at(s: Seq<char>, pos: int) -> Option<
    (ExpressionTokenDiscriminants, int),
>
    recommends
        0 <= pos < s.len(),
{
    let c = s[pos];
    if is_letter(c) {
        Some((ExpressionTokenDiscriminants::Symbol, word_end(s, pos + 1)))
    } else if c == '(' {
        Some((ExpressionTokenDiscriminants::OpenParen, pos + 1))
    } else if c == ')' {
        Some((ExpressionTokenDiscriminants::ClosedParen, pos + 1))
    } else if c == '[' {
        Some((ExpressionTokenDiscriminants::OpenAngle, pos + 1))
    } else if c == ']' {
        Some((ExpressionTokenDiscriminants::ClosedAngle, pos + 1))
    } else if c == '.' {
        Some((ExpressionTokenDiscriminants::DotOp, pos + 1))
    } else if c == '+' {
        Some((ExpressionTokenDiscriminants::AddOp, pos + 1))
    } else if c == '-' {
        Some((ExpressionTokenDiscriminants::MinusOp, pos + 1))
    } else if c == '*' {
        Some((ExpressionTokenDiscriminants::MulOp, pos + 1))
    } else if c == '\\' {
        Some((ExpressionTokenDiscriminants::DivOp, pos + 1))
    } else {
        None
    }
}

/// The token of kind `kind` that covers `s` from `start` to `end`.
pub open spec fn expression_lexeme_model(
    s: Seq<char>,
    kind: ExpressionTokenDiscriminants,
    start: int,
    end: int,
) -> ExpressionTokenModel {
    ExpressionTokenModel { kind, start, end, text: s.subrange(start, end), index: -1 }
}

/// The tokens of an expression from `pos` on: whitespace is skipped, and
/// there are none at all if a character that is no whitespace begins no
/// token. Positions count bytes, which for a source that has tokens are
/// characters too, since such a source is ASCII.
pub open spec fn expression_scan(s: Seq<char>, pos: int) -> Option<Seq<ExpressionTokenModel>>
    decreases s.len() - pos,
{
    if pos < 0 || pos >= s.len() {
        Some(Seq::empty())
    } else if is_space(s[pos]) {
        expression_scan(s, pos + 1)
    } else {
        match expression_lexeme_at(s, pos) {
            None => None,
            Some((kind, end)) => if end <= pos || end > s.len() {
                None
            } else {
                match expression_scan(s, end) {
                    Some(rest) => Some(seq![expression_lexeme_model(s, kind, pos, end)] + rest),
                    None => None,
                }
            },
        }
    }
}

/// Every token of an expression ends after it starts, within the source,
/// and covers ASCII only.
pub proof fn lemma_expression_lexeme_bounds(s: Seq<char>, pos: int)
    requires
        0 <= pos < s.len(),
    ensures
        expression_lexeme_at(s, pos) matches Some((kind, end)) ==> pos < end <= s.len()
            && forall|i: int| pos <= i < end ==> '\0' <= #[trigger] s[i] && s[i] <= '\u{7f}',
{
    lemma_word_end_bounds(s, pos + 1);
}

/// A source with a character beyond ASCII at or after `pos` has no tokens
/// from `pos` on.
pub proof fn lemma_expression_scan_rejects_non_ascii(s: Seq<char>, pos: int, bad: int)
    requires
        0 <= pos <= bad < s.len(),
        !('\0' <= s[bad] && s[bad] <= '\u{7f}'),
    ensures
        expression_scan(s, pos) is None,
    decreases s.len() - pos,
{
    if is_space(s[pos]) {
        lemma_expression_scan_rejects_non_ascii(s, pos + 1, bad);
    } else {
        lemma_expression_lexeme_bounds(s, pos);
        match expression_lexeme_at(s, pos) {
            None => {},
            Some((kind, end)) => {
                if bad < end {
                    assert('\0' <= s[bad] && s[bad] <= '\u{7f}');
                }
                lemma_expression_scan_rejects_non_ascii(s, end, bad);
            },
        }
    }
}

/// What came before `pos` put in front of what comes from `pos` on.
pub open spec fn expression_scan_after(
    done: Seq<ExpressionTokenModel>,
    s: Seq<char>,
    pos: int,
) -> Option<Seq<ExpressionTokenModel>> {
    match expression_scan(s, pos) {
        Some(rest) => Some(done + rest),
        None => None,
    }
}

fn is_space_sign(b: u8) -> (r: bool)
    ensures
        r == (b == 32 || b == 9 || b == 12 || b == 10),
{
    b == 32 || b == 9 || b == 12 || b == 10
}

fn is_word_start(b: u8) -> (r: bool)
    ensures
        r == ((97 <= b && b <= 122) || (65 <= b && b <= 90)),
{
    (97 <= b && b <= 122) || (65 <= b && b <= 90)
}

fn is_word_part(b: u8) -> (r: bool)
    ensures
        r == ((97 <= b && b <= 122) || (65 <= b && b <= 90) || (48 <= b && b <= 57)),
{
    is_word_start(b) || (48 <= b && b <= 57)
}

/// The kind of the token that starts at `pos` and where it ends.
#[verifier::rlimit(50)]
fn expression_lexeme(source: &str, pos: usize) -> (r: Option<
    (ExpressionTokenDiscriminants, usize),
>)
    requires
        source.is_ascii(),
        pos < source@.len(),
    ensures
        match r {
            Some((kind, end)) => expression_lexeme_at(source@, pos as int) == Some(
                (kind, end as int),
            ) && pos < end <= source@.len(),
            None => expression_lexeme_at(source@, pos as int) is None,
        },
{
    let n = ascii_len(source);
    let b = source.get_ascii(pos);
    proof {
        lemma_expression_lexeme_bounds(source@, pos as int);
    }
    if is_word_start(b) {
        let mut end = pos + 1;
        while end < n && is_word_part(source.get_ascii(end))
            invariant
                source.is_ascii(),
                n == source@.len(),
                pos < end <= n,
                word_end(source@, pos + 1) == word_end(source@, end as int),
            decreases n - end,
        {
            end = end + 1;
        }
        Some((ExpressionTokenDiscriminants::Symbol, end))
    } else if b == 40 {
        Some((ExpressionTokenDiscriminants::OpenParen, pos + 1))
    } else if b == 41 {
        Some((ExpressionTokenDiscriminants::ClosedParen, pos + 1))
    } else if b == 91 {
        Some((ExpressionTokenDiscriminants::OpenAngle, pos + 1))
    } else if b == 93 {
        Some((ExpressionTokenDiscriminants::ClosedAngle, pos + 1))
    } else if b == 46 {
        Some((ExpressionTokenDiscriminants::DotOp, pos + 1))
    } else if b == 43 {
        Some((ExpressionTokenDiscriminants::AddOp, pos + 1))
    } else if b == 45 {
        Some((ExpressionTokenDiscriminants::MinusOp, pos + 1))
    } else if b == 42 {
        Some((ExpressionTokenDiscriminants::MulOp, pos + 1))
    } else if b == 92 {
        Some((ExpressionTokenDiscriminants::DivOp, pos + 1))
    } else {
        None
    }
}

/// The tokens of the expression `source`, without its whitespace, or a
/// failure if some character that is no whitespace begins no token.
#[verifier::rlimit(50)]
pub fn lex_expression(source: &str) -> (r: Result<Vec<ExpressionToken>, ()>)
    ensures
        match r {
            Ok(tokens) => expression_scan(source@, 0) == Some(expression_tokens_model(tokens@)),
            Err(_) => expression_scan(source@, 0) is None,
        },
{
    if !source.is_ascii() {
        proof {
            let bad = choose|i: int|
                0 <= i < source@.len() && !('\0' <= #[trigger] source@[i] && source@[i]
                    <= '\u{7f}');
            lemma_expression_scan_rejects_non_ascii(source@, 0, bad);
        }
        return Err(());
    }
    let n = ascii_len(source);
    let mut tokens: Vec<ExpressionToken> = Vec::new();
    let mut pos: usize = 0;
    proof {
        assert(expression_tokens_model(tokens@) =~= Seq::<ExpressionTokenModel>::empty());
        match expression_scan(source@, 0) {
            Some(rest) => {
                assert(Seq::<ExpressionTokenModel>::empty() + rest == rest);
            },
            None => {},
        }
    }
    while pos < n
        invariant
            source.is_ascii(),
            n == source@.len(),
            pos <= n,
            expression_scan(source@, 0) == expression_scan_after(
                expression_tokens_model(tokens@),
                source@,
                pos as int,
            ),
        decreases n - pos,
    {
        let b = source.get_ascii(pos);
        if is_space_sign(b) {
            pos = pos + 1;
        } else {
            match expression_lexeme(source, pos) {
                None => {
                    return Err(());
                },
                Some((kind, end)) => {
                    let ghost before = expression_tokens_model(tokens@);
                    let text = source.substring_ascii(pos, end).to_owned();
                    let token = ExpressionToken::of_kind(
                        kind,
                        ExpressionTokenInfo::new(pos..end, text, -1),
                    );
                    proof {
                        assert(token@ == expression_lexeme_model(
                            source@,
                            kind,
                            pos as int,
                            end as int,
                        ));
                    }
                    tokens.push(token);
                    proof {
                        assert(expression_tokens_model(tokens@) == before + seq![token@]);
                        match expression_scan(source@, end as int) {
                            Some(rest) => {
                                assert(before + (seq![token@] + rest) == (before + seq![token@])
                                    + rest);
                            },
                            None => {},
                        }
                    }
                    pos = end;
                },
            }
        }
    }
    proof {
        assert(expression_tokens_model(tokens@) + Seq::<ExpressionTokenModel>::empty()
            == expression_tokens_model(tokens@));
    }
    Ok(tokens)
}

} // verus!
