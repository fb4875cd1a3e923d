use crate::st_token::{tokens_model, StToken, StTokenInfo, StTokenKind, TokenModel};
use vstd::prelude::*;
use vstd::string::*;

verus! {

broadcast use {vstd::string::is_ascii_spec_bytes, vstd::utf8::is_ascii_chars_nat_bound};

/// Blank, tab, form feed and line feed separate tokens.
pub open spec fn is_space(c: char) -> bool {
    c == ' ' || c == '\t' || c == '\x0c' || c == '\n'
}

pub open spec fn is_letter(c: char) -> bool {
    ('a' <= c && c <= 'z') || ('A' <= c && c <= 'Z')
}

pub open spec fn is_letter_or_digit(c: char) -> bool {
    is_letter(c) || ('0' <= c && c <= '9')
}

/// The first position from `pos` on that holds no letter and no digit.
pub open spec fn word_end(s: Seq<char>, pos: int) -> int
    decreases s.len() - pos,
{
    if 0 <= pos < s.len() && is_letter_or_digit(s[pos]) {
        word_end(s, pos + 1)
    } else {
        pos
    }
}

/// A word is a keyword if it reads as one, and a symbol otherwise.
pub open spec fn word_kind(text: Seq<char>) -> StTokenKind {
    if text == "type"@ {
        StTokenKind::TypeKeyword
    } else if text == "void"@ {
        StTokenKind::VoidKeyword
    } else if text == "static"@ {
        StTokenKind::StaticKeyword
    } else {
        StTokenKind::Symbol
    }
}

/// Whether `s` reads `c` at `pos`.
pub open spec fn reads(s: Seq<char>, pos: int, c: char) -> bool {
    0 <= pos < s.len() && s[pos] == c
}

/// The token that starts at `pos`, as its kind and the position after it:
/// the longest one that fits. None starts at a character that begins no token.
pub open spec fn lexeme_at(s: Seq<char>, pos: int) -> Option<(StTokenKind, int)>
    recommends
        0 <= pos < s.len(),
{
    let c = s[pos];
    if is_letter(c) {
        let end = word_end(s, pos + 1);
        Some((word_kind(s.subrange(pos, end)), end))
    } else if c == ':' {
        if reads(s, pos + 1, ':') {
            Some((StTokenKind::ScopeOp, pos + 2))
        } else {
            Some((StTokenKind::Colon, pos + 1))
        }
    } else if c == ';' {
        Some((StTokenKind::Semicolon, pos + 1))
    } else if c == ',' {
        Some((StTokenKind::Comma, pos + 1))
    } else if c == '+' {
        Some((StTokenKind::AddOp, pos + 1))
    } else if c == '=' {
        if reads(s, pos + 1, '>') {
            Some((StTokenKind::ArrowOp, pos + 2))
        } else {
            None
        }
    } else if c == '.' {
        if reads(s, pos + 1, '.') && reads(s, pos + 2, '.') {
            Some((StTokenKind::Spread, pos + 3))
        } else {
            None
        }
    } else if c == '{' {
        Some((StTokenKind::OpenCurly, pos + 1))
    } else if c == '}' {
        Some((StTokenKind::ClosedCurly, pos + 1))
    } else if c == '(' {
        Some((StTokenKind::OpenParen, pos + 1))
    } else if c == ')' {
        Some((StTokenKind::ClosedParen, pos + 1))
    } else if c == '[' {
        Some((StTokenKind::OpenAngle, pos + 1))
    } else if c == ']' {
        Some((StTokenKind::ClosedAngle, pos + 1))
    } else if c == '<' {
        Some((StTokenKind::OpenCaret, pos + 1))
    } else if c == '>' {
        Some((StTokenKind::ClosedCaret, pos + 1))
    } else {
        None
    }
}

/// The token of kind `kind` that covers `s` from `start` to `end`.
pub open spec fn lexeme_model(s: Seq<char>, kind: StTokenKind, start: int, end: int) -> TokenModel {
    TokenModel { kind, start, end, text: s.subrange(start, end), index: -1 }
}

/// The tokens of `s` from `pos` on: whitespace is skipped, every token is
/// the longest that fits, and there are none at all if a character begins no
/// token. Positions count bytes, which for a source that has tokens are
/// characters too, since such a source is ASCII.
pub open spec fn scan(s: Seq<char>, pos: int) -> Option<Seq<TokenModel>>
    decreases s.len() - pos,
{
    if pos < 0 || pos >= s.len() {
        Some(Seq::empty())
    } else if is_space(s[pos]) {
        scan(s, pos + 1)
    } else {
        match lexeme_at(s, pos) {
            None => None,
            Some((kind, end)) => if end <= pos || end > s.len() {
                None
            } else {
                match scan(s, end) {
                    Some(rest) => Some(seq![lexeme_model(s, kind, pos, end)] + rest),
                    None => None,
                }
            },
        }
    }
}

/// A word ends at or after the position it is looked for from, and within the source.
pub proof fn lemma_word_end_bounds(s: Seq<char>, pos: int)
    requires
        0 <= pos <= s.len(),
    ensures
        pos <= word_end(s, pos) <= s.len(),
        forall|i: int| pos <= i < word_end(s, pos) ==> is_letter_or_digit(#[trigger] s[i]),
        word_end(s, pos) < s.len() ==> !is_letter_or_digit(s[word_end(s, pos)]),
    decreases s.len() - pos,
{
    if pos < s.len() && is_letter_or_digit(s[pos]) {
        lemma_word_end_bounds(s, pos + 1);
    }
}

/// Every token ends after it starts, within the source, and covers ASCII only.
pub proof fn lemma_lexeme_bounds(s: Seq<char>, pos: int)
    requires
        0 <= pos < s.len(),
    ensures
        lexeme_at(s, pos) matches Some((kind, end)) ==> pos < end <= s.len() && forall|i: int|
            pos <= i < end ==> '\0' <= #[trigger] s[i] && s[i] <= '\u{7f}',
{
    lemma_word_end_bounds(s, pos + 1);
}

/// A source with a character beyond ASCII at or after `pos` has no tokens from `pos` on.
pub proof fn lemma_scan_rejects_non_ascii(s: Seq<char>, pos: int, bad: int)
    requires
        0 <= pos <= bad < s.len(),
        !('\0' <= s[bad] && s[bad] <= '\u{7f}'),
    ensures
        scan(s, pos) is None,
    decreases s.len() - pos,
{
    if is_space(s[pos]) {
        lemma_scan_rejects_non_ascii(s, pos + 1, bad);
    } else {
        lemma_lexeme_bounds(s, pos);
        match lexeme_at(s, pos) {
            None => {},
            Some((kind, end)) => {
                if bad < end {
                    assert('\0' <= s[bad] && s[bad] <= '\u{7f}');
                }
                lemma_scan_rejects_non_ascii(s, end, bad);
            },
        }
    }
}

/// What came before `pos` put in front of what comes from `pos` on.
pub open spec fn scan_after(done: Seq<TokenModel>, s: Seq<char>, pos: int) -> Option<
    Seq<TokenModel>,
> {
    match scan(s, pos) {
        Some(rest) => Some(done + rest),
        None => None,
    }
}

fn is_space_byte(b: u8) -> (r: bool)
    ensures
        r == (b == 32 || b == 9 || b == 12 || b == 10),
{
    b == 32 || b == 9 || b == 12 || b == 10
}

fn is_letter_byte(b: u8) -> (r: bool)
    ensures
        r == ((97 <= b && b <= 122) || (65 <= b && b <= 90)),
{
    (97 <= b && b <= 122) || (65 <= b && b <= 90)
}

fn is_digit_byte(b: u8) -> (r: bool)
    ensures
        r == (48 <= b && b <= 57),
{
    48 <= b && b <= 57
}

/// The length of an ASCII text, in bytes and in characters.
pub fn ascii_len(source: &str) -> (n: usize)
    requires
        source.is_ascii(),
    ensures
        n == source@.len(),
{
    let bytes = source.as_bytes();
    proof {
        is_ascii_spec_bytes(source);
        vstd::slice::axiom_spec_len(bytes);
    }
    bytes.len()
}

/// The kind of the word `text`.
fn kind_of_word(text: &String) -> (r: StTokenKind)
    ensures
        r == word_kind(text@),
{
    if *text == "type".to_owned() {
        StTokenKind::TypeKeyword
    } else if *text == "void".to_owned() {
        StTokenKind::VoidKeyword
    } else if *text == "static".to_owned() {
        StTokenKind::StaticKeyword
    } else {
        StTokenKind::Symbol
    }
}

/// The kind of the token that starts at `pos` and where it ends.
#[verifier::rlimit(50)]
fn lexeme(source: &str, pos: usize) -> (r: Option<(StTokenKind, usize)>)
    requires
        source.is_ascii(),
        pos < source@.len(),
    ensures
        match r {
            Some((kind, end)) => lexeme_at(source@, pos as int) == Some((kind, end as int))
                && pos < end <= source@.len(),
            None => lexeme_at(source@, pos as int) is None,
        },
{
    let n = ascii_len(source);
    let b = source.get_ascii(pos);
    proof {
        lemma_lexeme_bounds(source@, pos as int);
    }
    if is_letter_byte(b) {
        let mut end = pos + 1;
        while end < n && (is_letter_byte(source.get_ascii(end)) || is_digit_byte(
            source.get_ascii(end),
        ))
            invariant
                source.is_ascii(),
                n == source@.len(),
                pos < end <= n,
                word_end(source@, pos + 1) == word_end(source@, end as int),
            decreases n - end,
        {
            end = end + 1;
        }
        let text = source.substring_ascii(pos, end).to_owned();
        Some((kind_of_word(&text), end))
    } else if b == 58 {
        if pos + 1 < n && source.get_ascii(pos + 1) == 58 {
            Some((StTokenKind::ScopeOp, pos + 2))
        } else {
            Some((StTokenKind::Colon, pos + 1))
        }
    } else if b == 59 {
        Some((StTokenKind::Semicolon, pos + 1))
    } else if b == 44 {
        Some((StTokenKind::Comma, pos + 1))
    } else if b == 43 {
        Some((StTokenKind::AddOp, pos + 1))
    } else if b == 61 {
        if pos + 1 < n && source.get_ascii(pos + 1) == 62 {
            Some((StTokenKind::ArrowOp, pos + 2))
        } else {
            None
        }
    } else if b == 46 {
        if n - pos > 2 && source.get_ascii(pos + 1) == 46 && source.get_ascii(pos + 2) == 46 {
            Some((StTokenKind::Spread, pos + 3))
        } else {
            None
        }
    } else if b == 123 {
        Some((StTokenKind::OpenCurly, pos + 1))
    } else if b == 125 {
        Some((StTokenKind::ClosedCurly, pos + 1))
    } else if b == 40 {
        Some((StTokenKind::OpenParen, pos + 1))
    } else if b == 41 {
        Some((StTokenKind::ClosedParen, pos + 1))
    } else if b == 91 {
        Some((StTokenKind::OpenAngle, pos + 1))
    } else if b == 93 {
        Some((StTokenKind::ClosedAngle, pos + 1))
    } else if b == 60 {
        Some((StTokenKind::OpenCaret, pos + 1))
    } else if b == 62 {
        Some((StTokenKind::ClosedCaret, pos + 1))
    } else {
        None
    }
}

/// The tokens of `source`, or nothing if some character begins no token.
#[verifier::rlimit(50)]
pub fn lex_source(source: &str) -> (r: Option<Vec<StToken>>)
    ensures
        match r {
            Some(tokens) => scan(source@, 0) == Some(tokens_model(tokens@)),
            None => scan(source@, 0) is None,
        },
{
    if !source.is_ascii() {
        proof {
            let bad = choose|i: int|
                0 <= i < source@.len() && !('\0' <= #[trigger] source@[i] && source@[i]
                    <= '\u{7f}');
            lemma_scan_rejects_non_ascii(source@, 0, bad);
        }
        return None;
    }
    let n = ascii_len(source);
    let mut tokens: Vec<StToken> = Vec::new();
    let mut pos: usize = 0;
    while pos < n
        invariant
            source.is_ascii(),
            n == source@.len(),
            pos <= n,
            scan(source@, 0) == scan_after(tokens_model(tokens@), source@, pos as int),
        decreases n - pos,
    {
        let b = source.get_ascii(pos);
        if is_space_byte(b) {
            pos = pos + 1;
        } else {
            match lexeme(source, pos) {
                None => {
                    return None;
                },
                Some((kind, end)) => {
                    let ghost before = tokens_model(tokens@);
                    let text = source.substring_ascii(pos, end).to_owned();
                    let token = StToken::of_kind(kind, StTokenInfo::new(pos..end, text, -1));
                    proof {
                        lemma_lexeme_kinds(source@, pos as int);
                        assert(token@ == lexeme_model(source@, kind, pos as int, end as int));
                    }
                    tokens.push(token);
                    proof {
                        assert(tokens_model(tokens@) == before + seq![token@]);
                        match scan(source@, end as int) {
                            Some(rest) => {
                                assert(before + (seq![token@] + rest) == (before + seq![token@])
                                    + rest);
                            },
                            None => {},
                        }
                    }
                    pos = end;
                },
            }
        }
    }
    proof {
        assert(tokens_model(tokens@) + Seq::<TokenModel>::empty() == tokens_model(tokens@));
    }
    Some(tokens)
}

/// No token is whitespace.
pub proof fn lemma_lexeme_kinds(s: Seq<char>, pos: int)
    requires
        0 <= pos < s.len(),
    ensures
        lexeme_at(s, pos) matches Some((kind, end)) ==> kind != StTokenKind::Whitespace,
{
}


/// Whether the tokens `tokens` tile `s` from `pos` on: they stand in order,
/// only whitespace stands before, between and behind them, and each is the
/// longest token that starts where it starts and reads what it covers.
pub open spec fn tiles(s: Seq<char>, tokens: Seq<TokenModel>, pos: int) -> bool
    decreases tokens.len(),
{
    if tokens.len() == 0 {
        forall|k: int| pos <= k < s.len() ==> is_space(#[trigger] s[k])
    } else {
        let first = tokens[0];
        &&& pos <= first.start < first.end <= s.len()
        &&& forall|k: int| pos <= k < first.start ==> is_space(#[trigger] s[k])
        &&& lexeme_at(s, first.start) == Some((first.kind, first.end))
        &&& first == lexeme_model(s, first.kind, first.start, first.end)
        &&& tiles(s, tokens.skip(1), first.end)
    }
}

/// Whitespace begins no token.
pub proof fn lemma_space_begins_no_token(s: Seq<char>, pos: int)
    requires
        0 <= pos < s.len(),
        is_space(s[pos]),
    ensures
        lexeme_at(s, pos) is None,
{
}

/// The tokens of a source tile it.
pub proof fn lemma_scan_tiles(s: Seq<char>, pos: int)
    requires
        0 <= pos,
    ensures
        scan(s, pos) matches Some(tokens) ==> tiles(s, tokens, pos),
    decreases s.len() - pos,
{
    if pos < s.len() {
        if is_space(s[pos]) {
            lemma_scan_tiles(s, pos + 1);
            match scan(s, pos) {
                Some(tokens) => {
                    assert(scan(s, pos + 1) == Some(tokens));
                    assert(tiles(s, tokens, pos + 1));
                    if tokens.len() == 0 {
                        assert forall|k: int| pos <= k < s.len() implies is_space(
                            #[trigger] s[k],
                        ) by {
                            if k > pos {
                            }
                        }
                    } else {
                        let first = tokens[0];
                        assert forall|k: int| pos <= k < first.start implies is_space(
                            #[trigger] s[k],
                        ) by {
                            if k > pos {
                            }
                        }
                    }
                },
                None => {},
            }
        } else {
            match lexeme_at(s, pos) {
                None => {},
                Some((kind, end)) => {
                    if pos < end <= s.len() {
                        lemma_scan_tiles(s, end);
                        match scan(s, end) {
                            Some(rest) => {
                                let tokens = seq![lexeme_model(s, kind, pos, end)] + rest;
                                assert(tokens.skip(1) =~= rest);
                                assert(tokens[0] == lexeme_model(s, kind, pos, end));
                            },
                            None => {},
                        }
                    }
                },
            }
        }
    }
}

/// Tokens that tile a source are the tokens of that source: the tiling
/// says all there is to say about lexing.
pub proof fn lemma_tiles_scan(s: Seq<char>, tokens: Seq<TokenModel>, pos: int)
    requires
        0 <= pos,
        tiles(s, tokens, pos),
    ensures
        scan(s, pos) == Some(tokens),
    decreases s.len() - pos,
{
    if pos >= s.len() {
        if tokens.len() > 0 {
            assert(false);
        }
        assert(tokens =~= Seq::<TokenModel>::empty());
    } else if is_space(s[pos]) {
        if tokens.len() > 0 {
            let first = tokens[0];
            if first.start == pos {
                lemma_space_begins_no_token(s, pos);
                assert(false);
            }
        }
        lemma_tiles_scan(s, tokens, pos + 1);
    } else {
        if tokens.len() == 0 {
            assert(is_space(s[pos]));
            assert(false);
        }
        let first = tokens[0];
        if first.start > pos {
            assert(is_space(s[pos]));
            assert(false);
        }
        lemma_tiles_scan(s, tokens.skip(1), first.end);
        assert(seq![first] + tokens.skip(1) =~= tokens);
    }
}

} // verus!
