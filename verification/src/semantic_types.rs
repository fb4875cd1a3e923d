use crate::lexer::scan;
use crate::st_ast::{
    preorder, refs_model, AstModel, GenericParamDecl, MethodDecl, NodeData, NodeModel, StAst,
    TypeDecl, TypeRefDecl,
};
use crate::st_parser::parse_model;
use crate::st_token::{tokens_model, StToken, StTokenKind, TokenModel};
use crate::type_program::TypeProgram;
use crate::type_token::TypeToken;
use vstd::prelude::*;

verus! {

/// What a token means to a highlighter.
#[derive(Debug, Clone, Copy, PartialEq, Eq, Structural)]
pub enum SemanticType {
    /// No meaning: a highlighter leaves such a token alone.
    Nothing,
    Type,
    Variable,
    Keyword,
    Operator,
    Method,
}

/// A token as a highlighter sees it: what it means and the bytes it covers.
#[derive(Debug, Clone, Copy, PartialEq, Eq, Structural)]
pub struct SemanticToken {
    pub token_type: SemanticType,
    pub start: u32,
    pub end: u32,
    pub len: u32,
}

/// What a token of the given kind means before the syntax is looked at:
/// keywords and operators are what they are, a symbol is a variable.
pub open spec fn semantic_of(kind: StTokenKind) -> SemanticType {
    match kind {
        StTokenKind::TypeKeyword | StTokenKind::VoidKeyword | StTokenKind::StaticKeyword =>
            SemanticType::Keyword,
        StTokenKind::AddOp | StTokenKind::Spread => SemanticType::Operator,
        StTokenKind::Symbol => SemanticType::Variable,
        _ => SemanticType::Nothing,
    }
}

/// A token as a highlighter sees it. Positions are cut to 32 bits, and the
/// length is the difference of the cut positions, wrapping around.
pub open spec fn semantic_token_of(token: TokenModel) -> SemanticToken {
    SemanticToken {
        token_type: semantic_of(token.kind),
        start: token.start as u32,
        end: token.end as u32,
        len: (token.end as u32).wrapping_sub(token.start as u32),
    }
}

/// The tokens before the syntax is looked at.
pub open spec fn base_semantics(tokens: Seq<TokenModel>) -> Seq<SemanticToken> {
    Seq::new(tokens.len(), |i: int| semantic_token_of(tokens[i]))
}

/// The tokens with every token that lies within the bytes from `start` up
/// to `end` given the meaning `meaning`.
pub open spec fn recolored(
    tokens: Seq<SemanticToken>,
    start: int,
    end: int,
    meaning: SemanticType,
) -> Seq<SemanticToken> {
    Seq::new(
        tokens.len(),
        |i: int|
            if start <= tokens[i].start && tokens[i].end <= end {
                SemanticToken { token_type: meaning, ..tokens[i] }
            } else {
                tokens[i]
            },
    )
}

/// What one node says about the tokens: the name of a type reference, of a
/// generic parameter and of a type declaration is a type, the name of a
/// method is a method, and no other node says anything.
pub open spec fn node_semantics(node: AstModel, tokens: Seq<SemanticToken>) -> Seq<SemanticToken> {
    match node.data {
        NodeModel::TypeRefDecl { name, .. } => recolored(
            tokens,
            name.start,
            name.end,
            SemanticType::Type,
        ),
        NodeModel::GenericParamDecl { name, .. } => recolored(
            tokens,
            name.start,
            name.end,
            SemanticType::Type,
        ),
        NodeModel::TypeDecl { name, .. } => recolored(
            tokens,
            name.start,
            name.end,
            SemanticType::Type,
        ),
        NodeModel::MethodDecl { name, .. } => recolored(
            tokens,
            name.start,
            name.end,
            SemanticType::Method,
        ),
        _ => tokens,
    }
}

/// What the nodes say about the tokens, node after node.
pub open spec fn nodes_semantics(nodes: Seq<AstModel>, tokens: Seq<SemanticToken>) -> Seq<
    SemanticToken,
>
    decreases nodes.len(),
{
    if nodes.len() == 0 {
        tokens
    } else {
        node_semantics(nodes.last(), nodes_semantics(nodes.drop_last(), tokens))
    }
}

/// What a tree says about the tokens: what its nodes say, in pre-order.
pub open spec fn tree_semantics(tree: AstModel, tokens: Seq<SemanticToken>) -> Seq<SemanticToken> {
    nodes_semantics(preorder(tree), tokens)
}

/// The tokens that mean something, in order.
pub open spec fn visible(tokens: Seq<SemanticToken>) -> Seq<SemanticToken>
    decreases tokens.len(),
{
    if tokens.len() == 0 {
        Seq::empty()
    } else if tokens.last().token_type != SemanticType::Nothing {
        visible(tokens.drop_last()).push(tokens.last())
    } else {
        visible(tokens.drop_last())
    }
}

/// What a highlighter is told of a source: nothing if the source has no
/// tokens; else its tokens that mean something, seen through the syntax
/// if the tokens read as a program and by their kinds alone if not.
pub open spec fn analysis_of(source: Seq<char>) -> Seq<SemanticToken> {
    match scan(source, 0) {
        None => Seq::empty(),
        Some(tokens) => visible(
            match parse_model(tokens) {
                Some(tree) => tree_semantics(tree, base_semantics(tokens)),
                None => base_semantics(tokens),
            },
        ),
    }
}

impl SemanticType {
    /// Every meaning, in the order of declaration.
    pub fn all_variants() -> (r: Vec<SemanticType>)
        ensures
            r@ == seq![
                SemanticType::Nothing,
                SemanticType::Type,
                SemanticType::Variable,
                SemanticType::Keyword,
                SemanticType::Operator,
                SemanticType::Method,
            ],
    {
        let mut r: Vec<SemanticType> = Vec::new();
        r.push(SemanticType::Nothing);
        r.push(SemanticType::Type);
        r.push(SemanticType::Variable);
        r.push(SemanticType::Keyword);
        r.push(SemanticType::Operator);
        r.push(SemanticType::Method);
        proof {
            assert(r@ =~= seq![
                SemanticType::Nothing,
                SemanticType::Type,
                SemanticType::Variable,
                SemanticType::Keyword,
                SemanticType::Operator,
                SemanticType::Method,
            ]);
        }
        r
    }

    /// The name of the meaning.
    pub open spec fn name_of(self) -> Seq<char> {
        match self {
            SemanticType::Nothing => "None"@,
            SemanticType::Type => "Type"@,
            SemanticType::Variable => "Variable"@,
            SemanticType::Keyword => "Keyword"@,
            SemanticType::Operator => "Operator"@,
            SemanticType::Method => "Method"@,
        }
    }

    /// The name of the meaning in lower case, as a highlighter's legend has it.
    pub open spec fn legend_of(self) -> Seq<char> {
        match self {
            SemanticType::Nothing => "none"@,
            SemanticType::Type => "type"@,
            SemanticType::Variable => "variable"@,
            SemanticType::Keyword => "keyword"@,
            SemanticType::Operator => "operator"@,
            SemanticType::Method => "method"@,
        }
    }

    /// The name of the meaning.
    pub fn to_text(&self) -> (r: String)
        ensures
            r@ == self.name_of(),
    {
        match self {
            SemanticType::Nothing => "None".to_owned(),
            SemanticType::Type => "Type".to_owned(),
            SemanticType::Variable => "Variable".to_owned(),
            SemanticType::Keyword => "Keyword".to_owned(),
            SemanticType::Operator => "Operator".to_owned(),
            SemanticType::Method => "Method".to_owned(),
        }
    }

    /// The name of the meaning in lower case.
    pub fn legend(&self) -> (r: String)
        ensures
            r@ == self.legend_of(),
    {
        match self {
            SemanticType::Nothing => "none".to_owned(),
            SemanticType::Type => "type".to_owned(),
            SemanticType::Variable => "variable".to_owned(),
            SemanticType::Keyword => "keyword".to_owned(),
            SemanticType::Operator => "operator".to_owned(),
            SemanticType::Method => "method".to_owned(),
        }
    }
}

impl SemanticToken {
    pub fn new(token_type: SemanticType, start: u32, end: u32, len: u32) -> (r: SemanticToken)
        ensures
            r == (SemanticToken { token_type, start, end, len }),
    {
        SemanticToken { token_type, start, end, len }
    }
}

/// The names of all meanings in lower case, in the order of declaration.
pub fn get_token_semantic_types() -> (r: Vec<String>)
    ensures
        r@.len() == 6,
        forall|i: int|
            0 <= i < 6 ==> (#[trigger] r@[i])@ == SemanticType::all_variants_model()[i].legend_of(),
{
    let variants = SemanticType::all_variants();
    let mut r: Vec<String> = Vec::new();
    let mut i: usize = 0;
    while i < variants.len()
        invariant
            i <= variants@.len(),
            variants@ == SemanticType::all_variants_model(),
            r@.len() == i,
            forall|j: int| 0 <= j < i ==> (#[trigger] r@[j])@ == variants@[j].legend_of(),
        decreases variants@.len() - i,
    {
        r.push(variants[i].legend());
        i = i + 1;
    }
    r
}

impl SemanticType {
    /// Every meaning, in the order of declaration.
    pub open spec fn all_variants_model() -> Seq<SemanticType> {
        seq![
            SemanticType::Nothing,
            SemanticType::Type,
            SemanticType::Variable,
            SemanticType::Keyword,
            SemanticType::Operator,
            SemanticType::Method,
        ]
    }
}

/// The highlighter's token for a token that covers the bytes from `start`
/// up to `end` and means `token_type`.
fn semantic_token(token_type: SemanticType, start: usize, end: usize) -> (r: SemanticToken)
    ensures
        r == (SemanticToken {
            token_type,
            start: start as u32,
            end: end as u32,
            len: (end as u32).wrapping_sub(start as u32),
        }),
{
    let start = #[verifier::truncate] (start as u32);
    let end = #[verifier::truncate] (end as u32);
    SemanticToken { token_type, start, end, len: end.wrapping_sub(start) }
}

impl TypeToken {
    pub fn semantic_type(&self) -> (r: SemanticType)
        ensures
            r == semantic_of(self.kind_of()),
    {
        if self.is_keyword() {
            SemanticType::Keyword
        } else if self.is_op() {
            SemanticType::Operator
        } else if let TypeToken::Symbol(_) = self {
            SemanticType::Variable
        } else {
            SemanticType::Nothing
        }
    }

    pub fn into_semantic_token(&self) -> (r: SemanticToken)
        ensures
            r == semantic_token_of(self@),
    {
        match self {
            TypeToken::Whitespace => semantic_token(self.semantic_type(), 0, 0),
            _ => {
                let span = &self.get_info().span;
                semantic_token(self.semantic_type(), span.start, span.end)
            },
        }
    }
}

impl StToken {
    pub fn semantic_type(&self) -> (r: SemanticType)
        ensures
            r == semantic_of(self.kind_of()),
    {
        if self.is_keyword() {
            SemanticType::Keyword
        } else if self.is_op() {
            SemanticType::Operator
        } else if let StToken::Symbol(_) = self {
            SemanticType::Variable
        } else {
            SemanticType::Nothing
        }
    }

    pub fn into_semantic_token(&self) -> (r: SemanticToken)
        ensures
            r == semantic_token_of(self@),
    {
        semantic_token(self.semantic_type(), self.start(), self.end())
    }
}

impl StAst {
    /// Gives every token within the bytes of this node the meaning `new_token`.
    #[verifier::rlimit(50)]
    pub fn apply_semantics(&self, tokens: &mut Vec<SemanticToken>, new_token: &SemanticType)
        ensures
            final(tokens)@ == recolored(old(tokens)@, self@.start, self@.end, *new_token),
    {
        let ghost before = tokens@;
        let mut i: usize = 0;
        while i < tokens.len()
            invariant
                i <= tokens@.len(),
                tokens@.len() == before.len(),
                forall|j: int|
                    0 <= j < i ==> tokens@[j] == recolored(
                        before,
                        self@.start,
                        self@.end,
                        *new_token,
                    )[j],
                forall|j: int| i <= j < before.len() ==> tokens@[j] == before[j],
            decreases tokens@.len() - i,
        {
            let token = tokens[i];
            if self.range.start <= token.start as usize && token.end as usize <= self.range.end {
                tokens.set(
                    i,
                    SemanticToken {
                        token_type: *new_token,
                        start: token.start,
                        end: token.end,
                        len: token.len,
                    },
                );
            }
            i = i + 1;
        }
        proof {
            assert(tokens@ =~= recolored(before, self@.start, self@.end, *new_token));
        }
    }

    /// Tells the tokens what the tree says about them.
    #[verifier::rlimit(50)]
    pub fn update_semantics(ast_node: &StAst, tokens: &mut Vec<SemanticToken>)
        ensures
            final(tokens)@ == tree_semantics(ast_node@, old(tokens)@),
    {
        let ghost before = tokens@;
        let nodes = ast_node.collect();
        let ghost all = refs_model(nodes@);
        let mut i: usize = 0;
        while i < nodes.len()
            invariant
                i <= nodes@.len(),
                all == refs_model(nodes@),
                tokens@ == nodes_semantics(all.subrange(0, i as int), before),
            decreases nodes@.len() - i,
        {
            proof {
                let next = all.subrange(0, i + 1);
                assert(next.drop_last() == all.subrange(0, i as int));
                assert(next.last() == nodes@[i as int]@);
            }
            nodes[i].data.update_semantics(tokens);
            i = i + 1;
        }
        proof {
            assert(all.subrange(0, nodes@.len() as int) == all);
        }
    }
}

impl NodeData {
    /// Tells the tokens what a node of this kind says about them.
    pub fn update_semantics(&self, tokens: &mut Vec<SemanticToken>)
        ensures
            final(tokens)@ == node_semantics(
                AstModel { start: 0, end: 0, data: self@, cached: None },
                old(tokens)@,
            ),
    {
        match self {
            NodeData::TypeRefDecl(d) => d.update_semantics(tokens),
            NodeData::GenericParamDecl(d) => d.update_semantics(tokens),
            NodeData::TypeDecl(d) => d.update_semantics(tokens),
            NodeData::MethodDecl(d) => d.update_semantics(tokens),
            _ => {},
        }
    }
}

impl TypeRefDecl {
    /// The name of a type reference is a type.
    pub fn update_semantics(&self, tokens: &mut Vec<SemanticToken>)
        ensures
            final(tokens)@ == recolored(
                old(tokens)@,
                self.name@.start,
                self.name@.end,
                SemanticType::Type,
            ),
    {
        self.name.apply_semantics(tokens, &SemanticType::Type);
    }
}

impl GenericParamDecl {
    /// The name of a generic parameter is a type.
    pub fn update_semantics(&self, tokens: &mut Vec<SemanticToken>)
        ensures
            final(tokens)@ == recolored(
                old(tokens)@,
                self.name@.start,
                self.name@.end,
                SemanticType::Type,
            ),
    {
        self.name.apply_semantics(tokens, &SemanticType::Type);
    }
}

impl TypeDecl {
    /// The name of a type declaration is a type.
    pub fn update_semantics(&self, tokens: &mut Vec<SemanticToken>)
        ensures
            final(tokens)@ == recolored(
                old(tokens)@,
                self.name@.start,
                self.name@.end,
                SemanticType::Type,
            ),
    {
        self.name.apply_semantics(tokens, &SemanticType::Type);
    }
}

impl MethodDecl {
    /// The name of a method is a method.
    pub fn update_semantics(&self, tokens: &mut Vec<SemanticToken>)
        ensures
            final(tokens)@ == recolored(
                old(tokens)@,
                self.name@.start,
                self.name@.end,
                SemanticType::Method,
            ),
    {
        self.name.apply_semantics(tokens, &SemanticType::Method);
    }
}

impl TypeProgram {
    /// Tells the tokens what the program says about them.
    pub fn update_semantics(&self, tokens: &mut Vec<SemanticToken>)
        ensures
            final(tokens)@ == tree_semantics(self.tree(), old(tokens)@),
    {
        StAst::update_semantics(self.ast(), tokens);
    }
}

/// The tokens as a highlighter sees them before the syntax is looked at.
fn base_tokens(tokens: &Vec<StToken>) -> (r: Vec<SemanticToken>)
    ensures
        r@ == base_semantics(tokens_model(tokens@)),
{
    let mut r: Vec<SemanticToken> = Vec::new();
    let mut i: usize = 0;
    while i < tokens.len()
        invariant
            i <= tokens@.len(),
            r@.len() == i,
            forall|j: int| 0 <= j < i ==> r@[j] == semantic_token_of(tokens@[j]@),
        decreases tokens@.len() - i,
    {
        r.push(tokens[i].into_semantic_token());
        i = i + 1;
    }
    proof {
        assert(r@ =~= base_semantics(tokens_model(tokens@)));
    }
    r
}

/// The tokens that mean something, in order.
fn visible_tokens(tokens: &Vec<SemanticToken>) -> (r: Vec<SemanticToken>)
    ensures
        r@ == visible(tokens@),
{
    let mut r: Vec<SemanticToken> = Vec::new();
    let mut k: usize = 0;
    while k < tokens.len()
        invariant
            k <= tokens@.len(),
            r@ == visible(tokens@.subrange(0, k as int)),
        decreases tokens@.len() - k,
    {
        proof {
            let next = tokens@.subrange(0, k + 1);
            assert(next.drop_last() == tokens@.subrange(0, k as int));
            assert(next.last() == tokens@[k as int]);
        }
        let token = tokens[k];
        if token.token_type != SemanticType::Nothing {
            r.push(token);
        }
        k = k + 1;
    }
    proof {
        assert(tokens@.subrange(0, tokens@.len() as int) == tokens@);
    }
    r
}

/// What a highlighter is told of the source `src`.
#[verifier::rlimit(50)]
pub fn analyze_program_semantics_internal(src: &str) -> (r: Vec<SemanticToken>)
    ensures
        r@ == analysis_of(src@),
{
    let tokens = match TypeProgram::lex(src) {
        Ok(tokens) => tokens,
        Err(_) => {
            return Vec::new();
        },
    };
    let mut semantic_tokens = base_tokens(&tokens);
    match TypeProgram::parse(Ok(tokens)) {
        Ok(type_program) => {
            type_program.update_semantics(&mut semantic_tokens);
        },
        Err(_) => {},
    }
    visible_tokens(&semantic_tokens)
}

} // verus!
