use sol::expression_parser::{
    complete_expression, reference_chain_parser, reference_sequence_sparse_parser,
};
use sol::expression_token::{lex_expression, ExpressionToken, ExpressionTokenInfo};
use sol::program_equivalent::assert_equivalent;
use sol::sol_ast::{ExpressionSet, ReferenceChain, SolAST, SymbolExpression, ToRc};

#[test]
pub fn can_parse_single_sym() {
  let tokens = lex_expression("symbol").unwrap();
  let actual = complete_expression(reference_chain_parser(&tokens, 0), &tokens).unwrap();

  let expected: SolAST = ReferenceChain::new(vec![
    SymbolExpression::new(ExpressionToken::Symbol(ExpressionTokenInfo::new(
      0..0,
      "symbol".to_string(),
      -1,
    )))
    .to_rc(),
  ])
  .into();

  assert_equivalent(&expected, &actual);
}

#[test]
pub fn can_parse_sym_chain() {
  let tokens = lex_expression("symbol.field").unwrap();
  let actual = complete_expression(reference_chain_parser(&tokens, 0), &tokens).unwrap();

  let expected: SolAST = ReferenceChain::new(vec![
    SymbolExpression::new(ExpressionToken::Symbol(ExpressionTokenInfo::new(
      0..0,
      "symbol".to_string(),
      -1,
    )))
    .to_rc(),
    SymbolExpression::new(ExpressionToken::Symbol(ExpressionTokenInfo::new(
      0..0,
      "field".to_string(),
      -1,
    )))
    .to_rc(),
  ])
  .into();

  assert_equivalent(&expected, &actual);
}

#[test]
pub fn can_parse_empty_string() {
  let tokens = lex_expression("").unwrap();
  let actual =
    complete_expression(Some(reference_sequence_sparse_parser(&tokens, 0)), &tokens).unwrap();

  let expected: SolAST = ExpressionSet::new(vec![]).into();

  assert_equivalent(&expected, &actual);
}

#[test]
pub fn can_parse_single_references() {
  let tokens = lex_expression("symbol").unwrap();
  let actual =
    complete_expression(Some(reference_sequence_sparse_parser(&tokens, 0)), &tokens).unwrap();

  let expected: SolAST = ExpressionSet::new(vec![
    ReferenceChain::new(vec![
      SymbolExpression::new(ExpressionToken::Symbol(ExpressionTokenInfo::new(
        0..0,
        "symbol".to_string(),
        -1,
      )))
      .to_rc(),
    ])
    .to_rc(),
  ])
  .into();

  assert_equivalent(&expected, &actual);
}

#[test]
pub fn can_parse_multiple_references() {
  let tokens = lex_expression("symbol symbol").unwrap();
  let actual =
    complete_expression(Some(reference_sequence_sparse_parser(&tokens, 0)), &tokens).unwrap();

  let expected: SolAST = ExpressionSet::new(vec![
    ReferenceChain::new(vec![
      SymbolExpression::new(ExpressionToken::Symbol(ExpressionTokenInfo::new(
        0..0,
        "symbol".to_string(),
        -1,
      )))
      .to_rc(),
    ])
    .to_rc(),
    ReferenceChain::new(vec![
      SymbolExpression::new(ExpressionToken::Symbol(ExpressionTokenInfo::new(
        0..0,
        "symbol".to_string(),
        -1,
      )))
      .to_rc(),
    ])
    .to_rc(),
  ])
  .into();

  assert_equivalent(&expected, &actual);
}

#[test]
pub fn can_parse_sparse_references() {
  let tokens = lex_expression("symbol + symbol").unwrap();
  let actual =
    complete_expression(Some(reference_sequence_sparse_parser(&tokens, 0)), &tokens).unwrap();

  let expected: SolAST = ExpressionSet::new(vec![
    ReferenceChain::new(vec![
      SymbolExpression::new(ExpressionToken::Symbol(ExpressionTokenInfo::new(
        0..0,
        "symbol".to_string(),
        -1,
      )))
      .to_rc(),
    ])
    .to_rc(),
    ReferenceChain::new(vec![
      SymbolExpression::new(ExpressionToken::Symbol(ExpressionTokenInfo::new(
        0..0,
        "symbol".to_string(),
        -1,
      )))
      .to_rc(),
    ])
    .to_rc(),
  ])
  .into();

  assert_equivalent(&expected, &actual);
}
