pub mod calc_type;
pub mod expression_parser;
pub mod expression_token;
pub mod format;
pub mod lexer;
pub mod program_equivalent;
pub mod scope;
pub mod semantic_types;
pub mod sol_ast;
pub mod st_ast;
pub mod st_ast_clone;
pub mod st_ast_equivalent;
pub mod st_parser;
pub mod st_token;
pub mod text;
pub mod type_equality;
pub mod type_program;
pub mod type_resolution;
pub mod type_token;
pub mod types;
