use std::cell::Cell;

use sol::st_ast::{NodeData, NodeDataDiscriminants};
use sol::st_parser::parse_tokens;
use sol::type_program::TypeProgram;

const TEST_PROGRAM: &str = "type string: IEnumerable<char> + Array<char>[];";

#[test]
fn traverse_ast_works_correctly() {
    let sym_count = Cell::new(0);

    let lexons = TypeProgram::lex(TEST_PROGRAM).unwrap();
    let program = parse_tokens(&lexons).unwrap();

    program.traverse(&|x| match x.data() {
        NodeData::SymbolNode(_) => {
            sym_count.set(sym_count.get() + 1);
        }
        _ => {}
    });

    assert_eq!(5, sym_count.get())
}

#[test]
fn collect_ast_works_correctly() {
    let lexons = TypeProgram::lex(TEST_PROGRAM).unwrap();
    let program = parse_tokens(&lexons).unwrap();

    let debug_tokens = program
        .collect()
        .iter()
        .map(|x| x.data().discriminant())
        .collect::<Vec<_>>();

    assert_eq!(
        vec![
            NodeDataDiscriminants::TypeProgramNode,
            NodeDataDiscriminants::TypeDecl,
            NodeDataDiscriminants::TypeName,
            NodeDataDiscriminants::SymbolNode,
            NodeDataDiscriminants::TypeRefDecl,
            NodeDataDiscriminants::TypeName,
            NodeDataDiscriminants::SymbolNode,
            NodeDataDiscriminants::TypeRefDecl,
            NodeDataDiscriminants::TypeName,
            NodeDataDiscriminants::SymbolNode,
            NodeDataDiscriminants::ArrayDecl,
            NodeDataDiscriminants::TypeRefDecl,
            NodeDataDiscriminants::TypeName,
            NodeDataDiscriminants::SymbolNode,
            NodeDataDiscriminants::TypeRefDecl,
            NodeDataDiscriminants::TypeName,
            NodeDataDiscriminants::SymbolNode
        ] as Vec<NodeDataDiscriminants>,
        debug_tokens
    );
}
