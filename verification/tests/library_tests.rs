use std::rc::Rc;

use sol::expression_token::{lex_expression, ExpressionToken, ExpressionTokenImpl};
use sol::lexer::lex_source;
use sol::program_equivalent::ProgramEquivalent;
use sol::scope::{NameMap, Scope};
use sol::semantic_types::{
    analyze_program_semantics_internal, get_token_semantic_types, SemanticToken, SemanticType,
};
use sol::st_ast::{ArrayDecl, NodeData, StAst, SymbolNode, ToAST, TypeDecl, TypeProgramNode};
use sol::st_parser::{
    complete, parse_tokens, type_decl_parser, type_program_parser, type_ref_decl_parser,
};
use sol::st_token::{StToken, StTokenInfo, StTokenKind};
use sol::text::join_strings;
use sol::type_equality::{type_maps_equal, types_equal};
use sol::type_program::{TypeProgram, TypeProgramError};
use sol::type_resolution::{InstancedType, TypeResolutionError};
use sol::type_token::{lex_type_program, CompileError, TypeToken};
use sol::types::{
    ArrayType, FieldType, GenericType, MethodOverloadType, MethodParamType, MethodType,
    ObjectType, ProgramType, RefType, Type, TypeImpl, TypeMap,
};

fn kinds(source: &str) -> Vec<StTokenKind> {
    lex_source(source)
        .unwrap()
        .iter()
        .map(|t| t.kind())
        .collect()
}

fn string_ref() -> Rc<Type> {
    RefType::new("String".to_string(), None).to_rc()
}

#[test]
fn lexer_reads_every_kind_of_token() {
    assert_eq!(
        vec![
            StTokenKind::TypeKeyword,
            StTokenKind::VoidKeyword,
            StTokenKind::StaticKeyword,
            StTokenKind::ScopeOp,
            StTokenKind::Colon,
            StTokenKind::Semicolon,
            StTokenKind::Comma,
            StTokenKind::AddOp,
            StTokenKind::ArrowOp,
            StTokenKind::Spread,
            StTokenKind::OpenCurly,
            StTokenKind::ClosedCurly,
            StTokenKind::OpenParen,
            StTokenKind::ClosedParen,
            StTokenKind::OpenAngle,
            StTokenKind::ClosedAngle,
            StTokenKind::OpenCaret,
            StTokenKind::ClosedCaret,
            StTokenKind::Symbol,
        ],
        kinds("type void static :: : ; , + => ... { } ( ) [ ] < > name")
    );
}

#[test]
fn lexer_takes_the_longest_token() {
    assert_eq!(vec![StTokenKind::Symbol], kinds("types"));
    assert_eq!(vec![StTokenKind::Symbol], kinds("statics9"));
    assert_eq!(
        vec![StTokenKind::ScopeOp, StTokenKind::Colon],
        kinds(":::")
    );
    assert_eq!(
        vec![StTokenKind::Symbol, StTokenKind::ScopeOp, StTokenKind::Symbol],
        kinds("a::b")
    );
}

#[test]
fn lexer_records_bytes_and_text() {
    let tokens = lex_source("type  Foo\n\t;").unwrap();
    assert_eq!(3, tokens.len());
    assert_eq!(
        &StTokenInfo::new(0..4, "type".to_string(), -1),
        tokens[0].get_info()
    );
    assert_eq!(
        &StTokenInfo::new(6..9, "Foo".to_string(), -1),
        tokens[1].get_info()
    );
    assert_eq!(
        &StTokenInfo::new(11..12, ";".to_string(), -1),
        tokens[2].get_info()
    );
}

#[test]
fn lexer_rejects_what_begins_no_token() {
    assert!(lex_source("a = b").is_none());
    assert!(lex_source("a .. b").is_none());
    assert!(lex_source("a . b").is_none());
    assert!(lex_source("a\rb").is_none());
    assert!(lex_source("9a").is_none());
    assert!(lex_source("caf\u{e9}").is_none());
    assert!(lex_source("@").is_none());
    assert!(lex_source("").unwrap().is_empty());
    assert!(lex_source(" \t\n\u{c}").unwrap().is_empty());
}

#[test]
fn program_errors_tell_lexing_from_parsing() {
    match TypeProgram::parse_string("type #") {
        Err(TypeProgramError::FailedToLex) => {}
        other => panic!("unexpected outcome {:?}", other),
    }
    match TypeProgram::parse_string("type String") {
        Err(TypeProgramError::ParseError(tokens, stopped)) => {
            assert_eq!(2, tokens.len());
            assert_eq!(StTokenKind::Symbol, tokens[1].kind());
            assert_eq!(0, stopped);
        }
        other => panic!("unexpected outcome {:?}", other),
    }
    match TypeProgram::parse_string("type A; static b: A; type { }") {
        Err(TypeProgramError::ParseError(tokens, stopped)) => {
            assert_eq!(11, tokens.len());
            assert_eq!(8, stopped);
            assert_eq!(StTokenKind::TypeKeyword, tokens[stopped].kind());
        }
        other => panic!("unexpected outcome {:?}", other),
    }
    match TypeProgram::parse(Err(TypeProgramError::FailedToLex)) {
        Err(TypeProgramError::FailedToLex) => {}
        other => panic!("unexpected outcome {:?}", other),
    }
}

#[test]
fn empty_program_compiles_to_no_bindings() {
    let mut program = TypeProgram::compile("").unwrap();
    assert!(program.get_global_types().is_empty());
    assert_eq!(0, program.get_global_types().len());
    assert_eq!(
        Type::from(ProgramType::new(Rc::new(TypeMap::new()))),
        *program.get_program_type()
    );
}

#[test]
fn calc_type_twice_gives_the_same_and_computes_once() {
    let tokens = TypeProgram::lex("type Class { field: String; Method(): String; }").unwrap();
    let mut parsed = complete(type_decl_parser(&tokens, 0), &tokens).unwrap();

    let first = parsed.calc_type(None);
    let second = parsed.calc_type(None);
    assert_eq!(first, second);

    // What is remembered wins over whatever is handed down later.
    let other: Type = GenericType::new("Other".to_string()).into();
    let third = parsed.calc_type(Some(&other));
    assert_eq!(first, third);
    assert_eq!(first, parsed.get_type());
}

#[test]
fn calc_type_remembers_for_every_node_it_asks() {
    let tokens = TypeProgram::lex("static x: List<Item>[];").unwrap();
    let mut program = parse_tokens(&tokens).unwrap();
    program.calc_type(None);
    let nodes = program.collect();
    let remembered = nodes
        .iter()
        .filter(|n| n.cached_type.is_some())
        .count();
    // Every node but the symbols inside the two type names remembers a type.
    assert_eq!(nodes.len() - 2, remembered);
    assert_eq!(11, nodes.len());
}

#[test]
fn names_of_paths_are_joined_by_the_scope_sign() {
    let tokens = TypeProgram::lex("System::Text::String").unwrap();
    let mut parsed = complete(type_ref_decl_parser(&tokens, 0), &tokens).unwrap();
    let expected: (Option<String>, Type) = (
        None,
        RefType::new("System::Text::String".to_string(), None).into(),
    );
    assert_eq!(expected, parsed.calc_type(None));
    assert_eq!(
        Some("System::Text::String".to_string()),
        parsed
            .data()
            .try_as_type_ref_decl_ref()
            .unwrap()
            .name()
            .qualified_name()
    );
    assert_eq!("System::Text::String", parsed.format_source());
}

#[test]
fn joining_writes_the_separator_between_neighbours_only() {
    let parts = vec!["a".to_string(), "".to_string(), "c".to_string()];
    assert_eq!("a, , c", join_strings(&parts, ", "));
    assert_eq!("", join_strings(&vec![], ", "));
    assert_eq!("only", join_strings(&vec!["only".to_string()], ", "));
}

#[test]
fn overloads_merge_in_declaration_order() {
    let mut program = TypeProgram::parse_string(
        "type String; type T { Foo(); bar: String; Foo(String); Foo(...String): String; }",
    )
    .unwrap();
    let globals = program.get_global_types();
    let object = globals.get("T").unwrap();
    let body = object.try_as_object_type_ref().unwrap().body();
    assert_eq!(2, body.len());

    let expected: Type = MethodType::new(vec![
        MethodOverloadType::new(vec![], None, None).to_rc(),
        MethodOverloadType::new(
            vec![MethodParamType::new(string_ref(), false).to_rc()],
            None,
            None,
        )
        .to_rc(),
        MethodOverloadType::new(
            vec![MethodParamType::new(string_ref(), true).to_rc()],
            None,
            Some(string_ref()),
        )
        .to_rc(),
    ])
    .into();
    assert_eq!(expected, **body.get("Foo").unwrap());
}

#[test]
fn a_later_member_of_another_kind_replaces_the_earlier() {
    let mut program = TypeProgram::parse_string(
        "type String; type T { Foo(); Foo: String; } type U { Foo: String; Foo(); }",
    )
    .unwrap();
    let globals = program.get_global_types();

    let t = globals.get("T").unwrap().try_as_object_type_ref().unwrap();
    assert_eq!(
        Type::from(FieldType::new(string_ref(), false)),
        **t.body().get("Foo").unwrap()
    );

    let u = globals.get("U").unwrap().try_as_object_type_ref().unwrap();
    assert_eq!(
        Type::from(MethodType::new(vec![
            MethodOverloadType::new(vec![], None, None).to_rc()
        ])),
        **u.body().get("Foo").unwrap()
    );
}

#[test]
fn a_later_global_replaces_an_earlier_of_the_same_name() {
    let mut program =
        TypeProgram::parse_string("static a: First; static a: Second[]; type a;").unwrap();
    let globals = program.get_global_types();
    assert_eq!(1, globals.len());
    assert_eq!(
        Type::from(ObjectType::new("a".to_string(), None, None, TypeMap::new())),
        **globals.get("a").unwrap()
    );
}

#[test]
fn tables_are_equal_whatever_the_order_of_their_entries() {
    let a = TypeMap::from_entries(vec![
        ("x".to_string(), string_ref()),
        ("y".to_string(), GenericType::new("T".to_string()).to_rc()),
    ]);
    let b = TypeMap::from_entries(vec![
        ("y".to_string(), GenericType::new("T".to_string()).to_rc()),
        ("x".to_string(), string_ref()),
    ]);
    let c = TypeMap::from_entries(vec![("x".to_string(), string_ref())]);
    let d = TypeMap::from_entries(vec![
        ("x".to_string(), string_ref()),
        ("y".to_string(), GenericType::new("U".to_string()).to_rc()),
    ]);
    assert!(type_maps_equal(&a, &b));
    assert_eq!(a, b);
    assert!(!type_maps_equal(&a, &c));
    assert!(!type_maps_equal(&c, &a));
    assert!(!type_maps_equal(&a, &d));
}

#[test]
fn table_insert_replaces_and_get_finds() {
    let mut table = TypeMap::new();
    assert!(table.is_empty());
    table.insert("x".to_string(), string_ref());
    table.insert("y".to_string(), string_ref());
    table.insert("x".to_string(), GenericType::new("T".to_string()).to_rc());
    assert_eq!(2, table.len());
    assert!(table.contains_key("y"));
    assert!(!table.contains_key("z"));
    assert!(table.get("z").is_none());
    assert_eq!(
        Type::from(GenericType::new("T".to_string())),
        **table.get("x").unwrap()
    );
}

#[test]
fn table_length_counts_names_not_entries() {
    let doubled = TypeMap {
        entries: vec![
            ("x".to_string(), string_ref()),
            ("y".to_string(), string_ref()),
            ("x".to_string(), GenericType::new("T".to_string()).to_rc()),
        ],
    };
    assert_eq!(2, doubled.len());
    assert!(!doubled.is_empty());
    assert_eq!(
        Type::from(GenericType::new("T".to_string())),
        **doubled.get("x").unwrap()
    );
    let merged = TypeMap::from_entries(vec![
        ("y".to_string(), string_ref()),
        ("x".to_string(), GenericType::new("T".to_string()).to_rc()),
    ]);
    assert_eq!(merged, doubled);
    assert_eq!(0, TypeMap::new().len());
}

#[test]
fn types_are_equal_by_structure() {
    let a: Type = ArrayType::new(2, string_ref()).into();
    let b: Type = ArrayType::new(2, string_ref()).into();
    let c: Type = ArrayType::new(1, string_ref()).into();
    let d: Type = RefType::new("String".to_string(), Some(vec![])).into();
    assert!(types_equal(&a, &b));
    assert!(!types_equal(&a, &c));
    assert!(!types_equal(&d, &string_ref()));
    assert!(!types_equal(&a, &d));
    assert_eq!(a.clone(), a);
}

#[test]
fn scope_replaces_bare_names_and_rewrites_arguments() {
    let scope = TypeMap::from_entries(vec![("T".to_string(), string_ref())]);
    let t = RefType::new("T".to_string(), None).to_rc();

    assert_eq!(string_ref(), InstancedType::apply_type_scope(&t, &scope));

    let list_of_t = RefType::new("List".to_string(), Some(vec![t.clone()])).to_rc();
    assert_eq!(
        RefType::new("List".to_string(), Some(vec![string_ref()])).to_rc(),
        InstancedType::apply_type_scope(&list_of_t, &scope)
    );

    // A reference with arguments keeps its own name even if the scope binds it.
    let t_of_t = RefType::new("T".to_string(), Some(vec![t.clone()])).to_rc();
    assert_eq!(
        RefType::new("T".to_string(), Some(vec![string_ref()])).to_rc(),
        InstancedType::apply_type_scope(&t_of_t, &scope)
    );

    let method = MethodType::new(vec![MethodOverloadType::new(
        vec![MethodParamType::new(ArrayType::new(1, t.clone()).to_rc(), true).to_rc()],
        Some(vec![t.clone()]),
        Some(t.clone()),
    )
    .to_rc()])
    .to_rc();
    let expected = MethodType::new(vec![MethodOverloadType::new(
        vec![MethodParamType::new(ArrayType::new(1, string_ref()).to_rc(), true).to_rc()],
        Some(vec![string_ref()]),
        Some(string_ref()),
    )
    .to_rc()])
    .to_rc();
    assert_eq!(expected, InstancedType::apply_type_scope(&method, &scope));

    // Placeholders, objects, fields and programs stay as they are.
    let generic = GenericType::new("T".to_string()).to_rc();
    assert_eq!(generic, InstancedType::apply_type_scope(&generic, &scope));
    let field = FieldType::new(t.clone(), false).to_rc();
    assert_eq!(field, InstancedType::apply_type_scope(&field, &scope));
    let object = ObjectType::new(
        "T".to_string(),
        None,
        None,
        TypeMap::from_entries(vec![("f".to_string(), t.clone())]),
    )
    .to_rc();
    assert_eq!(object, InstancedType::apply_type_scope(&object, &scope));
}

#[test]
fn generic_scope_binds_parameters_to_arguments_by_position() {
    let object = ObjectType::new(
        "Pair".to_string(),
        None,
        Some(vec![
            GenericType::new("A".to_string()).to_rc(),
            GenericType::new("B".to_string()).to_rc(),
        ]),
        TypeMap::new(),
    )
    .to_rc();
    let int_ref = RefType::new("Int".to_string(), None).to_rc();

    let both = InstancedType::new(object.clone(), vec![string_ref(), int_ref.clone()]);
    let scope = both.create_generic_param_scope().unwrap();
    assert_eq!(
        TypeMap::from_entries(vec![
            ("A".to_string(), string_ref()),
            ("B".to_string(), int_ref.clone()),
        ]),
        *scope
    );

    // Of lists of different lengths, as far as both go.
    let one = InstancedType::new(object.clone(), vec![string_ref()]);
    assert_eq!(
        TypeMap::from_entries(vec![("A".to_string(), string_ref())]),
        *one.create_generic_param_scope().unwrap()
    );
    let three = InstancedType::new(
        object.clone(),
        vec![string_ref(), int_ref.clone(), int_ref.clone()],
    );
    assert_eq!(2, three.create_generic_param_scope().unwrap().len());

    let program = InstancedType::plain(&ProgramType::new(Rc::new(TypeMap::new())).to_rc());
    assert!(program.create_generic_param_scope().unwrap().is_empty());
}

#[test]
fn generic_scope_exists_for_objects_and_programs_only() {
    let array = InstancedType::plain(&ArrayType::new(1, string_ref()).to_rc());
    assert!(matches!(
        array.create_generic_param_scope(),
        Err(TypeResolutionError::CanOnlyCreateScopesForObjectTypes)
    ));

    let odd = ObjectType::new(
        "Odd".to_string(),
        None,
        Some(vec![string_ref()]),
        TypeMap::new(),
    )
    .to_rc();
    let instance = InstancedType::new(odd, vec![string_ref()]);
    assert!(matches!(
        instance.create_generic_param_scope(),
        Err(TypeResolutionError::CanOnlyCreateScopesForObjectTypes)
    ));
}

#[test]
fn instancing_has_an_error_for_every_invalid_root() {
    let globals = TypeMap::from_entries(vec![(
        "String".to_string(),
        ObjectType::new("String".to_string(), None, None, TypeMap::new()).to_rc(),
    )]);

    let generic = GenericType::new("T".to_string()).to_rc();
    let param = MethodParamType::new(string_ref(), false).to_rc();
    let overload = MethodOverloadType::new(vec![], None, None).to_rc();
    for root in [generic, param, overload] {
        assert!(matches!(
            InstancedType::instance_type(&root, &globals),
            Err(TypeResolutionError::CannotInstance)
        ));
    }

    let missing = RefType::new("Missing".to_string(), None).to_rc();
    match InstancedType::instance_type(&missing, &globals) {
        Err(TypeResolutionError::SymNotFoundInGlobal(name)) => assert_eq!("Missing", name),
        other => panic!("unexpected outcome {:?}", other),
    }

    // A field stands for its value type, however deep it is wrapped.
    let wrapped = FieldType::new(FieldType::new(string_ref(), true).to_rc(), false).to_rc();
    let expected = InstancedType::plain(globals.get("String").unwrap());
    assert_eq!(
        expected,
        InstancedType::instance_type(&wrapped, &globals).unwrap()
    );

    // A reference brings its own arguments.
    let list = RefType::new("String".to_string(), Some(vec![string_ref()])).to_rc();
    assert_eq!(
        InstancedType::new(globals.get("String").unwrap().clone(), vec![string_ref()]),
        InstancedType::instance_type(&list, &globals).unwrap()
    );
}

#[test]
fn resolving_reports_each_kind_of_failure() {
    let mut program =
        TypeProgram::parse_string("type A { b: Unknown; g(): A; } static a: A; static m: () => void;")
            .unwrap();
    let globals = program.get_global_types();
    let root = program.get_global_instance();

    match root.resolve_sym("nothing", &globals) {
        Err(TypeResolutionError::SymNotFoundInGlobal(name)) => assert_eq!("nothing", name),
        other => panic!("unexpected outcome {:?}", other),
    }
    match root.resolve_chain(&["a", "b"], &globals) {
        Err(TypeResolutionError::SymNotFoundInGlobal(name)) => assert_eq!("Unknown", name),
        other => panic!("unexpected outcome {:?}", other),
    }
    match root.resolve_chain(&["a", "missing", "b"], &globals) {
        Err(TypeResolutionError::SymbolNotInObjectOfType(e)) => {
            assert_eq!("A", e.object_name());
            assert_eq!("missing", e.symbol());
        }
        other => panic!("unexpected outcome {:?}", other),
    }
    match root.resolve_chain(&["m", "x"], &globals) {
        Err(TypeResolutionError::CannotResolveOnNonObject) => {}
        other => panic!("unexpected outcome {:?}", other),
    }
    assert_eq!(root, root.resolve_chain(&[], &globals).unwrap());
}

#[test]
fn resolving_a_field_never_yields_a_bare_field() {
    let mut program = TypeProgram::parse_string(
        "type String; type Box<T> { static value: T; items: T[]; } static b: Box<String>;",
    )
    .unwrap();
    let globals = program.get_global_types();
    let root = program.get_global_instance();

    let value = root.resolve_chain(&["b", "value"], &globals).unwrap();
    assert!(value.source().try_as_field_type_ref().is_none());
    assert_eq!(globals.get("String").unwrap(), value.source());

    let items = root.resolve_chain(&["b", "items"], &globals).unwrap();
    assert_eq!(
        InstancedType::plain(&ArrayType::new(1, string_ref()).to_rc()),
        items
    );
}

#[test]
fn nodes_cover_the_bytes_of_their_tokens() {
    let tokens = TypeProgram::lex("type  Foo<T> : Bar { f : T[,] ; }").unwrap();
    let program = parse_tokens(&tokens).unwrap();
    assert_eq!(&(0..33), program.range());

    let decl = &program.children()[0];
    assert_eq!(&(0..33), decl.range());
    let parts = decl.children();
    // name, generic parameter, parent, field
    assert_eq!(4, parts.len());
    assert_eq!(&(6..9), parts[0].range());
    assert_eq!(&(10..11), parts[1].range());
    assert_eq!(&(15..18), parts[2].range());
    assert_eq!(&(21..31), parts[3].range());

    let identifier = &parts[3].children()[0];
    assert_eq!(&(21..29), identifier.range());
    let array = &identifier.children()[1];
    assert_eq!(&(25..29), array.range());
    assert_eq!(
        2,
        *array.data().try_as_array_decl_ref().unwrap().arity()
    );
}

#[test]
fn array_suffixes_nest_from_left_to_right() {
    let tokens = TypeProgram::lex("A[,,][]").unwrap();
    let mut parsed = complete(type_ref_decl_parser(&tokens, 0), &tokens).unwrap();
    let inner: Type = ArrayType::new(3, RefType::new("A".to_string(), None).to_rc()).into();
    let expected: (Option<String>, Type) = (None, ArrayType::new(1, inner.to_rc()).into());
    assert_eq!(expected, parsed.calc_type(None));
    assert_eq!("A[,,][]", parsed.format_source());
}

#[test]
fn parsers_stop_where_the_grammar_stops() {
    let tokens = TypeProgram::lex("A<B,> C").unwrap();
    // A list has no trailing separator, so the arguments are given up.
    let (node, end) = type_ref_decl_parser(&tokens, 0).unwrap();
    assert_eq!(1, end);
    assert_eq!("A", node.format_source());
    assert!(complete(Some((node, end)), &tokens).is_none());
    assert!(type_ref_decl_parser(&tokens, 1).is_none());
    assert!(type_ref_decl_parser(&tokens, 5).unwrap().1 == 6);
    assert!(type_ref_decl_parser(&tokens, 6).is_none());
    assert!(type_ref_decl_parser(&tokens, 60).is_none());
    assert!(type_decl_parser(&tokens, 7).is_none());
    assert_eq!(9, type_program_parser(&tokens, 9).1);
}

#[test]
fn formatting_gives_the_source_back_in_one_style() {
    let source = "static  cache:Map<Key,Value[]>; type Gen<T:A+B,U>:Base<T>+Other{static count:Int;Make<V>(...T,(U)=>void):(T);}";
    let tokens = TypeProgram::lex(source).unwrap();
    let program = parse_tokens(&tokens).unwrap();
    let expected = "static cache: Map<Key, Value[]>;\n\ntype Gen<T: A + B, U>: Base<T> + Other {\nstatic count: Int;\nMake<V>(...T, (U) => void): (T);\n}";
    assert_eq!(expected, program.format_source());

    // The text in that style reads as a program of the same shape.
    let again = parse_tokens(&TypeProgram::lex(expected).unwrap()).unwrap();
    assert!(program.program_equivalent(&again));
    assert_eq!(expected, again.format_source());
}

#[test]
fn shape_is_compared_as_far_as_both_lists_go() {
    let one = parse_tokens(&TypeProgram::lex("type A;").unwrap()).unwrap();
    let two = parse_tokens(&TypeProgram::lex("type A; type B;").unwrap()).unwrap();
    let other = parse_tokens(&TypeProgram::lex("type C; type B;").unwrap()).unwrap();
    assert!(one.program_equivalent(&two));
    assert!(two.program_equivalent(&one));
    assert!(!two.program_equivalent(&other));

    let symbol = SymbolNode::new("A".to_string()).to_ast_debug();
    assert!(!symbol.program_equivalent(&one));
    assert!(symbol.program_equivalent(&StAst::new(
        5..9,
        NodeData::SymbolNode(SymbolNode::new("A".to_string()))
    )));
}

#[test]
fn semantic_tokens_have_the_length_of_their_bytes() {
    let tokens = lex_source("static  ...x").unwrap();
    assert_eq!(
        SemanticToken::new(SemanticType::Keyword, 0, 6, 6),
        tokens[0].into_semantic_token()
    );
    assert_eq!(
        SemanticToken::new(SemanticType::Operator, 8, 11, 3),
        tokens[1].into_semantic_token()
    );
    assert_eq!(
        SemanticToken::new(SemanticType::Variable, 11, 12, 1),
        tokens[2].into_semantic_token()
    );
    assert_eq!(SemanticType::Nothing, lex_source(";").unwrap()[0].semantic_type());
    assert_eq!(
        SemanticToken::new(SemanticType::Nothing, 0, 0, 0),
        StToken::Whitespace.into_semantic_token()
    );
}

#[test]
fn semantics_name_types_and_methods() {
    let actual = analyze_program_semantics_internal(
        "type ns::List<T: Base> { static Push<U>(...T): ns::List<T>; }",
    );
    let expected = vec![
        SemanticToken::new(SemanticType::Keyword, 0, 4, 4),
        SemanticToken::new(SemanticType::Type, 5, 7, 2),
        SemanticToken::new(SemanticType::Type, 7, 9, 2),
        SemanticToken::new(SemanticType::Type, 9, 13, 4),
        SemanticToken::new(SemanticType::Type, 14, 15, 1),
        SemanticToken::new(SemanticType::Type, 17, 21, 4),
        SemanticToken::new(SemanticType::Keyword, 25, 31, 6),
        SemanticToken::new(SemanticType::Method, 32, 36, 4),
        SemanticToken::new(SemanticType::Type, 37, 38, 1),
        SemanticToken::new(SemanticType::Operator, 40, 43, 3),
        SemanticToken::new(SemanticType::Type, 43, 44, 1),
        SemanticToken::new(SemanticType::Type, 47, 49, 2),
        SemanticToken::new(SemanticType::Type, 49, 51, 2),
        SemanticToken::new(SemanticType::Type, 51, 55, 4),
        SemanticToken::new(SemanticType::Type, 56, 57, 1),
    ];
    assert_eq!(expected, actual);
}

#[test]
fn semantic_legend_lists_every_meaning() {
    assert_eq!(
        vec!["none", "type", "variable", "keyword", "operator", "method"],
        get_token_semantic_types()
    );
    assert_eq!(6, SemanticType::all_variants().len());
    assert_eq!("Nothing", format!("{:?}", SemanticType::all_variants()[0]));
    assert_eq!("None", SemanticType::Nothing.to_text());
    assert_eq!("Method", SemanticType::Method.to_text());
}

#[test]
fn unscoped_tokens_split_the_scope_sign_and_are_numbered() {
    let tokens = lex_type_program("a::b ;").unwrap();
    assert_eq!(5, tokens.len());
    assert_eq!(
        TypeToken::Symbol(StTokenInfo::new(0..1, "a".to_string(), 0)),
        tokens[0]
    );
    assert_eq!(
        TypeToken::Colon(StTokenInfo::new(1..2, ":".to_string(), 1)),
        tokens[1]
    );
    assert_eq!(
        TypeToken::Colon(StTokenInfo::new(2..3, ":".to_string(), 2)),
        tokens[2]
    );
    assert_eq!(
        TypeToken::Symbol(StTokenInfo::new(3..4, "b".to_string(), 3)),
        tokens[3]
    );
    assert_eq!(
        TypeToken::Semicolon(StTokenInfo::new(5..6, ";".to_string(), 4)),
        tokens[4]
    );
    assert!(tokens[0].semantic_type() == SemanticType::Variable);
    assert!(!tokens[1].is_op() && !tokens[1].is_keyword());
    assert_eq!(
        SemanticToken::new(SemanticType::Nothing, 5, 6, 1),
        tokens[4].into_semantic_token()
    );
    assert_eq!(Err(CompileError::LexError), lex_type_program("a ? b"));
}

#[test]
fn token_information_can_be_changed_in_place() {
    let mut tokens = lex_type_program("static").unwrap();
    assert!(tokens[0].is_keyword());
    tokens[0].get_info_mut().index = 7;
    assert_eq!(7, tokens[0].get_info().index);
    assert_eq!("static", tokens[0].to_text());

    let mut token = lex_source("+").unwrap().remove(0);
    assert!(token.is_op());
    token.get_info_mut().index = 3;
    assert_eq!(3, token.get_info().index);
    assert_eq!("+", token.to_text());
    assert_eq!("<whitespace>", StToken::Whitespace.to_text());
    assert_eq!(token, token.clone());
}

#[test]
fn expression_lexer_fails_on_what_begins_no_token() {
    assert_eq!(Err(()), lex_expression("a @ b"));
    assert_eq!(Err(()), lex_expression("a1.b ? (c)"));
    assert_eq!(Err(()), lex_expression("caf\u{e9}.x"));
    assert_eq!(Err(()), lex_expression("a\rb"));
    assert_eq!(Err(()), lex_expression("9"));
    assert_eq!(Err(()), lex_expression("a / b"));
}

#[test]
fn expression_lexer_reads_tokens_and_skips_whitespace() {
    let tokens = lex_expression("a1.b  (c)\t\\ caf\n.\u{c}x").unwrap();
    let texts: Vec<&str> = tokens
        .iter()
        .map(|t| t.get_token_info().source.as_str())
        .collect();
    assert_eq!(vec!["a1", ".", "b", "(", "c", ")", "\\", "caf", ".", "x"], texts);
    assert!(matches!(tokens[1], ExpressionToken::DotOp(_)));
    assert!(matches!(tokens[6], ExpressionToken::DivOp(_)));
    assert_eq!(0..2, tokens[0].token_info().span);
    assert_eq!(6..7, tokens[3].token_info().span);
    assert_eq!(12..15, tokens[7].token_info().span);
    assert_eq!(-1, tokens[0].token_info().index);
    assert!(lex_expression("").unwrap().is_empty());
    assert!(lex_expression("  \n").unwrap().is_empty());

    let signs = lex_expression("[]+-*").unwrap();
    assert!(matches!(signs[0], ExpressionToken::OpenAngle(_)));
    assert!(matches!(signs[1], ExpressionToken::ClosedAngle(_)));
    assert!(matches!(signs[2], ExpressionToken::AddOp(_)));
    assert!(matches!(signs[3], ExpressionToken::MinusOp(_)));
    assert!(matches!(signs[4], ExpressionToken::MulOp(_)));
}

fn names(pairs: &[(&str, &str)]) -> NameMap {
    NameMap::from_entries(
        pairs
            .iter()
            .map(|(a, b)| (a.to_string(), b.to_string()))
            .collect(),
    )
}

#[test]
fn scopes_resolve_names_through_the_scopes_around() {
    let program = ProgramType::new(Rc::new(TypeMap::new()));
    let global = Scope::from_program(&program);
    assert_eq!("T", global.resolve_generic_name("T"));

    let outer = global.push(names(&[("U", "String"), ("V", "U")]));
    let inner = outer.push(names(&[("T", "V"), ("W", "W2"), ("W2", "Int")]));
    assert_eq!("String", inner.resolve_generic_name("T"));
    assert_eq!("String", inner.resolve_generic_name("V"));
    assert_eq!("Int", inner.resolve_generic_name("W"));
    assert_eq!("Other", inner.resolve_generic_name("Other"));
    assert_eq!(Some("Int".to_string()), inner.try_resolve_generic_name("W2"));

    assert_eq!("X", inner.to_global_ref().resolve_generic_name("X"));
    assert_eq!("U", inner.to_global_ref().resolve_generic_name("U"));
    let back = inner.to_global();
    assert_eq!("V", back.resolve_generic_name("V"));
}

#[test]
fn scopes_give_up_on_names_that_stand_for_themselves() {
    let program = ProgramType::new(Rc::new(TypeMap::new()));
    let looping = Scope::from_program(&program).push(names(&[("A", "B"), ("B", "A")]));
    assert_eq!(None, looping.try_resolve_generic_name("A"));
    assert_eq!(Some("C".to_string()), looping.try_resolve_generic_name("C"));

    let own = Scope::from_program(&program).push(names(&[("T", "T")]));
    assert_eq!(None, own.try_resolve_generic_name("T"));

    let table = names(&[("x", "first"), ("x", "second")]);
    assert_eq!("second", table.get("x").unwrap());
    assert!(table.get("y").is_none());
    assert!(NameMap::new().get("x").is_none());
}

#[test]
fn typing_is_refused_where_a_rule_does_not_apply() {
    let parent: Type = GenericType::new("T".to_string()).into();

    // A bare symbol takes its type from above.
    let mut symbol = SymbolNode::new("a".to_string()).to_ast_debug();
    assert!(!symbol.is_typable(false));
    assert!(symbol.is_typable(true));
    assert!(symbol.has_name());
    assert_eq!(None, symbol.try_calc_type(None));
    assert!(symbol.cached_type.is_none());
    assert_eq!(
        Some((Some("a".to_string()), parent.clone())),
        symbol.try_calc_type(Some(&parent))
    );
    // Once a type is remembered, it is there without anything from above.
    assert!(symbol.is_typable(false));
    assert_eq!(
        Some((Some("a".to_string()), parent.clone())),
        symbol.try_calc_type(None)
    );

    // An array over a bare symbol hands nothing down to it.
    let mut array =
        ArrayDecl::new(1, SymbolNode::new("a".to_string()).to_ast_boxed_debug()).to_ast_debug();
    assert!(!array.is_typable(true));
    assert!(!array.has_name());
    assert_eq!(None, array.try_calc_type(Some(&parent)));

    // A declaration needs a name node for its name.
    let tokens = TypeProgram::lex("A[]").unwrap();
    let unnamed = complete(type_ref_decl_parser(&tokens, 0), &tokens).unwrap();
    assert!(unnamed.is_typable(false));
    let mut decl = TypeDecl::new(Box::new(unnamed), None, None, None).to_ast_debug();
    assert!(!decl.is_typable(false));
    assert_eq!(None, decl.try_calc_type(None));

    // The statements of a program need names.
    let tokens = TypeProgram::lex("A[]").unwrap();
    let statement = complete(type_ref_decl_parser(&tokens, 0), &tokens).unwrap();
    let mut program = TypeProgramNode::new(vec![statement]).to_ast_debug();
    assert!(!program.is_typable(false));
    assert_eq!(None, program.try_calc_type(None));

    // What the parser reads can always be typed.
    let tokens = TypeProgram::lex("type A<T> { f: T; g(...T): A<T>; } static a: A<A<T>>;").unwrap();
    let mut parsed = parse_tokens(&tokens).unwrap();
    assert!(parsed.is_typable(false));
    assert!(parsed.try_calc_type(None).is_some());
}
