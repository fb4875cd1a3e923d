use std::rc::Rc;

use sol::st_parser::{
    complete, field_parser, identifier_decl_parser, method_parser, parse_tokens,
    type_decl_parser, type_ref_decl_parser,
};
use sol::type_program::TypeProgram;
use sol::types::{
    ArrayType, FieldType, GenericType, MethodOverloadType, MethodParamType, MethodType,
    ObjectType, ProgramType, RefType, Type, TypeImpl, TypeMap,
};

#[test]
fn can_calc_type_ref() {
  let source = "String";
  let tokens = TypeProgram::lex(source).unwrap();
  let mut parsed = complete(type_ref_decl_parser(&tokens, 0), &tokens).unwrap();

  let parsed_type = parsed.calc_type(None);

  let expected: (Option<String>, Type) = (None, RefType::new("String".to_string(), None).into());

  assert_eq!(expected, parsed_type);
}

#[test]
fn can_calc_type_ref_with_param() {
  let source = "IEnumerable<String>";
  let tokens = TypeProgram::lex(source).unwrap();
  let mut parsed = complete(type_ref_decl_parser(&tokens, 0), &tokens).unwrap();

  let parsed_type = parsed.calc_type(None);

  let expected: (Option<String>, Type) = (
    None,
    RefType::new(
      "IEnumerable".to_string(),
      Some(vec![Rc::new(
        RefType::new("String".to_string(), None).into(),
      )]),
    )
    .into(),
  );

  assert_eq!(expected, parsed_type);
}

#[test]
fn can_calc_type_ref_with_multi_param() {
  let source = "IDictionary<Int, String>";
  let tokens = TypeProgram::lex(source).unwrap();
  let mut parsed = complete(type_ref_decl_parser(&tokens, 0), &tokens).unwrap();

  let parsed_type = parsed.calc_type(None);

  let expected: (Option<String>, Type) = (
    None,
    RefType::new(
      "IDictionary".to_string(),
      Some(vec![
        Rc::new(RefType::new("Int".to_string(), None).into()),
        Rc::new(RefType::new("String".to_string(), None).into()),
      ]),
    )
    .into(),
  );

  assert_eq!(expected, parsed_type);
}

#[test]
fn sym_name_resolves_correctly() {
  let source = "IDictionary<Int, String>";
  let tokens = TypeProgram::lex(source).unwrap();
  let mut parsed = complete(type_ref_decl_parser(&tokens, 0), &tokens).unwrap();

  parsed.calc_type(None);

  let result = parsed
    .data()
    .try_as_type_ref_decl_ref()
    .unwrap()
    .name()
    .get_type();

  let expected: (Option<String>, Type) = (
    Some("IDictionary".to_string()),
    RefType::new(
      "IDictionary".to_string(),
      Some(vec![
        Rc::new(RefType::new("Int".to_string(), None).into()),
        Rc::new(RefType::new("String".to_string(), None).into()),
      ]),
    )
    .into(),
  );

  assert_eq!(expected, result);
}

#[test]
fn can_calc_arr_type() {
  let source = "String[]";
  let tokens = TypeProgram::lex(source).unwrap();
  let mut parsed = complete(type_ref_decl_parser(&tokens, 0), &tokens).unwrap();

  let result = parsed.calc_type(None);

  let expected: (Option<String>, Type) = (
    None,
    ArrayType::new(1, Rc::new(RefType::new("String".to_string(), None).into())).into(),
  );

  assert_eq!(expected, result);
}

#[test]
fn can_calc_arr_type_with_arity() {
  let source = "String[,]";
  let tokens = TypeProgram::lex(source).unwrap();
  let mut parsed = complete(type_ref_decl_parser(&tokens, 0), &tokens).unwrap();

  let result = parsed.calc_type(None);

  let expected: (Option<String>, Type) = (
    None,
    ArrayType::new(2, Rc::new(RefType::new("String".to_string(), None).into())).into(),
  );

  assert_eq!(expected, result);
}

#[test]
fn can_calc_lambda_type() {
  let source = "() => void";
  let tokens = TypeProgram::lex(source).unwrap();

  let mut parsed = complete(type_ref_decl_parser(&tokens, 0), &tokens).unwrap();

  let result = parsed.calc_type(None);

  assert_eq!(
    (
      None,
      MethodType::new(vec![MethodOverloadType::new(vec![], None, None).to_rc()]).into()
    ),
    result
  );
}

#[test]
fn can_calc_lambda_type_with_param() {
  let source = "(String) => void";
  let tokens = TypeProgram::lex(source).unwrap();

  let mut parsed = complete(type_ref_decl_parser(&tokens, 0), &tokens).unwrap();

  let result = parsed.calc_type(None);

  assert_eq!(
    (
      None,
      MethodType::new(vec![
        MethodOverloadType::new(
          vec![Rc::new(
            MethodParamType::new(
              Rc::new(RefType::new("String".to_string(), None).into()),
              false
            )
            .into()
          )],
          None,
          None
        )
        .to_rc()
      ])
      .into()
    ),
    result
  );
}

#[test]
fn can_calc_lambda_type_with_multi_param() {
  let source = "(String, String) => void";
  let tokens = TypeProgram::lex(source).unwrap();

  let mut parsed = complete(type_ref_decl_parser(&tokens, 0), &tokens).unwrap();

  let result = parsed.calc_type(None);

  assert_eq!(
    (
      None,
      MethodType::new(vec![
        MethodOverloadType::new(
          vec![
            Rc::new(
              MethodParamType::new(
                Rc::new(RefType::new("String".to_string(), None).into()),
                false
              )
              .into()
            ),
            Rc::new(
              MethodParamType::new(
                Rc::new(RefType::new("String".to_string(), None).into()),
                false
              )
              .into()
            ),
          ],
          None,
          None
        )
        .to_rc()
      ])
      .into()
    ),
    result
  );
}

#[test]
fn can_calc_lambda_type_with_generic_param() {
  let source = "<T>() => void";
  let tokens = TypeProgram::lex(source).unwrap();

  let mut parsed = complete(type_ref_decl_parser(&tokens, 0), &tokens).unwrap();

  let result = parsed.calc_type(None);

  assert_eq!(
    (
      None,
      MethodType::new(vec![
        MethodOverloadType::new(
          vec![],
          Some(vec![Rc::new(GenericType::new("T".to_string()).into())]),
          None
        )
        .to_rc()
      ])
      .into()
    ),
    result
  );
}

#[test]
fn can_calc_lambda_type_with_multi_generic_param() {
  let source = "<T, U>() => void";
  let tokens = TypeProgram::lex(source).unwrap();

  let mut parsed = complete(type_ref_decl_parser(&tokens, 0), &tokens).unwrap();

  let result = parsed.calc_type(None);

  assert_eq!(
    (
      None,
      MethodType::new(vec![
        MethodOverloadType::new(
          vec![],
          Some(vec![
            Rc::new(GenericType::new("T".to_string()).into()),
            Rc::new(GenericType::new("U".to_string()).into())
          ]),
          None
        )
        .to_rc()
      ])
      .into()
    ),
    result
  );
}

#[test]
fn can_calc_lambda_type_with_return() {
  let source = "() => String";
  let tokens = TypeProgram::lex(source).unwrap();

  let mut parsed = complete(type_ref_decl_parser(&tokens, 0), &tokens).unwrap();

  let result = parsed.calc_type(None);

  assert_eq!(
    (
      None,
      MethodType::new(vec![
        MethodOverloadType::new(
          vec![],
          None,
          Some(Rc::new(RefType::new("String".to_string(), None).into()))
        )
        .to_rc()
      ])
      .into()
    ),
    result
  );
}

#[test]
fn can_calc_method_type() {
  let source = "Method();";
  let tokens = TypeProgram::lex(source).unwrap();

  let mut parsed = complete(method_parser(&tokens, 0), &tokens).unwrap();

  let result = parsed.calc_type(None);

  assert_eq!(
    (
      Some("Method".to_string()),
      MethodType::new(vec![MethodOverloadType::new(vec![], None, None).to_rc()]).into()
    ),
    result
  );
}

#[test]
fn can_calc_method_type_with_param() {
  let source = "Method(String);";
  let tokens = TypeProgram::lex(source).unwrap();

  let mut parsed = complete(method_parser(&tokens, 0), &tokens).unwrap();

  let result = parsed.calc_type(None);

  assert_eq!(
    (
      Some("Method".to_string()),
      MethodType::new(vec![
        MethodOverloadType::new(
          vec![Rc::new(
            MethodParamType::new(
              Rc::new(RefType::new("String".to_string(), None).into()),
              false
            )
            .into()
          )],
          None,
          None
        )
        .to_rc()
      ])
      .into()
    ),
    result
  );
}

#[test]
fn can_calc_method_type_with_multi_param() {
  let source = "Method(String, String);";
  let tokens = TypeProgram::lex(source).unwrap();

  let mut parsed = complete(method_parser(&tokens, 0), &tokens).unwrap();

  let result = parsed.calc_type(None);

  assert_eq!(
    (
      Some("Method".to_string()),
      MethodType::new(vec![
        MethodOverloadType::new(
          vec![
            Rc::new(
              MethodParamType::new(
                Rc::new(RefType::new("String".to_string(), None).into()),
                false
              )
              .into()
            ),
            Rc::new(
              MethodParamType::new(
                Rc::new(RefType::new("String".to_string(), None).into()),
                false
              )
              .into()
            )
          ],
          None,
          None
        )
        .to_rc()
      ])
      .into()
    ),
    result
  );
}

#[test]
fn can_calc_method_type_with_generic_param() {
  let source = "Method<T>();";
  let tokens = TypeProgram::lex(source).unwrap();

  let mut parsed = complete(method_parser(&tokens, 0), &tokens).unwrap();

  let result = parsed.calc_type(None);

  assert_eq!(
    (
      Some("Method".to_string()),
      MethodType::new(vec![
        MethodOverloadType::new(
          vec![],
          Some(vec![Rc::new(GenericType::new("T".to_string()).into())]),
          None
        )
        .to_rc()
      ])
      .into()
    ),
    result
  );
}

#[test]
fn can_calc_method_type_with_multi_generic_param() {
  let source = "Method<T, U>();";
  let tokens = TypeProgram::lex(source).unwrap();

  let mut parsed = complete(method_parser(&tokens, 0), &tokens).unwrap();

  let result = parsed.calc_type(None);

  assert_eq!(
    (
      Some("Method".to_string()),
      MethodType::new(vec![
        MethodOverloadType::new(
          vec![],
          Some(vec![
            Rc::new(GenericType::new("T".to_string()).into()),
            Rc::new(GenericType::new("U".to_string()).into())
          ]),
          None
        )
        .to_rc()
      ])
      .into()
    ),
    result
  );
}

#[test]
fn can_calc_method_type_with_return() {
  let source = "Method(): String;";
  let tokens = TypeProgram::lex(source).unwrap();

  let mut parsed = complete(method_parser(&tokens, 0), &tokens).unwrap();

  let result = parsed.calc_type(None);

  assert_eq!(
    (
      Some("Method".to_string()),
      MethodType::new(vec![
        MethodOverloadType::new(
          vec![],
          None,
          Some(Rc::new(RefType::new("String".to_string(), None).into()))
        )
        .to_rc()
      ])
      .into()
    ),
    result
  );
}

#[test]
fn method_name_resolves_correctly() {
  let source = "Method();";
  let tokens = TypeProgram::lex(source).unwrap();

  let mut parsed = complete(method_parser(&tokens, 0), &tokens).unwrap();

  parsed.calc_type(None);

  let method_name_type = parsed
    .data()
    .try_as_method_decl_ref()
    .unwrap()
    .name()
    .get_type();

  assert_eq!(
    (
      Some("Method".to_string()),
      MethodType::new(vec![MethodOverloadType::new(vec![], None, None).to_rc()]).into()
    ),
    method_name_type
  );
}

#[test]
fn can_calc_identifier_type() {
  let source = "ident: String";
  let tokens = TypeProgram::lex(source).unwrap();

  let mut parsed = complete(identifier_decl_parser(&tokens, 0), &tokens).unwrap();

  let actual = parsed.calc_type(None);

  assert_eq!(
    (
      Some("ident".to_string()),
      RefType::new("String".to_string(), None).into()
    ),
    actual
  )
}

#[test]
fn identifier_name_resolves_correctly() {
  let source = "ident: String";
  let tokens = TypeProgram::lex(source).unwrap();

  let mut parsed = complete(identifier_decl_parser(&tokens, 0), &tokens).unwrap();

  parsed.calc_type(None);

  let identifier_type = parsed
    .data()
    .try_as_identifier_decl_ref()
    .unwrap()
    .name()
    .get_type();

  assert_eq!(
    (
      Some("ident".to_string()),
      RefType::new("String".to_string(), None).into()
    ),
    identifier_type
  )
}

#[test]
fn can_calc_field_decl_type() {
  let source = "ident: String;";
  let tokens = TypeProgram::lex(source).unwrap();

  let mut parsed = complete(field_parser(&tokens, 0), &tokens).unwrap();

  let actual = parsed.calc_type(None);

  assert_eq!(
    (
      Some("ident".to_string()),
      FieldType::new(
        Rc::new(RefType::new("String".to_string(), None).into()),
        false
      )
      .into()
    ),
    actual
  )
}

#[test]
fn can_calc_type_decl_type() {
  let source = "type Class { field: String; Method(): String; }";
  let tokens = TypeProgram::lex(source).unwrap();

  let mut parsed = complete(type_decl_parser(&tokens, 0), &tokens).unwrap();

  let actual = parsed.calc_type(None);

  assert_eq!(
    (
      Some("Class".to_string()),
      ObjectType::new(
        "Class".to_string(),
        None,
        None,
        TypeMap::from_entries(vec![
          (
            "field".to_string(),
            Rc::new(
              FieldType::new(
                Rc::new(RefType::new("String".to_string(), None).into()),
                false
              )
              .into()
            )
          ),
          (
            "Method".to_string(),
            Rc::new(
              MethodType::new(vec![
                MethodOverloadType::new(
                  vec![],
                  None,
                  Some(Rc::new(RefType::new("String".to_string(), None).into()))
                )
                .to_rc()
              ])
              .into()
            )
          )
        ])
      )
      .into()
    ),
    actual
  )
}

#[test]
fn can_calc_type_program_type() {
  let source = "static staticField: String;
  type Class { field: String; Method(): String; }";
  let tokens = TypeProgram::lex(source).unwrap();

  let mut parsed = parse_tokens(&tokens).unwrap();

  let actual = parsed.calc_type(None);

  assert_eq!(
    (
      None,
      ProgramType::new(Rc::new(TypeMap::from_entries(vec![
        (
          "staticField".to_string(),
          Rc::new(RefType::new("String".to_string(), None).into())
        ),
        (
          "Class".to_string(),
          Rc::new(
            ObjectType::new(
              "Class".to_string(),
              None,
              None,
              TypeMap::from_entries(vec![
                (
                  "field".to_string(),
                  Rc::new(
                    FieldType::new(
                      Rc::new(RefType::new("String".to_string(), None).into()),
                      false
                    )
                    .into()
                  )
                ),
                (
                  "Method".to_string(),
                  Rc::new(
                    MethodType::new(vec![
                      MethodOverloadType::new(
                        vec![],
                        None,
                        Some(Rc::new(RefType::new("String".to_string(), None).into()))
                      )
                      .to_rc()
                    ])
                    .into()
                  )
                )
              ])
            )
            .into()
          )
        )
      ])))
      .into()
    ),
    actual
  )
}
