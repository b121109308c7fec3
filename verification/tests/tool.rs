use gemini_live_api::tool::{
    argument_parse_failure, missing_argument, serialization_failure, tool_arguments, unit_result,
    value_result, get_description_from_attrs, get_result_types, is_arc_type, rust_type_to_schema_info,
    tool_function, AttrMetaRepr, AttributeRepr, FnArgRepr, GenericArgumentRepr, LiteralRepr,
    PathArgumentsRepr, PathSegmentRepr, ReturnRepr, ToolFnRepr, ToolReturn, TypePathRepr,
    TypeRepr, TypedArgRepr,
};

fn simple(name: &str) -> TypeRepr {
    generic(false, &[name], None)
}

fn generic(leading_colon: bool, names: &[&str], args: Option<Vec<TypeRepr>>) -> TypeRepr {
    let n = names.len();
    let mut segments = Vec::new();
    let mut args = args;
    for (i, name) in names.iter().enumerate() {
        let arguments = if i + 1 == n {
            match args.take() {
                Some(a) => PathArgumentsRepr::AngleBracketed(
                    a.into_iter().map(GenericArgumentRepr::Type).collect(),
                ),
                None => PathArgumentsRepr::NoArguments,
            }
        } else {
            PathArgumentsRepr::NoArguments
        };
        segments.push(PathSegmentRepr { ident: name.to_string(), arguments });
    }
    TypeRepr::Path(TypePathRepr { leading_colon, segments })
}

fn param(name: &str, ty: TypeRepr, text: &str) -> FnArgRepr {
    FnArgRepr::Typed(TypedArgRepr { ident: Some(name.to_string()), ty, ty_text: text.to_string() })
}

fn doc(line: &str) -> AttributeRepr {
    AttributeRepr {
        is_doc: true,
        meta: AttrMetaRepr::NameValueLiteral(LiteralRepr::Str(line.to_string())),
    }
}

#[test]
fn scalar_schema_types() {
    assert_eq!(rust_type_to_schema_info(&simple("String")), Some(("STRING".to_string(), false)));
    for t in ["i32", "i64", "u32", "u64", "isize", "usize"] {
        assert_eq!(rust_type_to_schema_info(&simple(t)), Some(("INTEGER".to_string(), false)));
    }
    assert_eq!(rust_type_to_schema_info(&simple("f32")), Some(("NUMBER".to_string(), false)));
    assert_eq!(rust_type_to_schema_info(&simple("f64")), Some(("NUMBER".to_string(), false)));
    assert_eq!(rust_type_to_schema_info(&simple("bool")), Some(("BOOLEAN".to_string(), false)));
    assert_eq!(rust_type_to_schema_info(&simple("u8")), None);
    assert_eq!(rust_type_to_schema_info(&TypeRepr::Other), None);
}

#[test]
fn optional_schema_types() {
    let opt = generic(false, &["Option"], Some(vec![simple("String")]));
    assert_eq!(rust_type_to_schema_info(&opt), Some(("STRING".to_string(), true)));
    let qualified = generic(false, &["std", "option", "Option"], Some(vec![simple("i64")]));
    assert_eq!(rust_type_to_schema_info(&qualified), Some(("INTEGER".to_string(), true)));
    let nested = generic(false, &["Option"], Some(vec![generic(false, &["Option"], Some(vec![simple("bool")]))]));
    assert_eq!(rust_type_to_schema_info(&nested), Some(("BOOLEAN".to_string(), true)));
    let unsupported = generic(false, &["Option"], Some(vec![generic(false, &["Vec"], Some(vec![simple("i32")]))]));
    assert_eq!(rust_type_to_schema_info(&unsupported), None);
    assert_eq!(rust_type_to_schema_info(&simple("Option")), None);
}

#[test]
fn arc_types() {
    assert!(is_arc_type(&generic(false, &["Arc"], Some(vec![simple("State")]))));
    assert!(is_arc_type(&generic(false, &["std", "sync", "Arc"], Some(vec![simple("State")]))));
    assert!(is_arc_type(&generic(true, &["std", "sync", "Arc"], Some(vec![simple("State")]))));
    assert!(!is_arc_type(&generic(false, &["alloc", "sync", "Arc"], Some(vec![simple("State")]))));
    assert!(!is_arc_type(&generic(false, &["sync", "Arc"], Some(vec![simple("State")]))));
    assert!(!is_arc_type(&simple("Arc")));
    assert!(!is_arc_type(&generic(false, &["Rc"], Some(vec![simple("State")]))));
}

#[test]
fn result_types() {
    let r = generic(false, &["Result"], Some(vec![simple("f64"), simple("String")]));
    let (ok, err) = get_result_types(&r).unwrap();
    assert_eq!(ok, &simple("f64"));
    assert_eq!(err, &simple("String"));
    assert!(get_result_types(&generic(false, &["Result"], Some(vec![simple("f64")]))).is_none());
    assert!(get_result_types(&simple("f64")).is_none());
}

#[test]
fn description_from_doc_comments() {
    let attrs = vec![
        doc(" Adds two numbers."),
        AttributeRepr { is_doc: false, meta: AttrMetaRepr::Other },
        doc("   Returns their sum.  "),
    ];
    assert_eq!(
        get_description_from_attrs(&attrs),
        Ok("Adds two numbers.\nReturns their sum.".to_string())
    );
}

#[test]
fn description_errors() {
    assert_eq!(
        get_description_from_attrs(&[]),
        Err("Missing description: Add a /// doc comment above the function.".to_string())
    );
    let bad_literal = AttributeRepr {
        is_doc: true,
        meta: AttrMetaRepr::NameValueLiteral(LiteralRepr::Other),
    };
    assert_eq!(
        get_description_from_attrs(&[doc("x"), bad_literal]),
        Err("Expected string literal in doc attribute".to_string())
    );
    let bad_form = AttributeRepr { is_doc: true, meta: AttrMetaRepr::Other };
    assert_eq!(
        get_description_from_attrs(&[bad_form, doc("y")]),
        Err("Unsupported doc attribute format. Use /// comment or #[doc = \"...\"]".to_string())
    );
}

fn divide() -> ToolFnRepr {
    ToolFnRepr {
        name: "divide".to_string(),
        is_async: true,
        inputs: vec![param("numerator", simple("f64"), "f64"), param("denominator", simple("f64"), "f64")],
        output: ReturnRepr::Type(generic(false, &["Result"], Some(vec![simple("f64"), simple("String")]))),
    }
}

#[test]
fn plan_of_a_stateless_tool() {
    let plan = tool_function(Ok("Calculates the division of two numbers".to_string()), divide()).unwrap();
    let d = &plan.declaration;
    assert_eq!(d.name, "divide");
    assert_eq!(d.description, "Calculates the division of two numbers");
    let schema = d.parameters.as_ref().unwrap();
    assert_eq!(schema.schema_type, "OBJECT");
    let props = schema.properties.as_ref().unwrap();
    assert_eq!(props.len(), 2);
    assert_eq!(props[0].0, "numerator");
    assert_eq!(props[0].1.schema_type, "NUMBER");
    assert_eq!(props[1].0, "denominator");
    assert_eq!(schema.required, Some(vec!["numerator".to_string(), "denominator".to_string()]));
    assert_eq!(schema.description, None);
    assert_eq!(plan.state_type, None);
    assert_eq!(plan.params.len(), 2);
    assert_eq!(plan.params[1].input_index, 1);
    assert!(!plan.params[0].optional);
    assert_eq!(plan.result_form, ToolReturn::Result);
}

#[test]
fn plan_of_a_tool_with_state_and_optional_parameter() {
    let f = ToolFnRepr {
        name: "sum".to_string(),
        is_async: true,
        inputs: vec![
            FnArgRepr::Typed(TypedArgRepr {
                ident: Some("state".to_string()),
                ty: generic(false, &["Arc"], Some(vec![simple("AppState")])),
                ty_text: "Arc<AppState>".to_string(),
            }),
            param("a", simple("f64"), "f64"),
            param("b", generic(false, &["Option"], Some(vec![simple("f64")])), "Option<f64>"),
        ],
        output: ReturnRepr::Type(simple("f64")),
    };
    let plan = tool_function(Ok("Sums".to_string()), f).unwrap();
    assert_eq!(plan.state_type, Some(simple("AppState")));
    assert_eq!(plan.params.len(), 2);
    assert_eq!(plan.params[0].name, "a");
    assert_eq!(plan.params[0].input_index, 1);
    assert_eq!(plan.params[1].name, "b");
    assert!(plan.params[1].optional);
    assert_eq!(plan.params[1].input_index, 2);
    let schema = plan.declaration.parameters.unwrap();
    assert_eq!(schema.required, Some(vec!["a".to_string()]));
    assert_eq!(plan.result_form, ToolReturn::Value);
}

#[test]
fn plan_of_a_tool_without_parameters() {
    let f = ToolFnRepr {
        name: "ping".to_string(),
        is_async: true,
        inputs: vec![],
        output: ReturnRepr::Default,
    };
    let plan = tool_function(Ok("Pings".to_string()), f).unwrap();
    let schema = plan.declaration.parameters.unwrap();
    assert_eq!(schema.schema_type, "OBJECT");
    assert_eq!(schema.properties, None);
    assert_eq!(schema.required, None);
    assert_eq!(plan.result_form, ToolReturn::Unit);
}

#[test]
fn tool_function_errors() {
    let mut not_async = divide();
    not_async.is_async = false;
    assert_eq!(
        tool_function(Ok("d".to_string()), not_async),
        Err("Tool function must be async".to_string())
    );
    assert_eq!(
        tool_function(Err("expected string literal".to_string()), divide()),
        Err("expected string literal".to_string())
    );
    let mut unsupported = divide();
    unsupported.inputs.push(param("data", generic(false, &["Vec"], Some(vec![simple("u8")])), "Vec < u8 >"));
    assert_eq!(
        tool_function(Ok("d".to_string()), unsupported),
        Err("Unsupported parameter type for schema: Vec < u8 >".to_string())
    );
    let mut receiver = divide();
    receiver.inputs.insert(1, FnArgRepr::Receiver);
    assert_eq!(
        tool_function(Ok("d".to_string()), receiver),
        Err("Unsupported argument type (expected typed ident)".to_string())
    );
    let mut pattern = divide();
    pattern.inputs[0] = FnArgRepr::Typed(TypedArgRepr { ident: None, ty: simple("f64"), ty_text: "f64".to_string() });
    assert_eq!(
        tool_function(Ok("d".to_string()), pattern),
        Err("Parameter must be a simple ident".to_string())
    );
    let bare_arc = ToolFnRepr {
        name: "t".to_string(),
        is_async: true,
        inputs: vec![FnArgRepr::Typed(TypedArgRepr {
            ident: Some("s".to_string()),
            ty: TypeRepr::Path(TypePathRepr {
                leading_colon: false,
                segments: vec![PathSegmentRepr {
                    ident: "Arc".to_string(),
                    arguments: PathArgumentsRepr::AngleBracketed(vec![GenericArgumentRepr::Other]),
                }],
            }),
            ty_text: "Arc<'a>".to_string(),
        })],
        output: ReturnRepr::Default,
    };
    assert_eq!(
        tool_function(Ok("d".to_string()), bare_arc),
        Err("Arc state argument must have a generic type parameter, e.g., Arc<MyState>".to_string())
    );
}

fn object(entries: Vec<(&str, serde_json::Value)>) -> serde_json::Value {
    let mut map = serde_json::Map::new();
    for (k, v) in entries {
        map.insert(k.to_string(), v);
    }
    serde_json::Value::Object(map)
}

#[test]
fn tool_arguments_must_be_an_object() {
    let args = object(vec![("a", serde_json::Value::from(1))]);
    let map = tool_arguments(Some(args), 1).unwrap();
    assert_eq!(map.get("a"), Some(&serde_json::Value::from(1)));
    assert_eq!(
        tool_arguments(Some(serde_json::Value::from(5)), 1),
        Err(format!("Tool arguments must be a JSON object, got: {:?}", serde_json::Value::from(5)))
    );
    assert_eq!(
        tool_arguments(None, 2),
        Err("Tool requires arguments, but none were provided.".to_string())
    );
    assert!(tool_arguments(None, 0).unwrap().is_empty());
}

#[test]
fn tool_argument_complaints() {
    assert_eq!(missing_argument("a"), "Missing required argument 'a'");
    assert_eq!(argument_parse_failure("a", false, "bad"), "Failed to parse required argument 'a': bad");
    assert_eq!(argument_parse_failure("b", true, "bad"), "Failed to parse optional argument 'b': bad");
    assert_eq!(serialization_failure(None, "x"), "Failed to serialize success result: x");
    assert_eq!(serialization_failure(Some("Foo"), "x"), "Failed to serialize function result type Foo: x");
}

#[test]
fn tool_results() {
    assert_eq!(unit_result(), object(vec![]));
    assert_eq!(value_result(serde_json::Value::from(2.5)), object(vec![("result", serde_json::Value::from(2.5))]));
}

#[test]
fn schema_copies_are_deep() {
    let inner = gemini_live_api::types::Schema { schema_type: "STRING".to_string(), ..Default::default() };
    let outer = gemini_live_api::types::Schema {
        schema_type: "OBJECT".to_string(),
        properties: Some(vec![("name".to_string(), inner)]),
        required: Some(vec!["name".to_string()]),
        description: Some("d".to_string()),
    };
    assert_eq!(outer.copy(), outer);
    assert_eq!(outer.clone(), outer);
}
