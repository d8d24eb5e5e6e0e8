//! The macros whose assertion follows from the return type.

use assert_fn::error::GenerationError;
use assert_fn::synth::assert_fn;
use assert_fn::syntax::FunctionDeclaration;
use assert_fn::syntax::GenericArgument;
use assert_fn::syntax::Lit;
use assert_fn::syntax::Meta;
use assert_fn::syntax::MetaList;
use assert_fn::syntax::MetaNameValue;
use assert_fn::syntax::NestedMeta;
use assert_fn::syntax::Path;
use assert_fn::syntax::PathArguments;
use assert_fn::syntax::PathSegment;
use assert_fn::syntax::TypeExpr;

fn path(ident: &str, arguments: PathArguments) -> Path {
    Path { segments: vec![PathSegment { ident: ident.to_string(), arguments }] }
}

fn named(ident: &str) -> TypeExpr {
    TypeExpr::Path(path(ident, PathArguments::Empty))
}

fn tuple_of(idents: &[&str]) -> TypeExpr {
    TypeExpr::Tuple(idents.iter().map(|ident| named(ident)).collect())
}

fn result_of(ok: TypeExpr) -> TypeExpr {
    let arguments = vec![GenericArgument::Type(ok), GenericArgument::Type(TypeExpr::Tuple(vec![]))];
    TypeExpr::Path(path("Result", PathArguments::AngleBracketed(arguments)))
}

fn declaration(name: &str, arity: usize, output: TypeExpr, source: &str) -> FunctionDeclaration {
    FunctionDeclaration {
        name: name.to_string(),
        arity,
        output: Some(output),
        is_async: false,
        source: source.to_string(),
    }
}

fn name(ident: &str) -> NestedMeta {
    NestedMeta::Meta(Meta::Path(path(ident, PathArguments::Empty)))
}

fn text(value: &str) -> NestedMeta {
    NestedMeta::Lit(Lit::Str(value.to_string()))
}

fn message(nested: Vec<NestedMeta>) -> NestedMeta {
    NestedMeta::Meta(Meta::List(MetaList { path: path("message", PathArguments::Empty), nested }))
}

/// The lines that open and close the block around the checks of each arm.
fn borrow_lines(text: &str) -> Vec<String> {
    let lines: Vec<&str> = text.split('\n').collect();
    [6, 11, 18, 22].iter().map(|at| lines[*at as usize].to_string()).collect()
}

const BORROWED: [&str; 4] = [
    "                { let result = &result;",
    "                }",
    "                { let result = &result;",
    "                }",
];

const NOT_BORROWED: [&str; 4] =
    ["                ", "                ", "                ", "                "];

/// The lines of the first arm from the guard to its end.
fn exact_checks(text: &str) -> Vec<String> {
    let lines: Vec<&str> = text.split('\n').collect();
    lines[7..11].iter().map(|line| line.to_string()).collect()
}

/// The lines of the second arm from the guard to its end.
fn override_checks(text: &str) -> Vec<String> {
    let lines: Vec<&str> = text.split('\n').collect();
    lines[19..22].iter().map(|line| line.to_string()).collect()
}

const IS_TEN_PAIR: &str = "fn is_ten(num: usize) -> (usize, usize) { (num, 10) }";

fn is_ten(num: usize) -> (usize, usize) {
    (num, 10)
}

#[test]
fn a_pair_is_compared() {
    let item = declaration("is_ten", 1, tuple_of(&["usize", "usize"]), IS_TEN_PAIR);
    let lines = [
        "",
        "        #[macro_export]",
        "        macro_rules! assert_is_ten {",
        "            ($arg_0:expr$(,)?) => {  {",
        "                let result = is_ten($arg_0);",
        "",
        "                { let result = &result;",
        "                ",
        "                ",
        "                assert_eq!(result.0, result.1);",
        "                ",
        "                }",
        "",
        "                result",
        "            }};",
        "            ($arg_0:expr,$($arg:tt)+) => {  {",
        "                let result = is_ten($arg_0);",
        "",
        "                { let result = &result;",
        "                ",
        "                assert_eq!(result.0, result.1, $($arg)*);",
        "                ",
        "                }",
        "",
        "                result",
        "            }};",
        "        }",
        "",
        "        fn is_ten(num: usize) -> (usize, usize) { (num, 10) }",
        "    ",
    ];
    assert_eq!(assert_fn(&[], &item), Ok(lines.join("\n")));

    // assert_is_ten!(10) raises nothing and gives the pair back.
    let result = {
        let result = is_ten(10);
        {
            let result = &result;
            assert_eq!(result.0, result.1);
        }
        result
    };
    assert_eq!(result, (10, 10));
    // assert_is_ten!(9) would compare 9 with 10.
    let result = is_ten(9);
    assert_ne!(result.0, result.1);
}

fn it_can_copy() -> Result<(String, String), ()> {
    Ok(("Test1".to_string(), "Test1".to_string()))
}

#[test]
fn it_can_return_a_result_of_something_that_doesnt_implement_copy() {
    let source = "fn it_can_copy() -> Result<(String, String), ()> { Ok((\"Test1\".to_string(), \"Test1\".to_string())) }";
    let item = declaration("it_can_copy", 0, result_of(tuple_of(&["String", "String"])), source);
    let lines = [
        "",
        "        #[macro_export]",
        "        macro_rules! assert_it_can_copy {",
        "            ($(,)?) => {  {",
        "                let result = it_can_copy();",
        "",
        "                { let result = &result;",
        "                if let Ok(result) = result {",
        "                ",
        "                assert_eq!(result.0, result.1);",
        "                }",
        "                }",
        "",
        "                result",
        "            }};",
        "            ($($arg:tt)+) => {  {",
        "                let result = it_can_copy();",
        "",
        "                { let result = &result;",
        "                if let Ok(result) = result {",
        "                assert_eq!(result.0, result.1, $($arg)*);",
        "                }",
        "                }",
        "",
        "                result",
        "            }};",
        "        }",
        "",
        "        fn it_can_copy() -> Result<(String, String), ()> { Ok((\"Test1\".to_string(), \"Test1\".to_string())) }",
        "    ",
    ];
    assert_eq!(assert_fn(&[], &item), Ok(lines.join("\n")));

    // assert_it_can_copy!("test"): no argument, so the tokens are a message.
    let handed_back = {
        let result = it_can_copy();
        {
            let result = &result;
            if let Ok(result) = result {
                assert_eq!(result.0, result.1, "test");
            }
        }
        result
    };
    assert_eq!(handed_back, Ok(("Test1".to_string(), "Test1".to_string())));
}

#[test]
fn a_boolean_is_asserted() {
    let source = "fn is_ten(num: usize) -> bool { num == 10 }";
    let item = declaration("is_ten", 1, named("bool"), source);
    let text = assert_fn(&[], &item).unwrap();
    assert_eq!(exact_checks(&text), ["                ", "                ", "                assert!(result);", "                "]);
    assert_eq!(
        override_checks(&text),
        ["                ", "                assert!(result, $($arg)*);", "                "]
    );
    assert!(!text.contains("assert_eq!"));
}

#[test]
fn a_template_follows_the_assertion() {
    let source = "fn is_ten(num: usize) -> bool { num == 10 }";
    let item = declaration("is_ten", 1, named("bool"), source);
    let args = [message(vec![text("That wasn't ten")])];
    let generated = assert_fn(&args, &item).unwrap();
    assert_eq!(exact_checks(&generated)[2], "                assert!(result, \"That wasn't ten\");");
    assert_eq!(override_checks(&generated)[1], "                assert!(result, $($arg)*);");

    let item = declaration("is_ten", 1, tuple_of(&["usize", "usize"]), IS_TEN_PAIR);
    let args = [message(vec![text("Doh!")])];
    let generated = assert_fn(&args, &item).unwrap();
    assert_eq!(exact_checks(&generated)[1], "                ");
    assert_eq!(
        exact_checks(&generated)[2],
        "                assert_eq!(result.0, result.1, \"Doh!\");"
    );
}

#[test]
fn named_elements_reach_the_template() {
    let source = "fn is_ten(num: usize) -> (usize, usize, isize) { (num, 10, num as isize-10) }";
    let item = declaration("is_ten", 1, tuple_of(&["usize", "usize", "isize"]), source);
    let args =
        [message(vec![text("The difference was `{diff}`"), name("_"), name("_"), name("diff")])];
    let generated = assert_fn(&args, &item).unwrap();
    assert_eq!(
        exact_checks(&generated),
        [
            "                ",
            "                let (_, _, diff) = result;",
            "                assert_eq!(result.0, result.1, \"The difference was `{diff}`\", diff=diff);",
            "                ",
        ]
    );
    assert_eq!(
        override_checks(&generated)[1],
        "                assert_eq!(result.0, result.1, $($arg)*);"
    );

    // What the first arm does with 9: the message ends in the difference.
    let result = (9usize, 10usize, -1isize);
    {
        let result = &result;
        let (_, _, diff) = result;
        assert_eq!(
            format!("The difference was `{diff}`", diff = diff),
            "The difference was `-1`"
        );
    }
    assert_eq!(result, (9, 10, -1));
}

#[test]
fn later_elements_need_no_placeholder() {
    let source = "fn is_ten(num: usize) -> (usize, usize, String) { (num, 10, \"Some other useful value\".to_string()) }";
    let item = declaration("is_ten", 1, tuple_of(&["usize", "usize", "String"]), source);
    let args = [message(vec![text("{num} wasn't quite right"), name("num")])];
    let generated = assert_fn(&args, &item).unwrap();
    assert_eq!(exact_checks(&generated)[1], "                let (num, _, _) = result;");
    assert_eq!(
        exact_checks(&generated)[2],
        "                assert_eq!(result.0, result.1, \"{num} wasn't quite right\", num=num);"
    );
    assert_eq!(borrow_lines(&generated), BORROWED);

    // assert_is_ten!(10): the pattern binds by reference, and the string comes back.
    let (_, _, value) = {
        let result = (10usize, 10usize, "Some other useful value".to_string());
        {
            let result = &result;
            let (num, _, _) = result;
            assert_eq!(result.0, result.1, "{num} wasn't quite right", num = num);
        }
        result
    };
    assert_eq!(&value, "Some other useful value");
}

fn names(first: &str, second: &str) -> Result<(String, String, String), String> {
    Ok((first.to_string(), second.to_string(), format!("{} or {}", first, second)))
}

#[test]
fn the_checks_leave_the_result_whole() {
    let source = "fn names(first: &str, second: &str) -> Result<(String, String, String), String> { Ok((first.to_string(), second.to_string(), format!(\"{} or {}\", first, second))) }";
    let item = declaration("names", 2, result_of(tuple_of(&["String", "String", "String"])), source);
    let args = [message(vec![text("{both}"), name("_"), name("_"), name("both")])];
    let generated = assert_fn(&args, &item).unwrap();
    assert_eq!(borrow_lines(&generated), BORROWED);
    assert_eq!(
        exact_checks(&generated),
        [
            "                if let Ok(result) = result {",
            "                let (_, _, both) = result;",
            "                assert_eq!(result.0, result.1, \"{both}\", both=both);",
            "                }",
        ]
    );

    // assert_names!("a", "a"): every element is still there afterwards.
    let handed_back = {
        let result = names("a", "a");
        {
            let result = &result;
            if let Ok(result) = result {
                let (_, _, both) = result;
                assert_eq!(result.0, result.1, "{both}", both = both);
            }
        }
        result
    };
    assert_eq!(handed_back, Ok(("a".to_string(), "a".to_string(), "a or a".to_string())));

    // A boolean is copied, so its checks need no block; the error comes back whole.
    let item = declaration("f", 0, result_of(named("bool")), "fn f() -> Result<bool, String> { Ok(true) }");
    let generated = assert_fn(&[], &item).unwrap();
    assert_eq!(borrow_lines(&generated), NOT_BORROWED);
    let handed_back = {
        let result: Result<bool, String> = Err("unknown".to_string());
        if let Ok(result) = result {
            assert!(result);
        }
        result
    };
    assert_eq!(handed_back, Err("unknown".to_string()));
    let item = declaration("f", 0, named("bool"), "fn f() -> bool { true }");
    assert_eq!(borrow_lines(&assert_fn(&[], &item).unwrap()), NOT_BORROWED);
    let item = declaration("f", 0, tuple_of(&["u8", "u8"]), "fn f() -> (u8, u8) { (1, 1) }");
    assert_eq!(borrow_lines(&assert_fn(&[], &item).unwrap()), BORROWED);
}

#[test]
fn several_names_are_handed_on_in_order() {
    let item = declaration("f", 0, result_of(tuple_of(&["u8", "u8", "u8", "u8"])), "fn f() {}");
    let args = [message(vec![text("{b} {a}"), name("a"), name("_"), name("b")])];
    let generated = assert_fn(&args, &item).unwrap();
    assert_eq!(
        exact_checks(&generated),
        [
            "                if let Ok(result) = result {",
            "                let (a, _, b, _) = result;",
            "                assert_eq!(result.0, result.1, \"{b} {a}\", a=a, b=b);",
            "                }",
        ]
    );
}

#[test]
fn bindings_that_name_nothing_bind_nothing() {
    let item = declaration("f", 0, tuple_of(&["u8", "u8"]), "fn f() {}");
    let args = [message(vec![text("plain"), name("_"), name("_")])];
    let generated = assert_fn(&args, &item).unwrap();
    assert_eq!(exact_checks(&generated)[1], "                ");
    assert_eq!(exact_checks(&generated)[2], "                assert_eq!(result.0, result.1, \"plain\");");

    // On a boolean such a directive is no error either.
    let item = declaration("f", 0, named("bool"), "fn f() {}");
    let generated = assert_fn(&args, &item).unwrap();
    assert_eq!(exact_checks(&generated)[2], "                assert!(result, \"plain\");");
}

#[test]
fn more_bindings_than_elements_are_all_written() {
    let item = declaration("f", 0, tuple_of(&["u8", "u8"]), "fn f() {}");
    let args = [message(vec![text("{c}"), name("a"), name("b"), name("c")])];
    let generated = assert_fn(&args, &item).unwrap();
    assert_eq!(exact_checks(&generated)[1], "                let (a, b, c) = result;");
}

#[test]
fn only_the_first_message_counts() {
    let item = declaration("f", 0, named("bool"), "fn f() {}");
    let args = [
        name("message"),
        text("stray"),
        message(vec![text("first")]),
        message(vec![text("second")]),
    ];
    let generated = assert_fn(&args, &item).unwrap();
    assert_eq!(exact_checks(&generated)[2], "                assert!(result, \"first\");");

    // A first message without a template gives no message, whatever follows.
    let args = [message(vec![name("oops")]), message(vec![text("second")])];
    let generated = assert_fn(&args, &item).unwrap();
    assert_eq!(exact_checks(&generated)[2], "                assert!(result);");
    let args = [message(vec![]), message(vec![text("second")])];
    let generated = assert_fn(&args, &item).unwrap();
    assert_eq!(exact_checks(&generated)[2], "                assert!(result);");
}

#[test]
fn the_message_is_found_by_the_end_of_its_path() {
    let item = declaration("f", 0, named("bool"), "fn f() {}");
    let long = Path {
        segments: vec![
            PathSegment { ident: "assert_fn".to_string(), arguments: PathArguments::Empty },
            PathSegment { ident: "message".to_string(), arguments: PathArguments::Empty },
        ],
    };
    let args = [NestedMeta::Meta(Meta::List(MetaList { path: long, nested: vec![text("found")] }))];
    let generated = assert_fn(&args, &item).unwrap();
    assert_eq!(exact_checks(&generated)[2], "                assert!(result, \"found\");");

    // `message = "text"` is no message list.
    let args = [NestedMeta::Meta(Meta::NameValue(MetaNameValue {
        path: path("message", PathArguments::Empty),
        lit: Lit::Str("not here".to_string()),
    }))];
    let generated = assert_fn(&args, &item).unwrap();
    assert_eq!(exact_checks(&generated)[2], "                assert!(result);");
}

#[test]
fn what_is_no_name_is_passed_over() {
    let item = declaration("f", 0, tuple_of(&["u8", "u8", "u8"]), "fn f() {}");
    let args = [message(vec![
        text("{x}"),
        text("a literal"),
        NestedMeta::Lit(Lit::Other),
        name("_"),
        message(vec![text("nested")]),
        NestedMeta::Meta(Meta::Path(Path { segments: vec![] })),
        name("x"),
    ])];
    let generated = assert_fn(&args, &item).unwrap();
    assert_eq!(exact_checks(&generated)[1], "                let (_, x, _) = result;");
    assert_eq!(
        exact_checks(&generated)[2],
        "                assert_eq!(result.0, result.1, \"{x}\", x=x);"
    );
}

#[test]
fn an_async_function_is_awaited() {
    let source = "async fn is_ten(num: usize) -> (usize, usize) { (num, 10) }";
    let mut item = declaration("is_ten", 1, tuple_of(&["usize", "usize"]), source);
    item.is_async = true;
    let generated = assert_fn(&[], &item).unwrap();
    let lines: Vec<&str> = generated.split('\n').collect();
    assert_eq!(lines[3], "            ($arg_0:expr$(,)?) => { async {");
    assert_eq!(lines[4], "                let result = is_ten($arg_0).await;");
    assert_eq!(lines[15], "            ($arg_0:expr,$($arg:tt)+) => { async {");
    assert_eq!(lines[16], "                let result = is_ten($arg_0).await;");

    item.is_async = false;
    let generated = assert_fn(&[], &item).unwrap();
    assert!(!generated.contains(".await"));
    assert!(!generated.contains("=> { async {"));
}

#[test]
fn arguments_are_passed_on_in_order() {
    let item = declaration("f", 0, named("bool"), "fn f() -> bool { true }");
    let generated = assert_fn(&[], &item).unwrap();
    let lines: Vec<&str> = generated.split('\n').collect();
    assert_eq!(lines[3], "            ($(,)?) => {  {");
    assert_eq!(lines[4], "                let result = f();");
    assert_eq!(lines[15], "            ($($arg:tt)+) => {  {");
    assert_eq!(lines[16], "                let result = f();");

    let item = declaration("g", 12, named("bool"), "fn g() {}");
    let generated = assert_fn(&[], &item).unwrap();
    let lines: Vec<&str> = generated.split('\n').collect();
    let matchers = "$arg_0:expr,$arg_1:expr,$arg_2:expr,$arg_3:expr,$arg_4:expr,$arg_5:expr,$arg_6:expr,$arg_7:expr,$arg_8:expr,$arg_9:expr,$arg_10:expr,$arg_11:expr";
    let call = "                let result = g($arg_0,$arg_1,$arg_2,$arg_3,$arg_4,$arg_5,$arg_6,$arg_7,$arg_8,$arg_9,$arg_10,$arg_11);";
    assert_eq!(lines[3], format!("            ({}$(,)?) => {{  {{", matchers));
    assert_eq!(lines[4], call);
    assert_eq!(lines[15], format!("            ({},$($arg:tt)+) => {{  {{", matchers));
    assert_eq!(lines[16], call);
}

#[test]
fn the_tokens_of_the_call_replace_the_message() {
    let source = "fn is_ten(num: usize) -> (usize, usize, isize) { (num, 10, num as isize-10) }";
    let item = declaration("is_ten", 1, tuple_of(&["usize", "usize", "isize"]), source);
    let plain = assert_fn(&[], &item).unwrap();
    let args = [message(vec![text("Default message {diff}"), name("_"), name("_"), name("diff")])];
    let with_message = assert_fn(&args, &item).unwrap();
    assert_ne!(plain, with_message);
    assert_eq!(override_checks(&plain), override_checks(&with_message));
    let second_arm = |text: &str| text.split('\n').skip(15).map(String::from).collect::<Vec<_>>();
    assert_eq!(second_arm(&plain), second_arm(&with_message));
    assert!(!second_arm(&with_message).join("\n").contains("Default message"));
    assert!(!second_arm(&with_message).join("\n").contains("diff"));
}

#[test]
fn the_same_input_gives_the_same_text() {
    let source = "fn is_ten(num: usize) -> Result<(usize, usize), ()> { Ok((num, 10)) }";
    let item = declaration("is_ten", 1, result_of(tuple_of(&["usize", "usize"])), source);
    let args = [message(vec![text("{left}"), name("left")])];
    let first = assert_fn(&args, &item);
    let second = assert_fn(&args, &item);
    assert!(first.is_ok());
    assert_eq!(first, second);

    let refused = declaration("is_ten", 1, named("usize"), source);
    assert_eq!(assert_fn(&args, &refused), assert_fn(&args, &refused));
}

#[test]
fn a_result_guards_the_checks_of_its_payload() {
    let bare = declaration("f", 2, tuple_of(&["u8", "u8", "u8"]), "fn f() {}");
    let wrapped = declaration("f", 2, result_of(tuple_of(&["u8", "u8", "u8"])), "fn f() {}");
    let args = [message(vec![text("{c}"), name("_"), name("_"), name("c")])];
    let bare = assert_fn(&args, &bare).unwrap();
    let wrapped = assert_fn(&args, &wrapped).unwrap();
    assert_eq!(exact_checks(&bare)[0], "                ");
    assert_eq!(exact_checks(&bare)[3], "                ");
    assert_eq!(exact_checks(&wrapped)[0], "                if let Ok(result) = result {");
    assert_eq!(exact_checks(&wrapped)[3], "                }");
    assert_eq!(exact_checks(&bare)[1..3], exact_checks(&wrapped)[1..3]);
    assert_eq!(override_checks(&bare)[1], override_checks(&wrapped)[1]);
    let lines: Vec<&str> = wrapped.split('\n').collect();
    assert_eq!(lines[13], "                result");
    assert_eq!(lines[24], "                result");
}

fn is_ten_if_known(num: Option<usize>) -> Result<(usize, usize), String> {
    match num {
        Some(num) => Ok((num, 10)),
        None => Err("unknown".to_string()),
    }
}

#[test]
fn a_failure_is_handed_back_without_a_check() {
    let source = "fn is_ten_if_known(num: Option<usize>) -> Result<(usize, usize), String> { num.map(|num| (num, 10)).ok_or(String::new()) }";
    let item = declaration("is_ten_if_known", 1, result_of(tuple_of(&["usize", "usize"])), source);
    let generated = assert_fn(&[], &item).unwrap();
    assert_eq!(
        exact_checks(&generated),
        [
            "                if let Ok(result) = result {",
            "                ",
            "                assert_eq!(result.0, result.1);",
            "                }",
        ]
    );

    // assert_is_ten_if_known!(None): the failure comes back as it is.
    let handed_back = {
        let result = is_ten_if_known(None);
        {
            let result = &result;
            if let Ok(result) = result {
                assert_eq!(result.0, result.1);
            }
        }
        result
    };
    assert_eq!(handed_back, Err("unknown".to_string()));

    // assert_is_ten_if_known!(Some(10)): the pair is compared, and comes back in its `Ok`.
    let handed_back = {
        let result = is_ten_if_known(Some(10));
        {
            let result = &result;
            if let Ok(result) = result {
                assert_eq!(result.0, result.1);
            }
        }
        result
    };
    assert_eq!(handed_back, Ok((10, 10)));
}

#[test]
fn a_function_without_return_type_is_refused() {
    let mut item = declaration("f", 0, TypeExpr::Other, "fn f() {}");
    item.output = None;
    assert_eq!(assert_fn(&[], &item), Err(GenerationError::MissingReturnType));
    assert_eq!(GenerationError::MissingReturnType.message("f"), "f has no return type");
}

#[test]
fn an_unknown_return_type_is_refused() {
    for output in [
        named("usize"),
        TypeExpr::Other,
        TypeExpr::Path(Path { segments: vec![] }),
        TypeExpr::Path(path("Option", PathArguments::AngleBracketed(vec![GenericArgument::Type(named("bool"))]))),
    ] {
        let item = declaration("check", 1, output, "fn check() {}");
        assert_eq!(assert_fn(&[], &item), Err(GenerationError::UnsupportedReturnType));
    }
    assert_eq!(
        GenerationError::UnsupportedReturnType.message("check"),
        "check must return a bool, tuple or a Result wrapping one of those types"
    );
}

#[test]
fn a_result_of_something_else_is_refused() {
    for output in [
        result_of(named("usize")),
        result_of(TypeExpr::Other),
        TypeExpr::Path(path("Result", PathArguments::Empty)),
        TypeExpr::Path(path("Result", PathArguments::Parenthesized)),
        TypeExpr::Path(path("Result", PathArguments::AngleBracketed(vec![]))),
        TypeExpr::Path(path("Result", PathArguments::AngleBracketed(vec![GenericArgument::Other, GenericArgument::Type(named("bool"))]))),
    ] {
        let item = declaration("check", 1, output, "fn check() {}");
        assert_eq!(assert_fn(&[], &item), Err(GenerationError::UnsupportedResultType));
    }
    assert_eq!(
        GenerationError::UnsupportedResultType.message("check"),
        "check must return a Result of type bool or tuple"
    );
}

#[test]
fn names_on_a_boolean_are_refused() {
    let args = [message(vec![text("{a}"), name("_"), name("a")])];
    for output in [named("bool"), result_of(named("bool"))] {
        let item = declaration("check", 1, output, "fn check() {}");
        assert_eq!(assert_fn(&args, &item), Err(GenerationError::BindingsOnBoolean));
    }
    assert_eq!(
        GenerationError::BindingsOnBoolean.message("check"),
        "check must return a tuple or a Result wrapping a tuple to use message args"
    );

    // The return type is looked at first.
    let item = declaration("check", 1, named("usize"), "fn check() {}");
    assert_eq!(assert_fn(&args, &item), Err(GenerationError::UnsupportedReturnType));
}
