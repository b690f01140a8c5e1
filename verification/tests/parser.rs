use acsl::ast::declaration::Declaration;
use acsl::ast::expression::Expression;
use acsl::ast::statement::Statement;
use acsl::ast::AbstractSyntaxTree;
use acsl::lexer::LexerError;
use acsl::parser::{parse, ParserError};
use acsl::stream::Stream;
use acsl::tokens::TokenClass;

fn parsed(source: &str) -> AbstractSyntaxTree {
    match parse(source) {
        Ok(tree) => tree,
        Err(error) => panic!("{}", error.to_string()),
    }
}

fn rejected(source: &str) -> ParserError {
    match parse(source) {
        Ok(tree) => panic!("parsed: {}", tree.to_string()),
        Err(error) => error,
    }
}

/// The expression of `const x = <source>;` as a diagnostic writes it.
fn expression(source: &str) -> String {
    let tree = parsed(&format!("const x = {};", source));
    match &tree.declarations()[0] {
        Declaration::Constant(name, expression) => {
            assert_eq!(name, "x");
            expression.to_string()
        }
        _ => panic!("no constant"),
    }
}

#[test]
fn empty_text_is_the_empty_program() {
    assert!(parsed("").declarations().is_empty());
    assert!(parsed(" \n\t ").declarations().is_empty());
    assert_eq!(parsed("").to_string(), "Abstract Syntax Tree:\n");
    assert!(AbstractSyntaxTree::new().declarations().is_empty());
}

#[test]
fn product_binds_tighter_than_sum() {
    assert_eq!(expression("1.0 + 2.0 * 3.0"), "(1 + (2 * 3))");
    assert_eq!(expression("1.0 * 2.0 + 3.0"), "((1 * 2) + 3)");
    assert_eq!(expression("a * b - c * d"), "((a * b) - (c * d))");
}

#[test]
fn operators_group_to_the_left() {
    assert_eq!(expression("1.0 - 2.0 - 3.0"), "((1 - 2) - 3)");
    assert_eq!(expression("a + b - c + d"), "(((a + b) - c) + d)");
    assert_eq!(expression("a * b * c"), "((a * b) * c)");
}

#[test]
fn parentheses_group() {
    assert_eq!(expression("(1.0 + 2.0) * 3.0"), "((1 + 2) * 3)");
    assert_eq!(expression("a - (b - c)"), "(a - (b - c))");
    assert_eq!(expression("((a))"), "a");
}

#[test]
fn member_access_binds_tightest_and_chains() {
    assert_eq!(expression("a.b * c.d"), "(a.b * c.d)");
    assert_eq!(expression("a.b.c.d"), "a.b.c.d");
    assert_eq!(expression("f(x).y.z"), "f(x).y.z");
    assert_eq!(expression("(a + b).x"), "(a + b).x");
    assert_eq!(expression("S { a: b }.a"), "S {a: b}.a");
    let tree = parsed("const x = a.b.c;");
    match &tree.declarations()[0] {
        Declaration::Constant(_, Expression::MemberAccess(inner, last)) => {
            assert_eq!(last, "c");
            match &**inner {
                Expression::MemberAccess(variable, first) => {
                    assert_eq!(first, "b");
                    assert!(matches!(&**variable, Expression::Variable(name) if name == "a"));
                }
                _ => panic!("no member access"),
            }
        }
        _ => panic!("no member access"),
    }
}

#[test]
fn calls_take_arguments() {
    assert_eq!(expression("f(a)"), "f(a)");
    assert_eq!(expression("f(a, b + c, g(d))"), "f(a, (b + c), g(d))");
    assert_eq!(expression("float4(1.0, 0.5, 0.25, 1.0)"), "float4(1, 0.5, 0.25, 1)");
    let tree = parsed("const x = f(a, 2.5);");
    match &tree.declarations()[0] {
        Declaration::Constant(_, Expression::FunctionCall(name, arguments)) => {
            assert_eq!(name, "f");
            assert_eq!(arguments.len(), 2);
            assert!(matches!(&arguments[0], Expression::Variable(name) if name == "a"));
            assert!(
                matches!(&arguments[1], Expression::FloatLiteral(value) if value.to_string() == "2.5")
            );
        }
        _ => panic!("no call"),
    }
}

#[test]
fn call_without_arguments_has_none() {
    let tree = parsed("const x = f();");
    match &tree.declarations()[0] {
        Declaration::Constant(_, Expression::FunctionCall(name, arguments)) => {
            assert_eq!(name, "f");
            assert!(arguments.is_empty());
        }
        _ => panic!("no call"),
    }
    assert_eq!(expression("f()"), "f()");
    assert_eq!(expression("f() + g()"), "(f() + g())");
}

#[test]
fn struct_creation_takes_initializers() {
    assert_eq!(expression("S { a: 1.0, b: x }"), "S {a: 1, b: x}");
    assert_eq!(expression("S { a: 1.0, b: x, }"), "S {a: 1, b: x}");
    assert_eq!(expression("S {}"), "S {}");
    assert_eq!(expression("S { a: T { b: c } }"), "S {a: T {b: c}}");
    let tree = parsed("const x = S { a: y };");
    match &tree.declarations()[0] {
        Declaration::Constant(_, Expression::StructCreation(name, initializers)) => {
            assert_eq!(name, "S");
            assert_eq!(initializers.len(), 1);
            assert_eq!(initializers[0].0, "a");
            assert!(matches!(&initializers[0].1, Expression::Variable(name) if name == "y"));
        }
        _ => panic!("no struct creation"),
    }
}

#[test]
fn token_that_starts_no_expression_is_the_empty_expression() {
    let tree = parsed("const x = ;");
    assert!(matches!(&tree.declarations()[0], Declaration::Constant(_, Expression::Empty)));
    let tree = parsed("fn f() { return; }");
    match &tree.declarations()[0] {
        Declaration::Function(_, _, _, _) => {}
        _ => panic!("no function"),
    }
    assert_eq!(tree.to_string(), "Abstract Syntax Tree:\n  - Function f()\n      - return \n");
}

#[test]
fn integer_is_no_expression() {
    match rejected("const x = 1;") {
        ParserError::UnexpectedToken(token) => {
            assert!(matches!(token.class(), TokenClass::IntegerLiteral(1)));
            assert_eq!((token.line(), token.column()), (1, 11));
        }
        other => panic!("{:?}", other),
    }
}

#[test]
fn constant_is_parsed() {
    let tree = parsed("const gravity = 9.81;");
    assert_eq!(tree.declarations().len(), 1);
    assert_eq!(tree.to_string(), "Abstract Syntax Tree:\n  - Constant \"gravity\" = 9.81\n");
}

#[test]
fn constant_buffer_is_parsed() {
    let tree = parsed("cbuffer xforms : Mats : 3;");
    match &tree.declarations()[0] {
        Declaration::ConstantBuffer(name, slot, named_type) => {
            assert_eq!(name, "xforms");
            assert_eq!(*slot, 3);
            assert_eq!(named_type, "Mats");
        }
        _ => panic!("no constant buffer"),
    }
    assert_eq!(
        tree.to_string(),
        "Abstract Syntax Tree:\n  - Constant Buffer \"xforms\" @ 3 (Mats)\n"
    );
}

#[test]
fn texture_is_parsed() {
    let tree = parsed("texture<uint> ids : 7; texture albedo : 0;");
    match &tree.declarations()[0] {
        Declaration::Texture(name, slot, element) => {
            assert_eq!(name, "ids");
            assert_eq!(*slot, 7);
            assert_eq!(element, "uint");
        }
        _ => panic!("no texture"),
    }
    match &tree.declarations()[1] {
        Declaration::Texture(name, slot, element) => {
            assert_eq!(name, "albedo");
            assert_eq!(*slot, 0);
            assert_eq!(element, "float4");
        }
        _ => panic!("no texture"),
    }
    assert_eq!(
        tree.to_string(),
        "Abstract Syntax Tree:\n  - Texture<uint> \"ids\" @ 7\n  - Texture<float4> \"albedo\" @ 0\n"
    );
}

#[test]
fn type_alias_is_parsed() {
    let tree = parsed("type Color = float4;");
    match &tree.declarations()[0] {
        Declaration::TypeAlias(name, named_type) => {
            assert_eq!(name, "Color");
            assert_eq!(named_type, "float4");
        }
        _ => panic!("no alias"),
    }
    assert_eq!(tree.to_string(), "Abstract Syntax Tree:\n  - Type Alias Color = float4\n");
}

#[test]
fn struct_is_parsed() {
    let tree = parsed(
        "struct A { x: float, y: float2 }\nstruct B { p: float4 : SV_POSITION, uv: float2 : TEXCOORD0, }\nstruct C {}\nstruct D { a: float, }",
    );
    match &tree.declarations()[0] {
        Declaration::Struct(name, members) => {
            assert_eq!(name, "A");
            assert_eq!(
                members,
                &vec![
                    ("x".to_string(), "float".to_string(), None),
                    ("y".to_string(), "float2".to_string(), None)
                ]
            );
        }
        _ => panic!("no struct"),
    }
    match &tree.declarations()[1] {
        Declaration::Struct(name, members) => {
            assert_eq!(name, "B");
            assert_eq!(
                members,
                &vec![
                    ("p".to_string(), "float4".to_string(), Some("SV_POSITION".to_string())),
                    ("uv".to_string(), "float2".to_string(), Some("TEXCOORD0".to_string()))
                ]
            );
        }
        _ => panic!("no struct"),
    }
    assert!(matches!(&tree.declarations()[2], Declaration::Struct(name, members) if name == "C" && members.is_empty()));
    assert!(matches!(&tree.declarations()[3], Declaration::Struct(name, members) if name == "D" && members.len() == 1));
    assert_eq!(
        tree.to_string(),
        "Abstract Syntax Tree:\n  - Structure \"A\"\n      - x: float\n      - y: float2\n  - Structure \"B\"\n      - p: float4 : SV_POSITION\n      - uv: float2 : TEXCOORD0\n  - Structure \"C\"\n  - Structure \"D\"\n      - a: float\n"
    );
}

#[test]
fn function_is_parsed() {
    let tree = parsed(
        "fn f(a: float, mut b: float2) -> float {\n    let c = a;\n    let mut d = b.x;\n    d = c * 2.0;\n    return d;\n}\nfn g() { }\nfn h(mut first: float) { }",
    );
    match &tree.declarations()[0] {
        Declaration::Function(name, parameters, return_type, _) => {
            assert_eq!(name, "f");
            assert_eq!(
                parameters,
                &vec![
                    ("a".to_string(), "float".to_string(), false),
                    ("b".to_string(), "float2".to_string(), true)
                ]
            );
            assert_eq!(return_type, &Some("float".to_string()));
        }
        _ => panic!("no function"),
    }
    match &tree.declarations()[1] {
        Declaration::Function(name, parameters, return_type, _) => {
            assert_eq!(name, "g");
            assert!(parameters.is_empty());
            assert_eq!(return_type, &None);
        }
        _ => panic!("no function"),
    }
    match &tree.declarations()[2] {
        Declaration::Function(_, parameters, _, _) => {
            assert_eq!(parameters, &vec![("first".to_string(), "float".to_string(), true)]);
        }
        _ => panic!("no function"),
    }
    assert_eq!(
        tree.to_string(),
        "Abstract Syntax Tree:\n  - Function f(a: float, b: float2) -> float\n      - let c = a\n      - let mut d = b.x\n      - d = (c * 2)\n      - return d\n  - Function g()\n  - Function h(first: float)\n"
    );
}

#[test]
fn statements_are_parsed() {
    let mut stream = Stream::new("return a + b; x = y; let z = 1.0; let mut w = f(z);");
    let mut read = Vec::new();
    while let Some(token) = acsl::lexer::next_token(&mut stream).unwrap() {
        read.push(Statement::parse(&mut stream, token).unwrap());
    }
    assert_eq!(read.len(), 4);
    assert!(matches!(&read[0], Statement::Return(Expression::Add(_, _))));
    assert!(matches!(&read[1], Statement::Assignment(name, Expression::Variable(value)) if name == "x" && value == "y"));
    assert!(matches!(&read[2], Statement::VariableDefinition(name, Expression::FloatLiteral(_), false) if name == "z"));
    assert!(matches!(&read[3], Statement::VariableDefinition(name, Expression::FunctionCall(_, _), true) if name == "w"));
    let written: Vec<String> = read.iter().map(|statement| statement.to_string()).collect();
    assert_eq!(
        written,
        vec!["return (a + b)\n", "x = y\n", "let z = 1\n", "let mut w = f(z)\n"]
    );
}

#[test]
fn declarations_keep_their_order() {
    let tree = parsed(
        "const a = 1.0; struct B { x: float } type C = float; fn d() { } cbuffer e : B : 0; texture f : 1;",
    );
    let kinds: Vec<&str> = tree
        .declarations()
        .iter()
        .map(|declaration| match declaration {
            Declaration::Function(..) => "function",
            Declaration::Struct(..) => "struct",
            Declaration::ConstantBuffer(..) => "cbuffer",
            Declaration::Texture(..) => "texture",
            Declaration::TypeAlias(..) => "alias",
            Declaration::Constant(..) => "constant",
        })
        .collect();
    assert_eq!(kinds, vec!["constant", "struct", "alias", "function", "cbuffer", "texture"]);
}

#[test]
fn text_may_not_end_inside_a_declaration() {
    for source in [
        "fn",
        "fn f",
        "fn f(",
        "fn f(a",
        "fn f(a:",
        "fn f(a: float",
        "fn f(a: float,",
        "fn f()",
        "fn f() ->",
        "fn f() -> float",
        "fn f() {",
        "fn f() { return",
        "fn f() { return a",
        "fn f() { let",
        "fn f() { let mut",
        "fn f() { let a =",
        "fn f() { a",
        "fn f() { a = b;",
        "struct",
        "struct S",
        "struct S {",
        "struct S { a",
        "struct S { a:",
        "struct S { a: float",
        "struct S { a: float :",
        "struct S { a: float : SEM",
        "struct S { a: float,",
        "cbuffer",
        "cbuffer a",
        "cbuffer a :",
        "cbuffer a : T",
        "cbuffer a : T :",
        "cbuffer a : T : 0",
        "texture",
        "texture <",
        "texture < float",
        "texture < float >",
        "texture a",
        "texture a :",
        "texture a : 0",
        "type",
        "type A",
        "type A =",
        "type A = float",
        "const",
        "const a",
        "const a =",
        "const a = 1.0",
        "const a = f(",
        "const a = f(b",
        "const a = f(b,",
        "const a = f(b)",
        "const a = S {",
        "const a = S { b",
        "const a = S { b:",
        "const a = S { b: c",
        "const a = S { b: c }",
        "const a = b.",
        "const a = b.c",
        "const a = (",
        "const a = (b",
        "const a = (b)",
        "const a = b *",
        "const a = b +",
    ] {
        assert!(matches!(rejected(source), ParserError::UnexpectedEOF), "{:?}", source);
    }
}

fn unexpected(source: &str) -> String {
    match rejected(source) {
        ParserError::UnexpectedToken(token) => token.to_string(),
        other => panic!("{:?}: {:?}", source, other),
    }
}

#[test]
fn unexpected_token_is_named_with_its_position() {
    assert_eq!(unexpected("foo"), "\"foo\" at 1:1");
    assert_eq!(unexpected("return"), "return at 1:1");
    assert_eq!(unexpected("let x = 1.0;"), "let at 1:1");
    assert_eq!(unexpected("\n  12"), "12 at 2:3");
    assert_eq!(unexpected("fn 3"), "3 at 1:4");
    assert_eq!(unexpected("fn f )"), ") at 1:6");
    assert_eq!(unexpected("fn f(3)"), "3 at 1:6");
    assert_eq!(unexpected("fn f(a b)"), "\"b\" at 1:8");
    assert_eq!(unexpected("fn f(a: 3)"), "3 at 1:9");
    assert_eq!(unexpected("fn f(a: float b)"), "\"b\" at 1:15");
    assert_eq!(unexpected("fn f() float {}"), "\"float\" at 1:8");
    assert_eq!(unexpected("fn f() -> {}"), "{ at 1:11");
    assert_eq!(unexpected("fn f() -> float ;"), "; at 1:17");
    assert_eq!(unexpected("fn f() { 3 }"), "3 at 1:10");
    assert_eq!(unexpected("fn f() { return a }"), "} at 1:19");
    assert_eq!(unexpected("fn f() { a b; }"), "\"b\" at 1:12");
    assert_eq!(unexpected("fn f() { a = b }"), "} at 1:16");
    assert_eq!(unexpected("fn f() { let 3 = b; }"), "3 at 1:14");
    assert_eq!(unexpected("fn f() { let mut = b; }"), "= at 1:18");
    assert_eq!(unexpected("fn f() { let a b; }"), "\"b\" at 1:16");
    assert_eq!(unexpected("fn f() { let a = b }"), "} at 1:20");
    assert_eq!(unexpected("struct 3"), "3 at 1:8");
    assert_eq!(unexpected("struct S ;"), "; at 1:10");
    assert_eq!(unexpected("struct S { 3 }"), "3 at 1:12");
    assert_eq!(unexpected("struct S { a float }"), "\"float\" at 1:14");
    assert_eq!(unexpected("struct S { a: 3 }"), "3 at 1:15");
    assert_eq!(unexpected("struct S { a: float b }"), "\"b\" at 1:21");
    assert_eq!(unexpected("struct S { a: float : 3 }"), "3 at 1:23");
    assert_eq!(unexpected("struct S { a: float : SEM b }"), "\"b\" at 1:27");
    assert_eq!(unexpected("cbuffer 3"), "3 at 1:9");
    assert_eq!(unexpected("cbuffer a = T : 0;"), "= at 1:11");
    assert_eq!(unexpected("cbuffer a : 3 : 0;"), "3 at 1:13");
    assert_eq!(unexpected("cbuffer a : T ; 0;"), "; at 1:15");
    assert_eq!(unexpected("cbuffer a : T : b;"), "\"b\" at 1:17");
    assert_eq!(unexpected("cbuffer a : T : 1.5;"), "1.5 at 1:17");
    assert_eq!(unexpected("cbuffer a : T : 0 }"), "} at 1:19");
    assert_eq!(unexpected("texture 3"), "3 at 1:9");
    assert_eq!(unexpected("texture < 3"), "3 at 1:11");
    assert_eq!(unexpected("texture < float a"), "\"a\" at 1:17");
    assert_eq!(unexpected("texture < float > 3"), "3 at 1:19");
    assert_eq!(unexpected("texture a 0;"), "0 at 1:11");
    assert_eq!(unexpected("texture a : b;"), "\"b\" at 1:13");
    assert_eq!(unexpected("texture a : 0 0"), "0 at 1:15");
    assert_eq!(unexpected("type 3"), "3 at 1:6");
    assert_eq!(unexpected("type A : float;"), ": at 1:8");
    assert_eq!(unexpected("type A = 3;"), "3 at 1:10");
    assert_eq!(unexpected("type A = float }"), "} at 1:16");
    assert_eq!(unexpected("const 3"), "3 at 1:7");
    assert_eq!(unexpected("const a : 1.0;"), ": at 1:9");
    assert_eq!(unexpected("const a = 1.0 }"), "} at 1:15");
    assert_eq!(unexpected("const a = (b;"), "; at 1:13");
    assert_eq!(unexpected("const a = f(b;"), "; at 1:14");
    assert_eq!(unexpected("const a = S { 3 };"), "3 at 1:15");
    assert_eq!(unexpected("const a = S { b c };"), "\"c\" at 1:17");
    assert_eq!(unexpected("const a = S { b: c d };"), "\"d\" at 1:20");
    assert_eq!(unexpected("const a = b.3;"), "0.3 at 1:12");
    assert_eq!(unexpected("const a = b. 3;"), "3 at 1:14");
    assert_eq!(unexpected("const a = b.c.(;"), "( at 1:15");
}

#[test]
fn lexer_error_stops_the_parser() {
    assert!(matches!(
        rejected("const x = @;"),
        ParserError::LexerError(LexerError::UnknownCharacter('@', 11, 1))
    ));
    assert!(matches!(
        rejected("const x = 1e;"),
        ParserError::LexerError(LexerError::NoExponentialDigits(12, 1))
    ));
    assert!(matches!(
        rejected("struct S { a: float } $"),
        ParserError::LexerError(LexerError::UnknownCharacter('$', 23, 1))
    ));
    assert!(matches!(
        rejected("#"),
        ParserError::LexerError(LexerError::UnknownCharacter('#', 1, 1))
    ));
    assert!(matches!(
        rejected("fn f() { return a; } // done"),
        ParserError::LexerError(LexerError::UnknownCharacter('/', 22, 1))
    ));
}

#[test]
fn first_error_wins() {
    // The parser stops at the first token that does not fit, before the
    // lexer reaches the character that it would reject.
    assert_eq!(unexpected("struct 3 @"), "3 at 1:8");
    assert!(matches!(rejected("struct @ 3"), ParserError::LexerError(_)));
}

#[test]
fn parser_errors_are_written() {
    assert_eq!(rejected("fn").to_string(), "Unexpected end of file");
    assert_eq!(rejected("fn 3").to_string(), "Unexpected token 3 at 1:4");
    assert_eq!(rejected("foo").to_string(), "Unexpected token \"foo\" at 1:1");
    assert_eq!(rejected("const x = @;").to_string(), "Unknown character '@' at 1:11");
    assert_eq!(rejected("const x = 1e;").to_string(), "Exponent has no digits at 1:12");
}
