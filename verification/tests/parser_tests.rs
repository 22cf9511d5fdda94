use tinyml::ast::{AstNode, AstPattern, BinOp, LiteralValue};
use tinyml::lexer::{Lexer, Token, TokenType};
use tinyml::parse_error::{ErrKind, ParseError};
use tinyml::parser::Parser;

fn lex(src: &str) -> Vec<Token> {
    Lexer::new(src.to_string()).tokenize()
}

fn parse(src: &str) -> Result<Box<AstNode>, ParseError> {
    Parser::new(lex(src)).parse()
}

fn tree(src: &str) -> String {
    format!("{:?}", parse(src).unwrap())
}

fn expr(src: &str) -> String {
    format!("{:?}", Parser::new(lex(src)).parse_expr().unwrap())
}

fn failure(src: &str) -> ParseError {
    parse(src).unwrap_err()
}

fn int_literal(text: &str) -> Box<AstNode> {
    Box::new(AstNode::Literal(LiteralValue::Integer(text.to_string())))
}

fn name(text: &str) -> Box<AstNode> {
    Box::new(AstNode::Id(text.to_string()))
}

#[test]
fn val_declaration_as_a_value() {
    let expected = AstNode::Program(vec![Box::new(AstNode::ValDecl {
        pat: AstPattern::Id("x".to_string()),
        typ: None,
        exp: int_literal("1"),
    })]);
    assert_eq!(*parse("val x = 1").unwrap(), expected);
}

#[test]
fn fun_declaration_as_a_value() {
    let body = AstNode::BinOp { left: name("x"), op: BinOp::Add, right: int_literal("1") };
    let expected = AstNode::Program(vec![Box::new(AstNode::FunDecl {
        name: "f".to_string(),
        clauses: vec![(AstPattern::Id("x".to_string()), Box::new(body))],
        typ: None,
    })]);
    assert_eq!(*parse("fun f x => x + 1").unwrap(), expected);
}

#[test]
fn if_expression_as_a_value() {
    let expected = AstNode::If {
        cond: Box::new(AstNode::Literal(LiteralValue::Boolean("true".to_string()))),
        then: int_literal("1"),
        else_: int_literal("2"),
    };
    let mut parser = Parser::new(lex("if true then 1 else 2"));
    assert_eq!(parser.parse_expr().unwrap(), expected);
}

#[test]
fn val_declaration() {
    assert_eq!(
        tree("val x = 1"),
        "Program([ValDecl { pat: Id(\"x\"), typ: None, exp: Literal(Integer(\"1\")) }])"
    );
}

#[test]
fn fun_declaration_with_addition() {
    assert_eq!(
        tree("fun f x => x + 1"),
        "Program([FunDecl { name: \"f\", clauses: [(Id(\"x\"), BinOp { left: Id(\"x\"), op: Add, \
         right: Literal(Integer(\"1\")) })], typ: None }])"
    );
}

#[test]
fn if_expression() {
    assert_eq!(
        expr("if true then 1 else 2"),
        "If { cond: Literal(Boolean(\"true\")), then: Literal(Integer(\"1\")), else_: \
         Literal(Integer(\"2\")) }"
    );
}

#[test]
fn if_expression_is_no_program() {
    let e = failure("if true then 1 else 2");
    assert_eq!(e.kind, ErrKind::UnexpectedToken);
    assert_eq!(e.pos, Some(0));
    assert_eq!(e.msg, "Expected 'val' or 'fun', got If");
}

#[test]
fn val_without_pattern_fails_at_the_equal_sign() {
    let e = failure("val = 1");
    assert_eq!(e.kind, ErrKind::UnexpectedToken);
    assert_eq!(e.pos, Some(1));
    assert_eq!(e.msg, "Expected a pattern, got Equal");
}

#[test]
fn parsing_twice_gives_the_same_tree() {
    let mut parser = Parser::new(lex("fun f (a, b) => if a < b then [a, b] else (b, a); val y = f (1, 2)"));
    let first = format!("{:?}", parser.parse());
    let second = format!("{:?}", parser.parse());
    assert_eq!(first, second);
    assert!(first.starts_with("Ok(Program([FunDecl"));
}

#[test]
fn parsing_twice_gives_the_same_error() {
    let mut parser = Parser::new(lex("val x = (1, "));
    let first = format!("{:?}", parser.parse());
    let second = format!("{:?}", parser.parse());
    assert_eq!(first, second);
    assert!(first.starts_with("Err("));
}

#[test]
fn positions_do_not_matter_to_the_parser() {
    let a = format!("{:?}", parse("val x = f 1 2"));
    let b = format!("{:?}", parse("val\n   x =\n f   1\n\n2"));
    assert_eq!(a, b);
}

#[test]
fn empty_program_is_an_error() {
    let e = failure("");
    assert_eq!(e.kind, ErrKind::UnexpectedEOF);
    assert_eq!(e.pos, Some(0));
    assert_eq!(e.msg, "Expected 'val' or 'fun', got EOF");
}

#[test]
fn no_tokens_at_all_is_an_error() {
    let e = Parser::new(Vec::new()).parse().unwrap_err();
    assert_eq!(e.kind, ErrKind::UnexpectedEOF);
    assert_eq!(e.pos, Some(0));
}

#[test]
fn stream_without_eof_parses() {
    let mut tokens = lex("val x = 1");
    tokens.pop();
    let out = format!("{:?}", Parser::new(tokens).parse().unwrap());
    assert_eq!(
        out,
        "Program([ValDecl { pat: Id(\"x\"), typ: None, exp: Literal(Integer(\"1\")) }])"
    );
}

#[test]
fn declarations_separated_by_semicolons() {
    assert_eq!(
        tree("val x = 1; val y = 2"),
        "Program([ValDecl { pat: Id(\"x\"), typ: None, exp: Literal(Integer(\"1\")) }, ValDecl \
         { pat: Id(\"y\"), typ: None, exp: Literal(Integer(\"2\")) }])"
    );
}

#[test]
fn declarations_without_separator() {
    assert_eq!(tree("val x = 1 val y = 2"), tree("val x = 1; val y = 2"));
}

#[test]
fn trailing_semicolon_is_an_error() {
    let e = failure("val x = 1;");
    assert_eq!(e.kind, ErrKind::UnexpectedEOF);
    assert_eq!(e.pos, Some(5));
}

#[test]
fn val_with_type_annotation() {
    assert_eq!(
        tree("val x : int = 1"),
        "Program([ValDecl { pat: Id(\"x\"), typ: Some(Int), exp: Literal(Integer(\"1\")) }])"
    );
}

#[test]
fn fun_with_type_annotation() {
    assert_eq!(
        tree("fun f x => x : int -> bool"),
        "Program([FunDecl { name: \"f\", clauses: [(Id(\"x\"), Id(\"x\"))], typ: \
         Some(Arrow(Int, Bool)) }])"
    );
}

#[test]
fn arrow_types_associate_to_the_right() {
    assert_eq!(
        tree("val f : int -> bool -> char = g"),
        "Program([ValDecl { pat: Id(\"f\"), typ: Some(Arrow(Int, Arrow(Bool, Char))), exp: \
         Id(\"g\") }])"
    );
}

#[test]
fn product_and_variable_types() {
    assert_eq!(
        tree("val p : 'a * (string, int) = q"),
        "Program([ValDecl { pat: Id(\"p\"), typ: Some(Product(Var(\"a\"), Product(String, \
         Int))), exp: Id(\"q\") }])"
    );
}

#[test]
fn type_errors() {
    let e = failure("val x : = 1");
    assert_eq!((e.kind, e.pos), (ErrKind::UnexpectedToken, Some(3)));
    assert_eq!(e.msg, "Expected a type, got Equal");
    let e = failure("val x : ' 1 = 1");
    assert_eq!((e.kind, e.pos), (ErrKind::UnexpectedToken, Some(3)));
    assert_eq!(e.msg, "Expected an identifier for a type name, got Integer(\"1\")");
    let e = failure("val x : (int int) = 1");
    assert_eq!((e.kind, e.pos), (ErrKind::UnexpectedToken, Some(5)));
    assert_eq!(e.msg, "Expected 'Comma', got TypeInt");
    let e = failure("val x : int ->");
    assert_eq!((e.kind, e.pos), (ErrKind::UnexpectedEOF, Some(5)));
}

#[test]
fn patterns() {
    assert_eq!(
        tree("val (a, _) = p"),
        "Program([ValDecl { pat: Pair(Id(\"a\"), Wildcard), typ: None, exp: Id(\"p\") }])"
    );
    assert_eq!(
        tree("val ((1, true), 'a) = p"),
        "Program([ValDecl { pat: Pair(Pair(Literal, Literal), Var(\"a\")), typ: None, exp: \
         Id(\"p\") }])"
    );
}

#[test]
fn pattern_errors() {
    let e = failure("val (a b) = p");
    assert_eq!((e.kind, e.pos), (ErrKind::UnexpectedToken, Some(3)));
    let e = failure("val ' 1 = p");
    assert_eq!((e.kind, e.pos), (ErrKind::UnexpectedToken, Some(1)));
    assert_eq!(e.msg, "Expected an identifier after a single quote in a pattern, got Integer(\"1\")");
    let e = failure("val");
    assert_eq!((e.kind, e.pos), (ErrKind::UnexpectedEOF, Some(1)));
    assert_eq!(e.msg, "Expected a pattern, got EOF");
}

#[test]
fn single_expression_in_parentheses_is_unwrapped() {
    assert_eq!(expr("(1)"), "Literal(Integer(\"1\"))");
    assert_eq!(expr("((x))"), "Id(\"x\")");
}

#[test]
fn empty_parentheses_are_the_empty_tuple() {
    assert_eq!(expr("()"), "Tuple([])");
}

#[test]
fn two_or_more_expressions_in_parentheses_are_a_tuple() {
    assert_eq!(expr("(1, 2)"), "Tuple([Literal(Integer(\"1\")), Literal(Integer(\"2\"))])");
    assert_eq!(expr("(a, b, c)"), "Tuple([Id(\"a\"), Id(\"b\"), Id(\"c\")])");
}

#[test]
fn lists() {
    assert_eq!(expr("[]"), "List([])");
    assert_eq!(expr("[1]"), "List([Literal(Integer(\"1\"))])");
    assert_eq!(expr("[a, (b, c)]"), "List([Id(\"a\"), Tuple([Id(\"b\"), Id(\"c\")])])");
}

#[test]
fn application_associates_to_the_left() {
    assert_eq!(
        expr("f x y"),
        "App { func: App { func: Id(\"f\"), arg: Id(\"x\") }, arg: Id(\"y\") }"
    );
}

#[test]
fn application_binds_tighter_than_multiplication() {
    assert_eq!(
        expr("f x * g y"),
        "BinOp { left: App { func: Id(\"f\"), arg: Id(\"x\") }, op: Mul, right: App { func: \
         Id(\"g\"), arg: Id(\"y\") } }"
    );
}

#[test]
fn multiplication_binds_tighter_than_addition() {
    assert_eq!(
        expr("a + b * c"),
        "BinOp { left: Id(\"a\"), op: Add, right: BinOp { left: Id(\"b\"), op: Mul, right: \
         Id(\"c\") } }"
    );
    assert_eq!(
        expr("a / b - c"),
        "BinOp { left: BinOp { left: Id(\"a\"), op: Div, right: Id(\"b\") }, op: Sub, right: \
         Id(\"c\") }"
    );
}

#[test]
fn addition_associates_to_the_left() {
    assert_eq!(
        expr("a - b + c"),
        "BinOp { left: BinOp { left: Id(\"a\"), op: Sub, right: Id(\"b\") }, op: Add, right: \
         Id(\"c\") }"
    );
}

#[test]
fn comparisons_bind_loosest_and_chain_to_the_left() {
    assert_eq!(
        expr("a + 1 = b"),
        "BinOp { left: BinOp { left: Id(\"a\"), op: Add, right: Literal(Integer(\"1\")) }, op: \
         Eq, right: Id(\"b\") }"
    );
    assert_eq!(
        expr("a = b = c"),
        "BinOp { left: BinOp { left: Id(\"a\"), op: Eq, right: Id(\"b\") }, op: Eq, right: \
         Id(\"c\") }"
    );
}

#[test]
fn comparison_tags_follow_the_lexemes() {
    assert_eq!(expr("a < b"), "BinOp { left: Id(\"a\"), op: Lt, right: Id(\"b\") }");
    assert_eq!(expr("a <= b"), "BinOp { left: Id(\"a\"), op: Lte, right: Id(\"b\") }");
    assert_eq!(expr("a > b"), "BinOp { left: Id(\"a\"), op: Gt, right: Id(\"b\") }");
    assert_eq!(expr("a >= b"), "BinOp { left: Id(\"a\"), op: Gte, right: Id(\"b\") }");
    assert_eq!(expr("a = b"), "BinOp { left: Id(\"a\"), op: Eq, right: Id(\"b\") }");
    assert_eq!(expr("a <> b"), "BinOp { left: Id(\"a\"), op: Eq, right: Id(\"b\") }");
}

#[test]
fn strict_comparisons_chain_to_the_left() {
    let lt = |left: Box<AstNode>, right: Box<AstNode>| AstNode::BinOp { left, op: BinOp::Lt, right };
    let expected = lt(Box::new(lt(name("a"), name("b"))), name("c"));
    let mut parser = Parser::new(lex("a < b < c"));
    assert_eq!(parser.parse_comp_expr().unwrap(), expected);
    assert!(parser.parse_atom().is_err());
    let mut parser = Parser::new(lex("a < b < c"));
    assert_eq!(parser.parse_expr().unwrap(), expected);
}

#[test]
fn let_expression() {
    assert_eq!(
        expr("let val x = 1 in x end"),
        "Let { decl: ValDecl { pat: Id(\"x\"), typ: None, exp: Literal(Integer(\"1\")) }, body: \
         Id(\"x\") }"
    );
}

#[test]
fn let_without_end_fails() {
    let mut parser = Parser::new(lex("let val x = 1 in x"));
    let e = parser.parse_expr().unwrap_err();
    assert_eq!((e.kind, e.pos), (ErrKind::UnexpectedEOF, Some(7)));
    assert_eq!(e.msg, "Expected 'End', got EOF");
}

#[test]
fn fun_expression_with_two_clauses() {
    assert_eq!(
        expr("fun 0 => 1 | n => n"),
        "Fn { clauses: [(Literal, Literal(Integer(\"1\"))), (Id(\"n\"), Id(\"n\"))] }"
    );
}

#[test]
fn fun_declaration_needs_a_name() {
    let e = failure("fun 1 => 2");
    assert_eq!((e.kind, e.pos), (ErrKind::UnexpectedToken, Some(0)));
    assert_eq!(e.msg, "Expected an identifier after 'fun', got Integer(\"1\")");
}

#[test]
fn clause_needs_a_fat_arrow() {
    let e = failure("fun f x = 1");
    assert_eq!((e.kind, e.pos), (ErrKind::UnexpectedToken, Some(3)));
    assert_eq!(e.msg, "Expected 'FatArrow', got Equal");
}

#[test]
fn float_is_no_atom() {
    let e = failure("val x = 1.5");
    assert_eq!((e.kind, e.pos), (ErrKind::UnexpectedToken, Some(3)));
    assert_eq!(e.msg, "Expected an atom, got Float(\"1.5\")");
}

#[test]
fn error_token_is_rejected_where_it_stands() {
    let e = failure("val x = @");
    assert_eq!((e.kind, e.pos), (ErrKind::UnexpectedToken, Some(3)));
    assert_eq!(e.msg, "Expected an atom, got Error");
}

#[test]
fn unclosed_parenthesis() {
    let e = failure("val x = (1, 2");
    assert_eq!((e.kind, e.pos), (ErrKind::UnexpectedEOF, Some(7)));
    assert_eq!(e.msg, "Expected 'RightParen', got EOF");
    let e = failure("val x = [1; 2]");
    assert_eq!((e.kind, e.pos), (ErrKind::UnexpectedToken, Some(5)));
    assert_eq!(e.msg, "Expected 'RightBracket', got SemiColon");
}

#[test]
fn failure_leaves_the_cursor_where_it_was() {
    let mut parser = Parser::new(lex("(1, 2 val x = 3"));
    assert!(parser.parse_expr().is_err());
    assert!(parser.parse_atom().is_err());
    let mut parser = Parser::new(lex("1 + val x = 3"));
    assert!(parser.parse_expr().is_err());
    assert_eq!(
        format!("{:?}", parser.parse_atom().unwrap()),
        "Literal(Integer(\"1\"))"
    );
}

#[test]
fn success_moves_the_cursor_behind_what_was_parsed() {
    let mut parser = Parser::new(lex("a b + c"));
    assert_eq!(format!("{:?}", parser.parse_atom().unwrap()), "Id(\"a\")");
    assert_eq!(format!("{:?}", parser.parse_atom().unwrap()), "Id(\"b\")");
    assert!(parser.parse_atom().is_err());
}

#[test]
fn levels_of_binary_expressions() {
    let mut parser = Parser::new(lex("a * b + c < d"));
    assert_eq!(
        format!("{:?}", parser.parse_mul_expr().unwrap()),
        "BinOp { left: Id(\"a\"), op: Mul, right: Id(\"b\") }"
    );
    let mut parser = Parser::new(lex("a * b + c < d"));
    assert_eq!(
        format!("{:?}", parser.parse_add_expr().unwrap()),
        "BinOp { left: BinOp { left: Id(\"a\"), op: Mul, right: Id(\"b\") }, op: Add, right: \
         Id(\"c\") }"
    );
    let mut parser = Parser::new(lex("a * b + c < d"));
    assert!(format!("{:?}", parser.parse_comp_expr().unwrap()).ends_with("op: Lt, right: Id(\"d\") }"));
    let mut parser = Parser::new(lex("a b * c"));
    assert_eq!(
        format!("{:?}", parser.parse_app_expr().unwrap()),
        "App { func: Id(\"a\"), arg: Id(\"b\") }"
    );
}

#[test]
fn string_tokens_are_literals() {
    let tokens = vec![
        Token::new(1, 1, 3, TokenType::Val),
        Token::new(1, 5, 1, TokenType::String("p".to_string())),
        Token::new(1, 7, 1, TokenType::Equal),
        Token::new(1, 9, 4, TokenType::String("text".to_string())),
        Token::new(1, 13, 0, TokenType::EOF),
    ];
    assert_eq!(
        format!("{:?}", Parser::new(tokens).parse().unwrap()),
        "Program([ValDecl { pat: Literal, typ: None, exp: Literal(String(\"text\")) }])"
    );
}

#[test]
fn error_kinds_in_words() {
    assert_eq!(ErrKind::UnexpectedToken.to_string(), "Unexpected token");
    assert_eq!(ErrKind::InvalidPattern.to_string(), "Invalid pattern");
    assert_eq!(ErrKind::InvalidExpression.to_string(), "Invalid expression");
    assert_eq!(ErrKind::InvalidDeclaration.to_string(), "Invalid declaration");
    assert_eq!(ErrKind::UnexpectedEOF.to_string(), "Unexpected end of file");
}

#[test]
fn error_as_text() {
    let e = ParseError::with_pos(ErrKind::UnexpectedToken, "boom".to_string(), 1203);
    assert_eq!(e.to_string(), "ParseError: Unexpected token - boom (position: 1203)");
    let e = ParseError::new(ErrKind::InvalidPattern, "m".to_string(), None);
    assert_eq!(e.to_string(), "ParseError: Invalid pattern - m (position: unknown)");
    let e = ParseError::new(ErrKind::UnexpectedEOF, String::new(), Some(0));
    assert_eq!(e.to_string(), "ParseError: Unexpected end of file -  (position: 0)");
    assert_eq!(failure("val = 1").to_string(), "ParseError: Unexpected token - Expected a pattern, got Equal (position: 1)");
}

#[test]
fn error_constructors_and_clone() {
    let e = ParseError::new(ErrKind::InvalidExpression, "x".to_string(), Some(7));
    assert_eq!(e.kind, ErrKind::InvalidExpression);
    assert_eq!(e.msg, "x");
    assert_eq!(e.pos, Some(7));
    let c = e.clone();
    assert_eq!((c.kind, c.msg, c.pos), (e.kind, e.msg, e.pos));
}

#[test]
fn tokens_without_use_are_rejected() {
    for src in [
        "val x = case",
        "val x = y of",
        "val x = nil",
        "val x = none",
        "val x = some",
        "val x = a :: b; val y = 1",
        "type t",
        "val x = 1.0",
        "val x = #",
    ] {
        let e = failure(src);
        assert_eq!(e.kind, ErrKind::UnexpectedToken, "{}", src);
    }
}

#[test]
fn error_positions_are_token_indices() {
    for src in ["val", "val x", "val x =", "val x = (", "fun", "fun f", "fun f x =>", "val x = 1 +", "val x = if a then b", "val x : (int,", "val x = [1,", "val (a,"] {
        let tokens = lex(src);
        let last = tokens.len() - 1;
        let e = Parser::new(tokens).parse().unwrap_err();
        assert_eq!(e.kind, ErrKind::UnexpectedEOF, "{}", src);
        assert!(e.pos.unwrap() <= last, "{}", src);
    }
}

#[test]
fn nested_expressions() {
    let depth = 200;
    let src = format!("val x = {}1{}", "(".repeat(depth), ")".repeat(depth));
    assert_eq!(
        tree(&src),
        "Program([ValDecl { pat: Id(\"x\"), typ: None, exp: Literal(Integer(\"1\")) }])"
    );
    let src = format!("val x = {}1{}", "[".repeat(3), "]".repeat(3));
    assert_eq!(
        tree(&src),
        "Program([ValDecl { pat: Id(\"x\"), typ: None, exp: List([List([List([Literal(Integer(\"1\"))])])]) }])"
    );
}

#[test]
fn eof_in_the_middle_ends_the_program() {
    let mut tokens = lex("val x = 1");
    tokens.extend(lex("val y = 2"));
    let out = format!("{:?}", Parser::new(tokens).parse().unwrap());
    assert_eq!(
        out,
        "Program([ValDecl { pat: Id(\"x\"), typ: None, exp: Literal(Integer(\"1\")) }])"
    );
}

#[test]
fn function_argument_may_be_any_atom() {
    assert_eq!(
        expr("f 1 true (x) [y] ()"),
        "App { func: App { func: App { func: App { func: App { func: Id(\"f\"), arg: \
         Literal(Integer(\"1\")) }, arg: Literal(Boolean(\"true\")) }, arg: Id(\"x\") }, arg: \
         List([Id(\"y\")]) }, arg: Tuple([]) }"
    );
}

#[test]
fn keyword_ends_an_application() {
    assert_eq!(
        expr("if f x then g y else h z"),
        "If { cond: App { func: Id(\"f\"), arg: Id(\"x\") }, then: App { func: Id(\"g\"), arg: \
         Id(\"y\") }, else_: App { func: Id(\"h\"), arg: Id(\"z\") } }"
    );
}

#[test]
fn no_tuple_has_one_element() {
    assert_eq!(expr("(())"), "Tuple([])");
    assert_eq!(expr("((1, 2))"), "Tuple([Literal(Integer(\"1\")), Literal(Integer(\"2\"))])");
    assert_eq!(expr("((x), (y))"), "Tuple([Id(\"x\"), Id(\"y\")])");
    assert_eq!(expr("(((z)))"), "Id(\"z\")");
}
