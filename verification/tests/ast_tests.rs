use tinyml::ast::{AstNode, AstPattern, BinOp, LiteralValue, Type};
use tinyml::lexer::Lexer;
use tinyml::parser::Parser;

#[test]
fn clone_of_a_tree_is_the_same_tree() {
    let src = "fun f (a, _) => if a <= 1 then [a, (a, 2)] else let val 'b : int * bool = g a in \
               b end | 0 => fun x => () : (int, 'a) -> string; val t = true";
    let tokens = Lexer::new(src.to_string()).tokenize();
    let tree = Parser::new(tokens).parse().unwrap();
    let copy = tree.clone();
    assert_eq!(format!("{:?}", copy), format!("{:?}", tree));
}

#[test]
fn clone_of_small_values() {
    let t = Type::Product(Box::new(Type::Var("a".to_string())), Box::new(Type::Char));
    assert_eq!(format!("{:?}", t.clone()), "Product(Var(\"a\"), Char)");
    let p = AstPattern::Pair(Box::new(AstPattern::Id("x".to_string())), Box::new(AstPattern::Literal));
    assert_eq!(format!("{:?}", p.clone()), "Pair(Id(\"x\"), Literal)");
    let l = LiteralValue::Boolean("true".to_string());
    assert_eq!(format!("{:?}", l.clone()), "Boolean(\"true\")");
    let n = AstNode::BinOp {
        left: Box::new(AstNode::Var("a".to_string())),
        op: BinOp::Neq,
        right: Box::new(AstNode::Tuple(Vec::new())),
    };
    assert_eq!(
        format!("{:?}", n.clone()),
        "BinOp { left: Var(\"a\"), op: Neq, right: Tuple([]) }"
    );
}

#[test]
fn binary_operators_compare() {
    assert_eq!(BinOp::Add, BinOp::Add);
    assert_ne!(BinOp::Lt, BinOp::Lte);
}

#[test]
fn trees_compare_by_structure() {
    let parse = |src: &str| Parser::new(Lexer::new(src.to_string()).tokenize()).parse().unwrap();
    assert_eq!(parse("val x = f (1, [a, b])"), parse("val x   =  f(1,[a,b])"));
    assert_ne!(parse("val x = f (1, [a, b])"), parse("val x = f (1, [a, c])"));
    assert_ne!(parse("val x = f (1, [a, b])"), parse("val x = f (1, [a])"));
    assert_ne!(parse("val x = (a, b)"), parse("val x = [a, b]"));
    assert_ne!(parse("val x = a + b"), parse("val x = a - b"));
    assert_ne!(parse("val x : int = a"), parse("val x = a"));
    assert_ne!(parse("val x : int = a"), parse("val x : bool = a"));
    assert_ne!(parse("fun f x => 1 | y => 2"), parse("fun f x => 1 | z => 2"));
    assert_ne!(parse("fun f x => 1 | y => 2"), parse("fun f x => 1"));
    assert_ne!(parse("val x = 1"), parse("val x = 1; val y = 2"));
    assert_eq!(parse("val x = fun (a, _) => if a then 1 else 2"), parse("val x = fun (a, _) => if a then 1 else 2"));
}

#[test]
fn small_values_compare_by_structure() {
    assert_eq!(Type::Int, Type::Int);
    assert_ne!(Type::Int, Type::Bool);
    assert_eq!(
        Type::Arrow(Box::new(Type::Var("a".to_string())), Box::new(Type::Char)),
        Type::Arrow(Box::new(Type::Var("a".to_string())), Box::new(Type::Char))
    );
    assert_ne!(
        Type::Arrow(Box::new(Type::Int), Box::new(Type::Char)),
        Type::Product(Box::new(Type::Int), Box::new(Type::Char))
    );
    assert_eq!(AstPattern::Wildcard, AstPattern::Wildcard);
    assert_ne!(AstPattern::Id("a".to_string()), AstPattern::Var("a".to_string()));
    assert_ne!(
        LiteralValue::Integer("1".to_string()),
        LiteralValue::String("1".to_string())
    );
    assert_ne!(AstNode::Id("a".to_string()), AstNode::Var("a".to_string()));
}
