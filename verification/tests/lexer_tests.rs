use tinyml::lexer::{Lexer, Token, TokenDict, TokenType};

fn lex(src: &str) -> Vec<Token> {
    Lexer::new(src.to_string()).tokenize()
}

fn kinds(src: &str) -> Vec<TokenType> {
    lex(src).into_iter().map(|t| t.ty).collect()
}

fn id(name: &str) -> TokenType {
    TokenType::Id(name.to_string())
}

fn integer(text: &str) -> TokenType {
    TokenType::Integer(text.to_string())
}

#[test]
fn empty_source_gives_only_eof() {
    let tokens = lex("");
    assert_eq!(tokens, vec![Token::new(1, 1, 0, TokenType::EOF)]);
}

#[test]
fn white_space_only_gives_only_eof() {
    let tokens = lex("  \n\t ");
    assert_eq!(tokens, vec![Token::new(2, 3, 0, TokenType::EOF)]);
}

#[test]
fn every_stream_ends_with_exactly_one_eof() {
    for src in ["", "x", "val x = 1", "1. 2", "@@@", "fun f x => x + 1\n", "  ", "(* c *)"] {
        let tokens = lex(src);
        assert_eq!(tokens.last().unwrap().ty, TokenType::EOF);
        let count = tokens.iter().filter(|t| t.ty == TokenType::EOF).count();
        assert_eq!(count, 1);
    }
}

#[test]
fn less_or_equal_is_one_token() {
    assert_eq!(kinds("<="), vec![TokenType::Less, TokenType::EOF]);
    assert_eq!(lex("<=")[0], Token::new(1, 1, 2, TokenType::Less));
}

#[test]
fn less_alone_is_strict_less() {
    assert_eq!(kinds("<"), vec![TokenType::StrictLess, TokenType::EOF]);
    assert_eq!(kinds("< ="), vec![TokenType::StrictLess, TokenType::Equal, TokenType::EOF]);
}

#[test]
fn two_character_symbols_win_over_their_prefixes() {
    assert_eq!(kinds("=>"), vec![TokenType::FatArrow, TokenType::EOF]);
    assert_eq!(kinds("="), vec![TokenType::Equal, TokenType::EOF]);
    assert_eq!(kinds(">="), vec![TokenType::Greater, TokenType::EOF]);
    assert_eq!(kinds(">"), vec![TokenType::StrictGreater, TokenType::EOF]);
    assert_eq!(kinds("<>"), vec![TokenType::CompNotEqual, TokenType::EOF]);
    assert_eq!(kinds("->"), vec![TokenType::Arrow, TokenType::EOF]);
    assert_eq!(kinds("-"), vec![TokenType::Minus, TokenType::EOF]);
    assert_eq!(kinds("::"), vec![TokenType::Cons, TokenType::EOF]);
    assert_eq!(kinds(":"), vec![TokenType::Colon, TokenType::EOF]);
    assert_eq!(kinds(":::"), vec![TokenType::Cons, TokenType::Colon, TokenType::EOF]);
    assert_eq!(kinds("==>"), vec![TokenType::Equal, TokenType::FatArrow, TokenType::EOF]);
}

#[test]
fn integer_literal() {
    assert_eq!(kinds("12"), vec![integer("12"), TokenType::EOF]);
    assert_eq!(lex("12")[0], Token::new(1, 1, 2, integer("12")));
}

#[test]
fn float_literal() {
    assert_eq!(kinds("1.5"), vec![TokenType::Float("1.5".to_string()), TokenType::EOF]);
    assert_eq!(lex("1.5")[0].len, 3);
}

#[test]
fn point_without_digit_is_not_part_of_the_number() {
    assert_eq!(kinds("1."), vec![integer("1"), TokenType::Error, TokenType::EOF]);
    let tokens = lex("1.");
    assert_eq!(tokens[0], Token::new(1, 1, 1, integer("1")));
    assert_eq!(tokens[1], Token::new(1, 2, 1, TokenType::Error));
    assert_eq!(tokens[2], Token::new(1, 3, 0, TokenType::EOF));
}

#[test]
fn second_point_ends_the_float() {
    assert_eq!(
        kinds("1.5.3"),
        vec![
            TokenType::Float("1.5".to_string()),
            TokenType::Error,
            integer("3"),
            TokenType::EOF
        ]
    );
}

#[test]
fn point_then_letter_after_integer() {
    assert_eq!(kinds("1.x"), vec![integer("1"), TokenType::Error, id("x"), TokenType::EOF]);
}

#[test]
fn keywords_are_not_identifiers() {
    assert_eq!(
        kinds("let fun in end case of val type if then else"),
        vec![
            TokenType::Let,
            TokenType::Fun,
            TokenType::In,
            TokenType::End,
            TokenType::Case,
            TokenType::Of,
            TokenType::Val,
            TokenType::Type,
            TokenType::If,
            TokenType::Then,
            TokenType::Else,
            TokenType::EOF
        ]
    );
}

#[test]
fn constructors_and_type_names() {
    assert_eq!(
        kinds("none some nil int bool char string"),
        vec![
            TokenType::KwNone,
            TokenType::KwSome,
            TokenType::Nil,
            TokenType::TypeInt,
            TokenType::TypeBool,
            TokenType::TypeChar,
            TokenType::TypeString,
            TokenType::EOF
        ]
    );
}

#[test]
fn booleans_are_literals() {
    assert_eq!(
        kinds("true false"),
        vec![
            TokenType::Bool("true".to_string()),
            TokenType::Bool("false".to_string()),
            TokenType::EOF
        ]
    );
}

#[test]
fn words_run_as_far_as_they_can() {
    assert_eq!(kinds("letter"), vec![id("letter"), TokenType::EOF]);
    assert_eq!(kinds("iffy"), vec![id("iffy"), TokenType::EOF]);
    assert_eq!(kinds("x1_y2"), vec![id("x1_y2"), TokenType::EOF]);
    assert_eq!(kinds("truely"), vec![id("truely"), TokenType::EOF]);
}

#[test]
fn wildcard_and_underscore_words() {
    assert_eq!(kinds("_"), vec![TokenType::Wildcard, TokenType::EOF]);
    assert_eq!(kinds("_x"), vec![id("_x"), TokenType::EOF]);
    assert_eq!(kinds("__"), vec![id("__"), TokenType::EOF]);
}

#[test]
fn digits_then_letters_are_two_tokens() {
    assert_eq!(kinds("12ab"), vec![integer("12"), id("ab"), TokenType::EOF]);
}

#[test]
fn brackets_quote_and_semicolon() {
    assert_eq!(
        kinds("[ ] ( ) ' ; , |"),
        vec![
            TokenType::LeftBracket,
            TokenType::RightBracket,
            TokenType::LeftParen,
            TokenType::RightParen,
            TokenType::SingleQuote,
            TokenType::SemiColon,
            TokenType::Comma,
            TokenType::Bar,
            TokenType::EOF
        ]
    );
}

#[test]
fn arithmetic_operators() {
    assert_eq!(
        kinds("+-*/"),
        vec![
            TokenType::Plus,
            TokenType::Minus,
            TokenType::Multiply,
            TokenType::Divide,
            TokenType::EOF
        ]
    );
}

#[test]
fn unknown_characters_become_error_tokens_one_by_one() {
    let tokens = lex("a @# b");
    assert_eq!(
        tokens,
        vec![
            Token::new(1, 1, 1, id("a")),
            Token::new(1, 3, 1, TokenType::Error),
            Token::new(1, 4, 1, TokenType::Error),
            Token::new(1, 6, 1, id("b")),
            Token::new(1, 7, 0, TokenType::EOF),
        ]
    );
}

#[test]
fn double_quote_is_an_error_token() {
    assert_eq!(kinds("\"a\""), vec![TokenType::Error, id("a"), TokenType::Error, TokenType::EOF]);
}

#[test]
fn positions_of_a_declaration() {
    let tokens = lex("val x = 1");
    assert_eq!(
        tokens,
        vec![
            Token::new(1, 1, 3, TokenType::Val),
            Token::new(1, 5, 1, id("x")),
            Token::new(1, 7, 1, TokenType::Equal),
            Token::new(1, 9, 1, integer("1")),
            Token::new(1, 10, 0, TokenType::EOF),
        ]
    );
}

#[test]
fn newline_resets_the_column() {
    let tokens = lex("val x = 1;\n  val yy = 22\n");
    assert_eq!(tokens[4], Token::new(1, 10, 1, TokenType::SemiColon));
    assert_eq!(tokens[5], Token::new(2, 3, 3, TokenType::Val));
    assert_eq!(tokens[6], Token::new(2, 7, 2, id("yy")));
    assert_eq!(tokens[7], Token::new(2, 10, 1, TokenType::Equal));
    assert_eq!(tokens[8], Token::new(2, 12, 2, integer("22")));
    assert_eq!(tokens[9], Token::new(3, 1, 0, TokenType::EOF));
    assert_eq!(tokens.len(), 10);
}

#[test]
fn every_token_spans_its_lexeme() {
    let src = "fun fact n =>\n  if n <= 1 then 1\n  else n * fact (n - 1)";
    let lines: Vec<&str> = src.split('\n').collect();
    let tokens = lex(src);
    let expected = [
        "fun", "fact", "n", "=>", "if", "n", "<=", "1", "then", "1", "else", "n", "*", "fact",
        "(", "n", "-", "1", ")",
    ];
    assert_eq!(tokens.len(), expected.len() + 1);
    for (token, lexeme) in tokens.iter().zip(expected.iter()) {
        let line = lines[token.line - 1];
        assert_eq!(&line[token.col - 1..token.col - 1 + token.len], *lexeme);
    }
}

#[test]
fn tokenize_twice_gives_the_same_tokens() {
    let mut lexer = Lexer::new("val x = (1, 2)".to_string());
    let first = lexer.tokenize();
    let second = lexer.tokenize();
    assert_eq!(first, second);
    assert_eq!(first.len(), 9);
}

#[test]
fn non_ascii_letters_belong_to_words() {
    let tokens = lex("é1 = 2");
    assert_eq!(tokens[0], Token::new(1, 1, 2, id("é1")));
    assert_eq!(tokens[1], Token::new(1, 4, 1, TokenType::Equal));
}

#[test]
fn match_id_or_kw_finds_keyword() {
    let lexer = Lexer::new(String::new());
    assert_eq!(lexer.match_id_or_kw("let x"), (Some(TokenType::Let), 3));
    assert_eq!(lexer.match_id_or_kw("lets x"), (Some(id("lets")), 4));
    assert_eq!(lexer.match_id_or_kw("true"), (Some(TokenType::Bool("true".to_string())), 4));
}

#[test]
fn match_id_or_kw_on_no_word_gives_empty_identifier() {
    let lexer = Lexer::new(String::new());
    assert_eq!(lexer.match_id_or_kw("+x"), (Some(id("")), 0));
    assert_eq!(lexer.match_id_or_kw(""), (Some(id("")), 0));
}

#[test]
fn match_number_cases() {
    let lexer = Lexer::new(String::new());
    assert_eq!(lexer.match_number("12+"), (Some(integer("12")), 2));
    assert_eq!(lexer.match_number("1.5"), (Some(TokenType::Float("1.5".to_string())), 3));
    assert_eq!(lexer.match_number("1."), (Some(integer("1")), 1));
    assert_eq!(lexer.match_number(".5"), (Some(TokenType::Float(".5".to_string())), 2));
    assert_eq!(lexer.match_number("."), (None, 0));
    assert_eq!(lexer.match_number("x1"), (None, 0));
    assert_eq!(lexer.match_number(""), (None, 0));
}

#[test]
fn match_syntax_prefers_two_characters() {
    let lexer = Lexer::new(String::new());
    assert_eq!(lexer.match_syntax("<=1"), (Some(TokenType::Less), 2));
    assert_eq!(lexer.match_syntax("<1"), (Some(TokenType::StrictLess), 1));
    assert_eq!(lexer.match_syntax("=>"), (Some(TokenType::FatArrow), 2));
    assert_eq!(lexer.match_syntax("="), (Some(TokenType::Equal), 1));
    assert_eq!(lexer.match_syntax("@"), (None, 0));
    assert_eq!(lexer.match_syntax(""), (None, 0));
}

#[test]
fn token_dict_holds_the_vocabulary() {
    let dict = TokenDict::new();
    assert_eq!(dict.get(&"let".to_string()), Some(TokenType::Let));
    assert_eq!(dict.get(&"<>".to_string()), Some(TokenType::CompNotEqual));
    assert_eq!(dict.get(&"false".to_string()), Some(TokenType::Bool("false".to_string())));
    assert_eq!(dict.get(&"x".to_string()), None);
    assert_eq!(dict.get(&"".to_string()), None);
    assert_eq!(dict.get(&"(*".to_string()), None);
}

#[test]
fn token_type_descriptions() {
    assert_eq!(TokenType::Then.describe(), "Then");
    assert_eq!(id("x").describe(), "Id(\"x\")");
    assert_eq!(integer("42").describe(), "Integer(\"42\")");
    assert_eq!(TokenType::EOF.name(), "EOF");
    assert!(TokenType::EOF.is_eof());
    assert!(!TokenType::Error.is_eof());
    assert_eq!(id("x").text(), Some(&"x".to_string()));
    assert_eq!(TokenType::Comma.text(), None);
}

#[test]
fn token_type_clone_and_equality() {
    let a = id("abc");
    let b = a.clone();
    assert_eq!(a, b);
    assert_ne!(a, id("abd"));
    assert_ne!(a, integer("abc"));
    assert_ne!(TokenType::Less, TokenType::StrictLess);
    let t = Token::new(3, 4, 5, a);
    assert_eq!(t.clone(), t);
    assert_ne!(Token::new(3, 4, 6, b), t);
}

#[test]
fn carriage_return_takes_a_column_and_line_feed_ends_the_line() {
    let tokens = lex("a\r\nb\tc");
    assert_eq!(
        tokens,
        vec![
            Token::new(1, 1, 1, id("a")),
            Token::new(2, 1, 1, id("b")),
            Token::new(2, 3, 1, id("c")),
            Token::new(2, 4, 0, TokenType::EOF),
        ]
    );
}

#[test]
fn unicode_white_space_separates_tokens() {
    let tokens = lex("a\u{A0}b\u{2003}1");
    assert_eq!(
        tokens,
        vec![
            Token::new(1, 1, 1, id("a")),
            Token::new(1, 3, 1, id("b")),
            Token::new(1, 5, 1, integer("1")),
            Token::new(1, 6, 0, TokenType::EOF),
        ]
    );
}

#[test]
fn lengths_count_characters() {
    let tokens = lex("λx => 1");
    assert_eq!(tokens[0], Token::new(1, 1, 2, id("λx")));
    assert_eq!(tokens[1], Token::new(1, 4, 2, TokenType::FatArrow));
    assert_eq!(tokens[2], Token::new(1, 7, 1, integer("1")));
}

#[test]
fn digits_of_other_scripts_are_no_numbers() {
    assert_eq!(kinds("٣"), vec![TokenType::Error, TokenType::EOF]);
    assert_eq!(kinds("x٣"), vec![id("x٣"), TokenType::EOF]);
}

#[test]
fn long_run_of_tokens() {
    let src = "x + ".repeat(500) + "x";
    let tokens = lex(&src);
    assert_eq!(tokens.len(), 1002);
    assert_eq!(tokens[1000], Token::new(1, 2001, 1, id("x")));
    assert_eq!(tokens[1001], Token::new(1, 2002, 0, TokenType::EOF));
}
