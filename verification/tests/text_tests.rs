use tinyml::lexer::{
    char_is_space, char_is_word_char, char_is_word_start, scan_digits, scan_number, scan_symbol,
    scan_token, scan_word, word_token, Lexer, Token, TokenDict, TokenType,
};
use tinyml::text::{char_is_digit, classify, classify_text, string_of, SourceChar};

fn plain(ch: char) -> SourceChar {
    SourceChar { ch, alphabetic: false, alphanumeric: false, whitespace: false }
}

fn letter(ch: char) -> SourceChar {
    SourceChar { ch, alphabetic: true, alphanumeric: true, whitespace: false }
}

fn digit(ch: char) -> SourceChar {
    SourceChar { ch, alphabetic: false, alphanumeric: true, whitespace: false }
}

fn blank(ch: char) -> SourceChar {
    SourceChar { ch, alphabetic: false, alphanumeric: false, whitespace: true }
}

#[test]
fn classify_letter() {
    assert_eq!(classify('a'), letter('a'));
    assert_eq!(classify('Z'), letter('Z'));
    assert_eq!(classify('é'), letter('é'));
}

#[test]
fn classify_digit() {
    assert_eq!(classify('7'), digit('7'));
}

#[test]
fn classify_white_space() {
    assert_eq!(classify(' '), blank(' '));
    assert_eq!(classify('\n'), blank('\n'));
    assert_eq!(classify('\t'), blank('\t'));
}

#[test]
fn classify_symbol() {
    assert_eq!(classify('<'), plain('<'));
    assert_eq!(classify('_'), plain('_'));
}

#[test]
fn classify_text_keeps_order() {
    assert_eq!(classify_text("a1 ="), vec![letter('a'), digit('1'), blank(' '), plain('=')]);
    assert_eq!(classify_text(""), Vec::new());
}

#[test]
fn string_of_gives_the_characters_of_a_range() {
    let src = classify_text("hello world");
    assert_eq!(string_of(&src, 0, 5), "hello");
    assert_eq!(string_of(&src, 6, 11), "world");
    assert_eq!(string_of(&src, 3, 3), "");
    assert_eq!(string_of(&src, 4, 7), "o w");
}

#[test]
fn decimal_digits() {
    assert!(char_is_digit('0'));
    assert!(char_is_digit('9'));
    assert!(!char_is_digit('a'));
    assert!(!char_is_digit('/'));
    assert!(!char_is_digit(':'));
    assert!(!char_is_digit('٣'));
}

#[test]
fn character_roles() {
    assert!(char_is_space(blank(' ')));
    assert!(char_is_space(plain('\n')));
    assert!(!char_is_space(plain('x')));
    assert!(char_is_word_start(plain('_')));
    assert!(char_is_word_start(letter('x')));
    assert!(!char_is_word_start(digit('1')));
    assert!(char_is_word_char(digit('1')));
    assert!(char_is_word_char(plain('_')));
    assert!(!char_is_word_char(plain('+')));
    assert!(!char_is_word_char(letter('\n')));
}

#[test]
fn scanning_goes_by_the_given_classification() {
    // `+` counts as a letter here, and `b` does not.
    let src = vec![letter('a'), letter('+'), plain('b')];
    assert_eq!(scan_word(&src, 0), 2);
    let mut lexer = Lexer::from_classified(src);
    let tokens = lexer.tokenize();
    assert_eq!(
        tokens,
        vec![
            Token::new(1, 1, 2, TokenType::Id("a+".to_string())),
            Token::new(1, 3, 1, TokenType::Error),
            Token::new(1, 4, 0, TokenType::EOF),
        ]
    );
}

#[test]
fn line_break_counts_as_space_whatever_its_classification() {
    let src = vec![letter('a'), letter('\n'), letter('b')];
    let tokens = Lexer::from_classified(src).tokenize();
    assert_eq!(
        tokens,
        vec![
            Token::new(1, 1, 1, TokenType::Id("a".to_string())),
            Token::new(2, 1, 1, TokenType::Id("b".to_string())),
            Token::new(2, 2, 0, TokenType::EOF),
        ]
    );
}

#[test]
fn scan_word_and_digits() {
    let src = classify_text("ab1_ 23x");
    assert_eq!(scan_word(&src, 0), 4);
    assert_eq!(scan_word(&src, 4), 4);
    assert_eq!(scan_word(&src, 5), 8);
    assert_eq!(scan_word(&src, 8), 8);
    assert_eq!(scan_digits(&src, 5), 7);
    assert_eq!(scan_digits(&src, 0), 0);
    assert_eq!(scan_digits(&src, 2), 3);
}

#[test]
fn scan_number_in_the_middle() {
    let src = classify_text("x 3.25.1");
    assert_eq!(scan_number(&src, 2), (Some(TokenType::Float("3.25".to_string())), 6));
    assert_eq!(scan_number(&src, 6), (Some(TokenType::Float(".1".to_string())), 8));
    assert_eq!(scan_number(&src, 0), (None, 0));
    assert_eq!(scan_number(&src, 8), (None, 8));
}

#[test]
fn scan_symbol_and_token() {
    let dict = TokenDict::new();
    let src = classify_text("a=>b<-");
    assert_eq!(scan_symbol(&dict, &src, 1), (Some(TokenType::FatArrow), 2));
    assert_eq!(scan_symbol(&dict, &src, 2), (Some(TokenType::StrictGreater), 1));
    assert_eq!(scan_symbol(&dict, &src, 4), (Some(TokenType::StrictLess), 1));
    assert_eq!(scan_symbol(&dict, &src, 0), (None, 0));
    assert_eq!(scan_symbol(&dict, &src, 6), (None, 0));
    assert_eq!(scan_token(&dict, &src, 0), (TokenType::Id("a".to_string()), 1));
    assert_eq!(scan_token(&dict, &src, 1), (TokenType::FatArrow, 2));
    assert_eq!(scan_token(&dict, &src, 5), (TokenType::Minus, 1));
    assert_eq!(word_token(&dict, &src, 0, 1), TokenType::Id("a".to_string()));
    let src = classify_text("val");
    assert_eq!(word_token(&dict, &src, 0, 3), TokenType::Val);
    assert_eq!(word_token(&dict, &src, 0, 2), TokenType::Id("va".to_string()));
}

#[test]
fn lexer_keeps_its_table() {
    let lexer = Lexer::new("x".to_string());
    assert_eq!(lexer.token_dict().get(&"fun".to_string()), Some(TokenType::Fun));
}

#[test]
fn every_letter_is_alphanumeric() {
    for c in ['a', 'Z', 'é', 'λ', '京', 'ß'] {
        let r = classify(c);
        assert!(r.alphabetic);
        assert!(r.alphanumeric);
    }
    for r in classify_text("x_1 é") {
        assert!(!r.alphabetic || r.alphanumeric);
    }
}

#[test]
fn a_word_that_begins_with_a_letter_is_not_empty() {
    let lexer = Lexer::new(String::new());
    for src in ["a", "é+", "_", "x1 y", "京都"] {
        let (kind, len) = lexer.match_id_or_kw(src);
        assert!(kind.is_some());
        assert!(len >= 1, "{}", src);
    }
    assert_eq!(lexer.match_id_or_kw("京都 x"), (Some(TokenType::Id("京都".to_string())), 2));
}

#[test]
fn table_is_a_map_of_the_vocabulary() {
    let dict = TokenDict::new();
    for (lexeme, kind) in [
        ("<", TokenType::StrictLess),
        ("<=", TokenType::Less),
        (">", TokenType::StrictGreater),
        (">=", TokenType::Greater),
        ("=", TokenType::Equal),
        ("string", TokenType::TypeString),
        ("_", TokenType::Wildcard),
        ("true", TokenType::Bool("true".to_string())),
    ] {
        assert_eq!(dict.get(&lexeme.to_string()), Some(kind));
    }
    for lexeme in ["", "True", "<<", "let ", "'a", "*)"] {
        assert_eq!(dict.get(&lexeme.to_string()), None);
    }
}
