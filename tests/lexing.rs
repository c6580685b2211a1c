use arith_parser::{tokenize, LexError, Lexer, Token, TokenKind};

fn text_of(token: &Token) -> String {
    token.text().iter().collect()
}

fn kinds(text: &str) -> Vec<TokenKind> {
    tokenize(text).unwrap().iter().map(|t| t.kind()).collect()
}

#[test]
fn integer_and_float_literals_are_read_with_offsets() {
    let tokens = tokenize("12 3.5").unwrap();
    assert_eq!(tokens.len(), 2);
    assert_eq!(tokens[0].kind(), TokenKind::IntegerLiteral);
    assert_eq!(text_of(&tokens[0]), "12");
    assert_eq!(tokens[0].index(), 0);
    assert_eq!(tokens[1].kind(), TokenKind::FloatingPointLiteral);
    assert_eq!(text_of(&tokens[1]), "3.5");
    assert_eq!(tokens[1].index(), 3);
}

#[test]
fn token_text_is_the_source_span() {
    for source in ["12+3.25", "  7 * (40.5 - 1)", "100.", "x1 = 42", "3.14159%2"] {
        let chars: Vec<char> = source.chars().collect();
        for token in tokenize(source).unwrap() {
            let start = token.index();
            let end = start + token.text().len();
            assert_eq!(&chars[start..end], token.text().as_slice());
        }
    }
}

#[test]
fn number_literal_round_trips_alone() {
    for literal in ["0", "7", "42", "3.5", "10.", "123.456"] {
        let tokens = tokenize(literal).unwrap();
        assert_eq!(tokens.len(), 1);
        assert_eq!(text_of(&tokens[0]), literal);
        assert_eq!(tokens[0].index(), 0);
    }
}

#[test]
fn second_decimal_point_is_a_lex_error() {
    assert_eq!(tokenize("1.2.3").err(), Some(LexError::MalformedNumberLiteral));
    let mut lexer = Lexer::new("1.2.3");
    assert_eq!(lexer.lex().err(), Some(LexError::MalformedNumberLiteral));
    assert_eq!(tokenize("4..").err(), Some(LexError::MalformedNumberLiteral));
}

#[test]
fn two_character_quote_is_rejected_by_the_lexer() {
    let mut lexer = Lexer::new("'ab'");
    assert_eq!(lexer.lex().err(), Some(LexError::UnknownToken));
    assert_eq!(tokenize("'ab'").err(), Some(LexError::UnknownToken));
}

#[test]
fn character_literal_is_three_characters() {
    let tokens = tokenize("'a'").unwrap();
    assert_eq!(tokens.len(), 1);
    assert_eq!(tokens[0].kind(), TokenKind::CharacterLiteral);
    assert_eq!(text_of(&tokens[0]), "'a'");
}

#[test]
fn string_literal_includes_its_quotes() {
    let tokens = tokenize("\"ab c\" 1").unwrap();
    assert_eq!(tokens[0].kind(), TokenKind::StringLiteral);
    assert_eq!(text_of(&tokens[0]), "\"ab c\"");
    assert_eq!(tokens[1].index(), 7);
}

#[test]
fn unterminated_string_is_a_lex_error() {
    assert_eq!(tokenize("\"abc").err(), Some(LexError::UnterminatedStringLiteral));
    assert_eq!(tokenize("\"").err(), Some(LexError::UnterminatedStringLiteral));
}

#[test]
fn operators_use_one_character_of_lookahead() {
    assert_eq!(
        kinds("<= < >= > == = != ! && || + - * / % ( )"),
        vec![
            TokenKind::LessThanEqualToOperator,
            TokenKind::LessThanOperator,
            TokenKind::GreaterThanEqualToOperator,
            TokenKind::GreaterThanOperator,
            TokenKind::EqualityOperator,
            TokenKind::AssignmentOperator,
            TokenKind::NotEqualityOperator,
            TokenKind::LogicalNotOperator,
            TokenKind::LogicalAndOperator,
            TokenKind::LogicalOrOperator,
            TokenKind::PlusOperator,
            TokenKind::MinusOperator,
            TokenKind::StarOperator,
            TokenKind::SlashOperator,
            TokenKind::PercentageOperator,
            TokenKind::OpenParenthesis,
            TokenKind::CloseParenthesis,
        ]
    );
    assert_eq!(kinds("<"), vec![TokenKind::LessThanOperator]);
}

#[test]
fn single_pipe_or_ampersand_is_unknown() {
    assert_eq!(tokenize("1 | 2").err(), Some(LexError::UnknownToken));
    assert_eq!(tokenize("&").err(), Some(LexError::UnknownToken));
}

#[test]
fn unknown_character_is_a_lex_error_at_its_position() {
    let mut lexer = Lexer::new("1 # 2");
    assert!(lexer.lex().is_ok());
    assert_eq!(lexer.lex().err(), Some(LexError::UnknownToken));
}

#[test]
fn identifiers_run_over_letters_and_digits() {
    let tokens = tokenize("abc1 x").unwrap();
    assert_eq!(tokens.len(), 2);
    assert_eq!(tokens[0].kind(), TokenKind::Identifier);
    assert_eq!(text_of(&tokens[0]), "abc1");
    assert_eq!(text_of(&tokens[1]), "x");
}

#[test]
fn end_token_follows_trailing_white_space() {
    let mut lexer = Lexer::new(" 1 \t\n ");
    assert_eq!(lexer.lex().unwrap().kind(), TokenKind::IntegerLiteral);
    let end = lexer.lex().unwrap();
    assert_eq!(end.kind(), TokenKind::End);
    assert_eq!(end.index(), 6);
    assert_eq!(text_of(&end), "\0");
    assert_eq!(lexer.lex().unwrap().kind(), TokenKind::End);
}

#[test]
fn empty_input_has_no_tokens() {
    assert!(tokenize("").unwrap().is_empty());
    assert!(tokenize("   ").unwrap().is_empty());
}

#[test]
fn number_at_end_of_input_is_read_whole() {
    let tokens = tokenize("1+25").unwrap();
    assert_eq!(text_of(&tokens[2]), "25");
    assert_eq!(tokens[2].kind(), TokenKind::IntegerLiteral);
}

#[test]
fn unicode_classes_come_from_char_methods() {
    let tokens = tokenize("\u{a0}é2 ٣").unwrap();
    assert_eq!(tokens.len(), 2);
    assert_eq!(tokens[0].kind(), TokenKind::Identifier);
    assert_eq!(text_of(&tokens[0]), "é2");
    assert_eq!(tokens[0].index(), 1);
    assert_eq!(tokens[1].kind(), TokenKind::IntegerLiteral);
}

#[test]
fn token_new_keeps_its_parts() {
    let token = Token::new(4, vec!['4', '2'], TokenKind::IntegerLiteral);
    assert_eq!(token.index(), 4);
    assert_eq!(text_of(&token), "42");
    assert_eq!(token.kind(), TokenKind::IntegerLiteral);
}
