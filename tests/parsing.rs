use arith_parser::{
    tokenize, BinaryExpression, BinaryExpressionKind, Expression, LiteralExpression,
    LiteralExpressionKind, ParenthesisedExpression, ParseError, Parser, Syntax, Token, TokenKind,
    UnaryExpression, UnaryExpressionKind,
};
use std::rc::Rc;

fn evaluate(expression: &Expression) -> f64 {
    match expression {
        Expression::Binary(b) => {
            let l = evaluate(b.left_operand());
            let r = evaluate(b.right_operand());
            match b.kind() {
                BinaryExpressionKind::Addition => l + r,
                BinaryExpressionKind::Substraction => l - r,
                BinaryExpressionKind::Multiplication => l * r,
                BinaryExpressionKind::Division => l / r,
                BinaryExpressionKind::Modulo => l % r,
            }
        }
        Expression::Unary(u) => match u.get_kind() {
            UnaryExpressionKind::Identity => evaluate(u.get_operand()),
            UnaryExpressionKind::Negation => -evaluate(u.get_operand()),
        },
        Expression::Parenthesised(p) => evaluate(p.get_content()),
        Expression::Literal(l) => {
            let text: String = l.token().text().iter().collect();
            text.parse::<f64>().unwrap()
        }
    }
}

fn value_of(text: &str) -> f64 {
    let tokens = tokenize(text).unwrap();
    let mut parser = Parser::new(&tokens);
    let syntax = parser.parse().unwrap();
    match &*syntax {
        Syntax::Expression(e) => evaluate(e),
    }
}

fn parse_error_of(text: &str) -> Option<ParseError> {
    let tokens = tokenize(text).unwrap();
    let mut parser = Parser::new(&tokens);
    parser.parse().err()
}

/// The tree written in prefix form, with literals by their text.
fn shape(expression: &Expression) -> String {
    match expression {
        Expression::Binary(b) => {
            let op = match b.kind() {
                BinaryExpressionKind::Addition => "+",
                BinaryExpressionKind::Substraction => "-",
                BinaryExpressionKind::Multiplication => "*",
                BinaryExpressionKind::Division => "/",
                BinaryExpressionKind::Modulo => "%",
            };
            format!("({} {} {})", op, shape(b.left_operand()), shape(b.right_operand()))
        }
        Expression::Unary(u) => match u.get_kind() {
            UnaryExpressionKind::Identity => format!("(+ {})", shape(u.get_operand())),
            UnaryExpressionKind::Negation => format!("(- {})", shape(u.get_operand())),
        },
        Expression::Parenthesised(p) => format!("[{}]", shape(p.get_content())),
        Expression::Literal(l) => l.token().text().iter().collect(),
    }
}

fn shape_of(text: &str) -> String {
    let tokens = tokenize(text).unwrap();
    let mut parser = Parser::new(&tokens);
    let syntax = parser.parse().unwrap();
    match &*syntax {
        Syntax::Expression(e) => shape(e),
    }
}

#[test]
fn multiplication_binds_tighter_than_addition() {
    assert_eq!(shape_of("2+3*4"), "(+ 2 (* 3 4))");
    assert_eq!(value_of("2+3*4"), 14.0);
}

#[test]
fn rotation_groups_leading_multiplication() {
    assert_eq!(shape_of("2*3+4"), "(+ (* 2 3) 4)");
    assert_eq!(value_of("2*3+4"), 10.0);
}

#[test]
fn parentheses_override_precedence() {
    assert_eq!(shape_of("(2+3)*4"), "(* [(+ 2 3)] 4)");
    assert_eq!(value_of("(2+3)*4"), 20.0);
}

#[test]
fn equal_precedence_chain_groups_to_the_right() {
    assert_eq!(shape_of("10-2-3"), "(- 10 (- 2 3))");
    assert_eq!(value_of("10-2-3"), 11.0);
}

#[test]
fn single_rotation_does_not_reach_deeper_inversions() {
    assert_eq!(shape_of("2*3-4-5"), "(- (* 2 3) (- 4 5))");
    assert_eq!(value_of("2*3-4-5"), 7.0);
    assert_eq!(value_of("2*3+4*5"), 26.0);
}

#[test]
fn division_by_zero_follows_floating_point() {
    assert_eq!(value_of("1/0"), f64::INFINITY);
    assert!(value_of("0/0").is_nan());
}

#[test]
fn modulo_and_floating_point_literals() {
    assert_eq!(value_of("7%4"), 3.0);
    assert_eq!(value_of("1.5*2"), 3.0);
}

#[test]
fn prefix_operator_takes_the_whole_rest() {
    assert_eq!(shape_of("-2+3"), "(- (+ 2 3))");
    assert_eq!(value_of("-2+3"), -5.0);
    assert_eq!(value_of("+4"), 4.0);
}

#[test]
fn unclosed_parenthesis_is_a_parse_error() {
    assert_eq!(parse_error_of("(1+2"), Some(ParseError::UnclosedDelimiter));
    assert_eq!(parse_error_of("((1)"), Some(ParseError::UnclosedDelimiter));
}

#[test]
fn missing_operand_is_a_parse_error() {
    assert_eq!(parse_error_of(""), Some(ParseError::ParsingFailed));
    assert_eq!(parse_error_of("1+"), Some(ParseError::ParsingFailed));
    assert_eq!(parse_error_of(")"), Some(ParseError::ParsingFailed));
    assert_eq!(parse_error_of("-"), Some(ParseError::ParsingFailed));
    assert_eq!(parse_error_of("("), Some(ParseError::ParsingFailed));
    assert_eq!(parse_error_of("x"), Some(ParseError::ParsingFailed));
}

#[test]
fn trailing_tokens_are_left_unread() {
    assert_eq!(shape_of("1 2 3"), "1");
    assert_eq!(shape_of("(1) )"), "[1]");
}

#[test]
fn string_and_character_literals_parse_as_literals() {
    let tokens = tokenize("\"hi\"").unwrap();
    let mut parser = Parser::new(&tokens);
    let syntax = parser.parse().unwrap();
    match &*syntax {
        Syntax::Expression(Expression::Literal(l)) => {
            assert_eq!(l.kind(), LiteralExpressionKind::String);
            assert_eq!(l.token().kind(), TokenKind::StringLiteral);
        }
        _ => panic!("expected a literal"),
    }
    assert_eq!(shape_of("'c'"), "'c'");
}

#[test]
fn precedence_ranks() {
    assert_eq!(BinaryExpressionKind::Addition.precedence(), 1);
    assert_eq!(BinaryExpressionKind::Substraction.precedence(), 1);
    assert_eq!(BinaryExpressionKind::Multiplication.precedence(), 2);
    assert_eq!(BinaryExpressionKind::Division.precedence(), 2);
    assert_eq!(BinaryExpressionKind::Modulo.precedence(), 2);
}

#[test]
fn tree_nodes_built_by_hand() {
    let one = Token::new(0, vec!['1'], TokenKind::IntegerLiteral);
    let two = Token::new(2, vec!['2'], TokenKind::IntegerLiteral);
    let left = Expression::Literal(LiteralExpression::new(&one, LiteralExpressionKind::Integer));
    let right = Expression::Unary(UnaryExpression::new(
        Box::new(Expression::Literal(LiteralExpression::new(&two, LiteralExpressionKind::Integer))),
        UnaryExpressionKind::Negation,
    ));
    let sum = BinaryExpression::new(Rc::new(left), Rc::new(right), BinaryExpressionKind::Addition);
    assert_eq!(sum.kind(), BinaryExpressionKind::Addition);
    assert_eq!(shape(&sum.left_operand_rc()), "1");
    assert_eq!(shape(&sum.right_operand_rc()), "(- 2)");
    let grouped = Expression::Parenthesised(ParenthesisedExpression::new(Box::new(
        Expression::Binary(sum),
    )));
    assert_eq!(shape(&grouped), "[(+ 1 (- 2))]");
    assert_eq!(evaluate(&grouped), -1.0);
}

#[test]
fn parser_stops_after_the_expression() {
    let tokens = tokenize("1 + 2 ) 5").unwrap();
    let mut parser = Parser::new(&tokens);
    let syntax = parser.parse().unwrap();
    match &*syntax {
        Syntax::Expression(e) => assert_eq!(shape(e), "(+ 1 2)"),
    }
    assert_eq!(parser.parse().err(), Some(ParseError::ParsingFailed));
}
