//! Arithmetic expressions from text to tree: a tokenizer, a recursive-descent
//! parser that repairs precedence by one rotation step, and a tree printer.
pub mod char_class;
pub mod lexer;
pub mod parser;
pub mod printing;
pub mod syntax;
pub mod token;

pub use lexer::{tokenize, LexError, Lexer};
pub use parser::{ParseError, Parser};
pub use printing::print_syntax;
pub use syntax::{
    BinaryExpression, BinaryExpressionKind, ExprTree, Expression, LiteralExpression,
    LiteralExpressionKind, ParenthesisedExpression, Syntax, UnaryExpression, UnaryExpressionKind,
};
pub use token::{Token, TokenKind, TokenView};
