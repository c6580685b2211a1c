use vstd::prelude::*;

verus! {

/// The kind tag of a lexeme.
#[derive(Clone, Copy, PartialEq, Eq, Structural, Debug)]
pub enum TokenKind {
    StringLiteral,
    CharacterLiteral,
    IntegerLiteral,
    FloatingPointLiteral,
    PlusOperator,
    MinusOperator,
    SlashOperator,
    StarOperator,
    PercentageOperator,
    AssignmentOperator,
    EqualityOperator,
    NotEqualityOperator,
    LessThanOperator,
    GreaterThanOperator,
    LessThanEqualToOperator,
    GreaterThanEqualToOperator,
    LogicalNotOperator,
    LogicalAndOperator,
    LogicalOrOperator,
    OpenParenthesis,
    CloseParenthesis,
    Identifier,
    Keyword,
    End,
}

/// A lexeme: the character offset of its first character in the source,
/// its text and its kind.
#[derive(Debug)]
pub struct Token {
    index: usize,
    text: Vec<char>,
    kind: TokenKind,
}

/// The mathematical value of a token.
pub struct TokenView {
    pub index: nat,
    pub text: Seq<char>,
    pub kind: TokenKind,
}

impl View for Token {
    type V = TokenView;

    closed spec fn view(&self) -> TokenView {
        TokenView { index: self.index as nat, text: self.text@, kind: self.kind }
    }
}

/// The views of a sequence of tokens.
pub open spec fn views(tokens: Seq<Token>) -> Seq<TokenView> {
    tokens.map_values(|t: Token| t@)
}

impl Token {
    pub fn new(index: usize, text: Vec<char>, kind: TokenKind) -> (r: Token)
        ensures
            r@ == (TokenView { index: index as nat, text: text@, kind }),
    {
        Token { index, text, kind }
    }

    /// Character offset of the token's first character in the source.
    pub fn index(&self) -> (r: usize)
        ensures
            r == self@.index,
    {
        self.index
    }

    pub fn text(&self) -> (r: &Vec<char>)
        ensures
            r@ == self@.text,
    {
        &self.text
    }

    pub fn kind(&self) -> (r: TokenKind)
        ensures
            r == self@.kind,
    {
        self.kind
    }
}

} // verus!
