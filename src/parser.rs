//! The parser: recursive descent over a token buffer, with one rotation step
//! that repairs operator precedence.
use vstd::prelude::*;

use std::rc::Rc;

use crate::syntax::{
    lemma_binary_view, lemma_height_at_most_size, rank, BinaryExpression, BinaryExpressionKind, ExprTree, Expression, LiteralExpression,
    LiteralExpressionKind, ParenthesisedExpression, Syntax, UnaryExpression, UnaryExpressionKind,
};
use crate::token::{views, Token, TokenKind, TokenView};

verus! {

/// Why the token buffer could not be parsed.
#[derive(Clone, Copy, PartialEq, Eq, Structural, Debug)]
pub enum ParseError {
    /// No production matches at the current token.
    ParsingFailed,
    /// A parenthesised expression lacks its closing parenthesis.
    UnclosedDelimiter,
}

/// A tree and the position of the first token after it, or why parsing failed.
pub type ParseOutcome = Result<(ExprTree, nat), ParseError>;

/// The kind of the token at position `p`; past the end of the buffer, the end of input.
pub open spec fn kind_at(t: Seq<TokenView>, p: nat) -> TokenKind {
    if p < t.len() {
        t[p as int].kind
    } else {
        TokenKind::End
    }
}

/// The binary operator that a token kind stands for, if any.
pub open spec fn binary_kind(k: TokenKind) -> Option<BinaryExpressionKind> {
    match k {
        TokenKind::PlusOperator => Some(BinaryExpressionKind::Addition),
        TokenKind::MinusOperator => Some(BinaryExpressionKind::Substraction),
        TokenKind::StarOperator => Some(BinaryExpressionKind::Multiplication),
        TokenKind::SlashOperator => Some(BinaryExpressionKind::Division),
        TokenKind::PercentageOperator => Some(BinaryExpressionKind::Modulo),
        _ => None,
    }
}

/// The prefix operator that a token kind stands for, if any.
pub open spec fn unary_kind(k: TokenKind) -> Option<UnaryExpressionKind> {
    match k {
        TokenKind::PlusOperator => Some(UnaryExpressionKind::Identity),
        TokenKind::MinusOperator => Some(UnaryExpressionKind::Negation),
        _ => None,
    }
}

/// The literal kind that a token kind stands for, if any.
pub open spec fn literal_kind(k: TokenKind) -> Option<LiteralExpressionKind> {
    match k {
        TokenKind::StringLiteral => Some(LiteralExpressionKind::String),
        TokenKind::CharacterLiteral => Some(LiteralExpressionKind::Character),
        TokenKind::IntegerLiteral => Some(LiteralExpressionKind::Integer),
        TokenKind::FloatingPointLiteral => Some(LiteralExpressionKind::FloatingPoint),
        _ => None,
    }
}

/// Joins `left` and a freshly parsed `right` under the operator `kind`. Where
/// `kind` binds tighter than the operator at the top of `right`, the tree is
/// rotated once: `kind` takes `left` and the left child of `right`, and the
/// operator of `right` governs that node and the right child of `right`.
pub open spec fn rebalance(left: ExprTree, kind: BinaryExpressionKind, right: ExprTree) -> ExprTree {
    match right {
        ExprTree::Binary { kind: inner, left: inner_left, right: inner_right } => if rank(kind)
            > rank(inner) {
            ExprTree::Binary {
                kind: inner,
                left: Box::new(ExprTree::Binary { kind, left: Box::new(left), right: inner_left }),
                right: inner_right,
            }
        } else {
            ExprTree::Binary { kind, left: Box::new(left), right: Box::new(right) }
        },
        _ => ExprTree::Binary { kind, left: Box::new(left), right: Box::new(right) },
    }
}

/// Rebalancing keeps every node: the joined tree has one node more than its parts.
proof fn lemma_rebalance_size(left: ExprTree, kind: BinaryExpressionKind, right: ExprTree)
    ensures
        rebalance(left, kind, right).size() == 1 + left.size() + right.size(),
{
    if let ExprTree::Binary { left: inner_left, right: inner_right, .. } = right {
        let lowered = ExprTree::Binary { kind, left: Box::new(left), right: inner_left };
        assert(lowered.size() == 1 + left.size() + inner_left.size());
    }
}

/// A full expression starting at position `p`.
pub open spec fn expression_at(t: Seq<TokenView>, p: nat) -> ParseOutcome
    decreases t.len() - p, 2nat,
{
    binary_at(t, p)
}

/// A binary expression at `p`: an operand, then, where a binary operator
/// follows, the operator and a full expression, joined by `rebalance`.
pub open spec fn binary_at(t: Seq<TokenView>, p: nat) -> ParseOutcome
    decreases t.len() - p, 1nat,
{
    match non_binary_at(t, p) {
        Err(e) => Err(e),
        Ok((left, q)) => match binary_kind(kind_at(t, q)) {
            Some(kind) => if p < q {
                match expression_at(t, q + 1) {
                    Err(e) => Err(e),
                    Ok((right, r)) => Ok((rebalance(left, kind, right), r)),
                }
            } else {
                Ok((left, q))
            },
            None => Ok((left, q)),
        },
    }
}

/// An operand at `p`, tried in order: a parenthesised expression, a literal,
/// a prefix operator applied to a full expression.
pub open spec fn non_binary_at(t: Seq<TokenView>, p: nat) -> ParseOutcome
    decreases t.len() - p, 0nat,
{
    let k = kind_at(t, p);
    if k == TokenKind::OpenParenthesis {
        match expression_at(t, p + 1) {
            Err(e) => Err(e),
            Ok((content, q)) => if kind_at(t, q) == TokenKind::CloseParenthesis {
                Ok((ExprTree::Parenthesised { content: Box::new(content) }, q + 1))
            } else {
                Err(ParseError::UnclosedDelimiter)
            },
        }
    } else if let Some(kind) = literal_kind(k) {
        Ok((ExprTree::Literal { kind, token: t[p as int] }, p + 1))
    } else if let Some(kind) = unary_kind(k) {
        match expression_at(t, p + 1) {
            Err(e) => Err(e),
            Ok((operand, q)) => Ok((ExprTree::Unary { kind, operand: Box::new(operand) }, q)),
        }
    } else {
        Err(ParseError::ParsingFailed)
    }
}

/// The leaf that the literal token at position `i` parses to.
pub open spec fn leaf(t: Seq<TokenView>, i: int) -> ExprTree {
    ExprTree::Literal { kind: literal_kind(t[i].kind)->0, token: t[i] }
}

/// With three literal operands and two binary operators, the operator that
/// binds tighter is grouped first: where the first operator binds tighter than
/// the second, the rotation makes `(a o1 b) o2 c`; otherwise the operators
/// group to the right, as `a o1 (b o2 c)`, which for operators of equal
/// precedence is right associativity.
pub proof fn lemma_two_operator_grouping(t: Seq<TokenView>)
    requires
        t.len() == 5,
        literal_kind(t[0].kind) is Some,
        literal_kind(t[2].kind) is Some,
        literal_kind(t[4].kind) is Some,
        binary_kind(t[1].kind) is Some,
        binary_kind(t[3].kind) is Some,
    ensures
        ({
            let first = binary_kind(t[1].kind)->0;
            let second = binary_kind(t[3].kind)->0;
            let tree = if rank(first) > rank(second) {
                ExprTree::Binary {
                    kind: second,
                    left: Box::new(
                        ExprTree::Binary {
                            kind: first,
                            left: Box::new(leaf(t, 0)),
                            right: Box::new(leaf(t, 2)),
                        },
                    ),
                    right: Box::new(leaf(t, 4)),
                }
            } else {
                ExprTree::Binary {
                    kind: first,
                    left: Box::new(leaf(t, 0)),
                    right: Box::new(
                        ExprTree::Binary {
                            kind: second,
                            left: Box::new(leaf(t, 2)),
                            right: Box::new(leaf(t, 4)),
                        },
                    ),
                }
            };
            expression_at(t, 0) == Ok::<(ExprTree, nat), ParseError>((tree, 5))
        }),
{
    let second = binary_kind(t[3].kind)->0;
    assert(non_binary_at(t, 4) == Ok::<(ExprTree, nat), ParseError>((leaf(t, 4), 5)));
    assert(expression_at(t, 4) == Ok::<(ExprTree, nat), ParseError>((leaf(t, 4), 5)));
    assert(non_binary_at(t, 2) == Ok::<(ExprTree, nat), ParseError>((leaf(t, 2), 3)));
    let inner = ExprTree::Binary {
        kind: second,
        left: Box::new(leaf(t, 2)),
        right: Box::new(leaf(t, 4)),
    };
    assert(expression_at(t, 2) == Ok::<(ExprTree, nat), ParseError>((inner, 5)));
    assert(non_binary_at(t, 0) == Ok::<(ExprTree, nat), ParseError>((leaf(t, 0), 1)));
}

/// An opening parenthesis whose content is a complete expression running to
/// the end of the buffer fails with an unclosed delimiter.
pub proof fn lemma_unclosed_parenthesis(t: Seq<TokenView>)
    requires
        kind_at(t, 0) == TokenKind::OpenParenthesis,
        expression_at(t, 1) matches Ok((_, q)) && q == t.len(),
    ensures
        expression_at(t, 0) == Err::<(ExprTree, nat), ParseError>(ParseError::UnclosedDelimiter),
{
    assert(non_binary_at(t, 0) == Err::<(ExprTree, nat), ParseError>(
        ParseError::UnclosedDelimiter,
    ));
}

/// A parenthesised operation followed by a binary operator and a literal stays
/// grouped, whatever the two operators' precedence: `(a o1 b) o2 c` keeps the
/// grouping node as the left operand of `o2`.
pub proof fn lemma_parentheses_group_first(t: Seq<TokenView>)
    requires
        t.len() == 7,
        t[0].kind == TokenKind::OpenParenthesis,
        literal_kind(t[1].kind) is Some,
        binary_kind(t[2].kind) is Some,
        literal_kind(t[3].kind) is Some,
        t[4].kind == TokenKind::CloseParenthesis,
        binary_kind(t[5].kind) is Some,
        literal_kind(t[6].kind) is Some,
    ensures
        expression_at(t, 0) == Ok::<(ExprTree, nat), ParseError>(
            (
                ExprTree::Binary {
                    kind: binary_kind(t[5].kind)->0,
                    left: Box::new(
                        ExprTree::Parenthesised {
                            content: Box::new(
                                ExprTree::Binary {
                                    kind: binary_kind(t[2].kind)->0,
                                    left: Box::new(leaf(t, 1)),
                                    right: Box::new(leaf(t, 3)),
                                },
                            ),
                        },
                    ),
                    right: Box::new(leaf(t, 6)),
                },
                7,
            ),
        ),
{
    let content = ExprTree::Binary {
        kind: binary_kind(t[2].kind)->0,
        left: Box::new(leaf(t, 1)),
        right: Box::new(leaf(t, 3)),
    };
    assert(non_binary_at(t, 3) == Ok::<(ExprTree, nat), ParseError>((leaf(t, 3), 4)));
    assert(expression_at(t, 3) == Ok::<(ExprTree, nat), ParseError>((leaf(t, 3), 4)));
    assert(non_binary_at(t, 1) == Ok::<(ExprTree, nat), ParseError>((leaf(t, 1), 2)));
    assert(expression_at(t, 1) == Ok::<(ExprTree, nat), ParseError>((content, 4)));
    let grouped = ExprTree::Parenthesised { content: Box::new(content) };
    assert(non_binary_at(t, 0) == Ok::<(ExprTree, nat), ParseError>((grouped, 5)));
    assert(non_binary_at(t, 6) == Ok::<(ExprTree, nat), ParseError>((leaf(t, 6), 7)));
    assert(expression_at(t, 6) == Ok::<(ExprTree, nat), ParseError>((leaf(t, 6), 7)));
}

/// Whether an executable parse result matches a spec outcome, with the
/// parser left at `position` on success.
pub open spec fn yields<'a>(
    r: Result<Expression<'a>, ParseError>,
    outcome: ParseOutcome,
    position: nat,
) -> bool {
    match outcome {
        Ok((tree, q)) => r matches Ok(e) && e@ == tree && position == q,
        Err(e) => r matches Err(e2) && e2 == e,
    }
}

/// The parser: a borrowed token buffer and a cursor into it.
pub struct Parser<'a> {
    tokens: &'a Vec<Token>,
    index: usize,
}

impl<'a> Parser<'a> {
    #[verifier::type_invariant]
    spec fn cursor_in_bounds(&self) -> bool {
        self.index <= self.tokens.len()
    }

    /// The views of the tokens in the buffer.
    pub closed spec fn tokens(&self) -> Seq<TokenView> {
        views(self.tokens@)
    }

    /// The position of the next token to read.
    pub closed spec fn position(&self) -> nat {
        self.index as nat
    }

    pub fn new(tokens: &'a Vec<Token>) -> (r: Parser<'a>)
        ensures
            r.tokens() == views(tokens@),
            r.position() == 0,
    {
        Parser { tokens, index: 0 }
    }

    fn increment_index(&mut self)
        requires
            old(self).index < old(self).tokens.len(),
        ensures
            final(self).tokens == old(self).tokens,
            final(self).index == old(self).index + 1,
    {
        self.index = self.index + 1;
    }

    /// The token under the cursor; `None` past the end of the buffer.
    fn get_current_token(&self) -> (r: Option<&'a Token>)
        ensures
            self.index < self.tokens.len() ==> (r matches Some(t) && t@ == self.tokens()[self.index as int]),
            self.index >= self.tokens.len() ==> r is None,
    {
        if self.index < self.tokens.len() {
            let tokens: &'a Vec<Token> = self.tokens;
            Some(&tokens[self.index])
        } else {
            None
        }
    }

    /// The kind of the token under the cursor; past the end, the end of input.
    fn current_kind(&self) -> (r: TokenKind)
        ensures
            r == kind_at(self.tokens(), self.index as nat),
    {
        match self.get_current_token() {
            Some(token) => token.kind(),
            None => TokenKind::End,
        }
    }

    /// Parses one expression from the cursor and moves the cursor past it.
    /// Tokens after a complete expression are left unread. The tree is no
    /// deeper than the number of tokens it was read from.
    pub fn parse(&mut self) -> (r: Result<Box<Syntax<'a>>, ParseError>)
        ensures
            final(self).tokens() == old(self).tokens(),
            match expression_at(old(self).tokens(), old(self).position()) {
                Ok((tree, q)) => r matches Ok(syntax) && (*syntax)@ == tree && final(self).position()
                    == q && tree.height() <= q - old(self).position(),
                Err(e) => r matches Err(e2) && e2 == e,
            },
    {
        match self.parse_expression() {
            Ok(expression) => {
                proof {
                    lemma_height_at_most_size(expression@);
                }
                Ok(Box::new(Syntax::Expression(expression)))
            },
            Err(e) => Err(e),
        }
    }

    fn parse_expression(&mut self) -> (r: Result<Expression<'a>, ParseError>)
        ensures
            final(self).tokens == old(self).tokens,
            yields(r, expression_at(old(self).tokens(), old(self).index as nat), final(self).index as nat),
            r is Ok ==> old(self).index < final(self).index <= final(self).tokens.len(),
            r matches Ok(e) ==> e@.size() <= final(self).index - old(self).index,
        decreases old(self).tokens.len() - old(self).index, 5nat,
    {
        self.parse_binary_expression()
    }

    fn parse_parenthesised_expression(&mut self) -> (r: Option<Result<Expression<'a>, ParseError>>)
        ensures
            final(self).tokens == old(self).tokens,
            kind_at(old(self).tokens(), old(self).index as nat) != TokenKind::OpenParenthesis ==> (r is None
                && final(self).index == old(self).index),
            kind_at(old(self).tokens(), old(self).index as nat) == TokenKind::OpenParenthesis ==> (r matches Some(
                res,
            ) && yields(res, non_binary_at(old(self).tokens(), old(self).index as nat), final(self).index as nat)
                && (res is Ok ==> old(self).index < final(self).index <= final(self).tokens.len())
                && (res matches Ok(e) ==> e@.size() <= final(self).index - old(self).index)),
        decreases old(self).tokens.len() - old(self).index, 2nat,
    {
        proof {
            use_type_invariant(&*self);
        }
        if self.current_kind() == TokenKind::OpenParenthesis {
            let content = match self.parse_operand_expression() {
                Ok(content) => content,
                Err(e) => return Some(Err(e)),
            };
            if self.current_kind() == TokenKind::CloseParenthesis {
                self.increment_index();
                Some(Ok(Expression::Parenthesised(ParenthesisedExpression::new(Box::new(content)))))
            } else {
                Some(Err(ParseError::UnclosedDelimiter))
            }
        } else {
            None
        }
    }

    fn parse_literal_expression(&mut self) -> (r: Option<Expression<'a>>)
        ensures
            final(self).tokens == old(self).tokens,
            literal_kind(kind_at(old(self).tokens(), old(self).index as nat)) is None ==> (r is None
                && final(self).index == old(self).index),
            literal_kind(kind_at(old(self).tokens(), old(self).index as nat)) is Some ==> (r matches Some(
                e,
            ) && yields(Ok(e), non_binary_at(old(self).tokens(), old(self).index as nat), final(self).index as nat)
                && old(self).index < final(self).index <= final(self).tokens.len()
                && e@.size() == 1),
    {
        let current_token = match self.get_current_token() {
            Some(token) => token,
            None => return None,
        };
        let literal_expression_kind = match current_token.kind() {
            TokenKind::StringLiteral => LiteralExpressionKind::String,
            TokenKind::CharacterLiteral => LiteralExpressionKind::Character,
            TokenKind::IntegerLiteral => LiteralExpressionKind::Integer,
            TokenKind::FloatingPointLiteral => LiteralExpressionKind::FloatingPoint,
            _ => return None,
        };
        self.increment_index();
        Some(Expression::Literal(LiteralExpression::new(current_token, literal_expression_kind)))
    }

    /// Steps over the current token and parses a full expression after it.
    fn parse_operand_expression(&mut self) -> (r: Result<Expression<'a>, ParseError>)
        requires
            old(self).index < old(self).tokens.len(),
        ensures
            final(self).tokens == old(self).tokens,
            yields(r, expression_at(old(self).tokens(), (old(self).index + 1) as nat), final(self).index as nat),
            r is Ok ==> old(self).index + 1 < final(self).index <= final(self).tokens.len(),
            r matches Ok(e) ==> e@.size() <= final(self).index - old(self).index - 1,
        decreases old(self).tokens.len() - old(self).index, 1nat,
    {
        self.increment_index();
        self.parse_expression()
    }

    fn parse_unary_expression(&mut self) -> (r: Option<Result<Expression<'a>, ParseError>>)
        ensures
            final(self).tokens == old(self).tokens,
            unary_kind(kind_at(old(self).tokens(), old(self).index as nat)) is None ==> (r is None
                && final(self).index == old(self).index),
            unary_kind(kind_at(old(self).tokens(), old(self).index as nat)) is Some ==> (r matches Some(
                res,
            ) && yields(res, non_binary_at(old(self).tokens(), old(self).index as nat), final(self).index as nat)
                && (res is Ok ==> old(self).index < final(self).index <= final(self).tokens.len())
                && (res matches Ok(e) ==> e@.size() <= final(self).index - old(self).index)),
        decreases old(self).tokens.len() - old(self).index, 2nat,
    {
        let unary_expression_kind = match self.current_kind() {
            TokenKind::PlusOperator => UnaryExpressionKind::Identity,
            TokenKind::MinusOperator => UnaryExpressionKind::Negation,
            _ => return None,
        };
        match self.parse_operand_expression() {
            Ok(operand) => Some(
                Ok(Expression::Unary(UnaryExpression::new(Box::new(operand), unary_expression_kind))),
            ),
            Err(e) => Some(Err(e)),
        }
    }

    fn parse_non_binary_expression(&mut self) -> (r: Result<Expression<'a>, ParseError>)
        ensures
            final(self).tokens == old(self).tokens,
            yields(r, non_binary_at(old(self).tokens(), old(self).index as nat), final(self).index as nat),
            r is Ok ==> old(self).index < final(self).index <= final(self).tokens.len(),
            r matches Ok(e) ==> e@.size() <= final(self).index - old(self).index,
        decreases old(self).tokens.len() - old(self).index, 3nat,
    {
        if let Some(parenthesised_expression) = self.parse_parenthesised_expression() {
            return parenthesised_expression;
        }
        if let Some(literal_expression) = self.parse_literal_expression() {
            return Ok(literal_expression);
        }
        if let Some(unary_expression) = self.parse_unary_expression() {
            return unary_expression;
        }
        Err(ParseError::ParsingFailed)
    }

    fn parse_binary_expression(&mut self) -> (r: Result<Expression<'a>, ParseError>)
        ensures
            final(self).tokens == old(self).tokens,
            yields(r, binary_at(old(self).tokens(), old(self).index as nat), final(self).index as nat),
            r is Ok ==> old(self).index < final(self).index <= final(self).tokens.len(),
            r matches Ok(e) ==> e@.size() <= final(self).index - old(self).index,
        decreases old(self).tokens.len() - old(self).index, 4nat,
    {
        let left_operand = match self.parse_non_binary_expression() {
            Ok(left_operand) => left_operand,
            Err(e) => return Err(e),
        };
        let binary_expression_kind = match self.current_kind() {
            TokenKind::PlusOperator => BinaryExpressionKind::Addition,
            TokenKind::MinusOperator => BinaryExpressionKind::Substraction,
            TokenKind::SlashOperator => BinaryExpressionKind::Division,
            TokenKind::StarOperator => BinaryExpressionKind::Multiplication,
            TokenKind::PercentageOperator => BinaryExpressionKind::Modulo,
            _ => return Ok(left_operand),
        };
        let right_operand = match self.parse_operand_expression() {
            Ok(right_operand) => right_operand,
            Err(e) => return Err(e),
        };
        proof {
            lemma_binary_view(&right_operand);
        }
        proof {
            lemma_rebalance_size(left_operand@, binary_expression_kind, right_operand@);
        }
        match right_operand {
            Expression::Binary(right) => {
                if binary_expression_kind.precedence() > right.kind().precedence() {
                    let new_left_operand = BinaryExpression::new(
                        Rc::new(left_operand),
                        right.left_operand_rc(),
                        binary_expression_kind,
                    );
                    Ok(
                        Expression::Binary(
                            BinaryExpression::new(
                                Rc::new(Expression::Binary(new_left_operand)),
                                right.right_operand_rc(),
                                right.kind(),
                            ),
                        ),
                    )
                } else {
                    Ok(
                        Expression::Binary(
                            BinaryExpression::new(
                                Rc::new(left_operand),
                                Rc::new(Expression::Binary(right)),
                                binary_expression_kind,
                            ),
                        ),
                    )
                }
            },
            right_operand => Ok(
                Expression::Binary(
                    BinaryExpression::new(
                        Rc::new(left_operand),
                        Rc::new(right_operand),
                        binary_expression_kind,
                    ),
                ),
            ),
        }
    }
}

} // verus!
