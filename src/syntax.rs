//! The expression tree that parsing builds and evaluation and printing read.
use vstd::prelude::*;

use std::rc::Rc;

use crate::token::{Token, TokenView};

verus! {

#[derive(Clone, Copy, PartialEq, Eq, Structural, Debug)]
pub enum BinaryExpressionKind {
    Addition,
    Substraction,
    Multiplication,
    Division,
    Modulo,
}

/// The rank of a binary operator: the higher binds tighter.
pub open spec fn rank(kind: BinaryExpressionKind) -> u8 {
    match kind {
        BinaryExpressionKind::Addition | BinaryExpressionKind::Substraction => 1,
        BinaryExpressionKind::Multiplication
        | BinaryExpressionKind::Division
        | BinaryExpressionKind::Modulo => 2,
    }
}

impl BinaryExpressionKind {
    pub fn precedence(&self) -> (r: u8)
        ensures
            r == rank(*self),
    {
        match self {
            BinaryExpressionKind::Addition | BinaryExpressionKind::Substraction => 1,
            BinaryExpressionKind::Multiplication
            | BinaryExpressionKind::Division
            | BinaryExpressionKind::Modulo => 2,
        }
    }
}

#[derive(Clone, Copy, PartialEq, Eq, Structural, Debug)]
pub enum UnaryExpressionKind {
    Identity,
    Negation,
}

#[derive(Clone, Copy, PartialEq, Eq, Structural, Debug)]
pub enum LiteralExpressionKind {
    Integer,
    FloatingPoint,
    Character,
    String,
}

/// The mathematical value of an expression tree.
#[allow(inconsistent_fields)]
pub enum ExprTree {
    Binary { kind: BinaryExpressionKind, left: Box<ExprTree>, right: Box<ExprTree> },
    Unary { kind: UnaryExpressionKind, operand: Box<ExprTree> },
    Literal { kind: LiteralExpressionKind, token: TokenView },
    Parenthesised { content: Box<ExprTree> },
}

impl ExprTree {
    /// The number of nodes on the longest path from the root to a leaf.
    pub open spec fn height(self) -> nat
        decreases self,
    {
        match self {
            ExprTree::Binary { left, right, .. } => {
                let l = left.height();
                let r = right.height();
                1 + if l >= r {
                    l
                } else {
                    r
                }
            },
            ExprTree::Unary { operand, .. } => 1 + operand.height(),
            ExprTree::Literal { .. } => 1,
            ExprTree::Parenthesised { content } => 1 + content.height(),
        }
    }

    /// The number of nodes.
    pub open spec fn size(self) -> nat
        decreases self,
    {
        match self {
            ExprTree::Binary { left, right, .. } => 1 + left.size() + right.size(),
            ExprTree::Unary { operand, .. } => 1 + operand.size(),
            ExprTree::Literal { .. } => 1,
            ExprTree::Parenthesised { content } => 1 + content.size(),
        }
    }
}

/// No path in a tree is longer than the tree has nodes.
pub proof fn lemma_height_at_most_size(t: ExprTree)
    ensures
        t.height() <= t.size(),
    decreases t,
{
    match t {
        ExprTree::Binary { left, right, .. } => {
            lemma_height_at_most_size(*left);
            lemma_height_at_most_size(*right);
        },
        ExprTree::Unary { operand, .. } => lemma_height_at_most_size(*operand),
        ExprTree::Literal { .. } => {},
        ExprTree::Parenthesised { content } => lemma_height_at_most_size(*content),
    }
}

pub enum Expression<'a> {
    Binary(BinaryExpression<'a>),
    Unary(UnaryExpression<'a>),
    Literal(LiteralExpression<'a>),
    Parenthesised(ParenthesisedExpression<'a>),
}

impl<'a> View for Expression<'a> {
    type V = ExprTree;

    open spec fn view(&self) -> ExprTree
        decreases self,
    {
        match self {
            Expression::Binary(b) => b@,
            Expression::Unary(u) => u@,
            Expression::Literal(l) => l@,
            Expression::Parenthesised(p) => p@,
        }
    }
}

/// An expression's view is a binary tree exactly when the expression is a binary one.
pub proof fn lemma_binary_view(e: &Expression)
    ensures
        (e@ is Binary) == (*e is Binary),
{
}

pub struct BinaryExpression<'a> {
    left_operand: Rc<Expression<'a>>,
    right_operand: Rc<Expression<'a>>,
    kind: BinaryExpressionKind,
}

impl<'a> View for BinaryExpression<'a> {
    type V = ExprTree;

    closed spec fn view(&self) -> ExprTree
        decreases self,
    {
        ExprTree::Binary {
            kind: self.kind,
            left: Box::new((*self.left_operand)@),
            right: Box::new((*self.right_operand)@),
        }
    }
}

impl<'a> BinaryExpression<'a> {
    pub fn new(
        left_operand: Rc<Expression<'a>>,
        right_operand: Rc<Expression<'a>>,
        kind: BinaryExpressionKind,
    ) -> (r: BinaryExpression<'a>)
        ensures
            r@ == (ExprTree::Binary {
                kind,
                left: Box::new((*left_operand)@),
                right: Box::new((*right_operand)@),
            }),
    {
        BinaryExpression { left_operand, right_operand, kind }
    }

    pub fn left_operand(&self) -> (r: &Expression<'a>)
        ensures
            self@ matches ExprTree::Binary { left, .. } && r@ == *left,
    {
        &self.left_operand
    }

    pub fn left_operand_rc(&self) -> (r: Rc<Expression<'a>>)
        ensures
            self@ matches ExprTree::Binary { left, .. } && (*r)@ == *left,
    {
        share(&self.left_operand)
    }

    pub fn right_operand(&self) -> (r: &Expression<'a>)
        ensures
            self@ matches ExprTree::Binary { right, .. } && r@ == *right,
    {
        &self.right_operand
    }

    pub fn right_operand_rc(&self) -> (r: Rc<Expression<'a>>)
        ensures
            self@ matches ExprTree::Binary { right, .. } && (*r)@ == *right,
    {
        share(&self.right_operand)
    }

    pub fn kind(&self) -> (r: BinaryExpressionKind)
        ensures
            self@ matches ExprTree::Binary { kind, .. } && r == kind,
    {
        self.kind
    }
}

/// Relies on `Rc::clone`: the new pointer shares the value it points to.
#[verifier::external_body]
fn share<T>(pointer: &Rc<T>) -> (r: Rc<T>)
    ensures
        *r == **pointer,
{
    Rc::clone(pointer)
}

pub struct UnaryExpression<'a> {
    operand: Box<Expression<'a>>,
    kind: UnaryExpressionKind,
}

impl<'a> View for UnaryExpression<'a> {
    type V = ExprTree;

    closed spec fn view(&self) -> ExprTree
        decreases self,
    {
        ExprTree::Unary { kind: self.kind, operand: Box::new((*self.operand)@) }
    }
}

impl<'a> UnaryExpression<'a> {
    pub fn new(operand: Box<Expression<'a>>, kind: UnaryExpressionKind) -> (r: UnaryExpression<'a>)
        ensures
            r@ == (ExprTree::Unary { kind, operand: Box::new((*operand)@) }),
    {
        UnaryExpression { operand, kind }
    }

    pub fn get_operand(&self) -> (r: &Expression<'a>)
        ensures
            self@ matches ExprTree::Unary { operand, .. } && r@ == *operand,
    {
        &self.operand
    }

    pub fn get_kind(&self) -> (r: UnaryExpressionKind)
        ensures
            self@ matches ExprTree::Unary { kind, .. } && r == kind,
    {
        self.kind
    }
}

/// A literal: it refers to the token it was read from.
pub struct LiteralExpression<'a> {
    token: &'a Token,
    kind: LiteralExpressionKind,
}

impl<'a> View for LiteralExpression<'a> {
    type V = ExprTree;

    closed spec fn view(&self) -> ExprTree
        decreases self,
    {
        ExprTree::Literal { kind: self.kind, token: self.token@ }
    }
}

impl<'a> LiteralExpression<'a> {
    pub fn new(token: &'a Token, kind: LiteralExpressionKind) -> (r: LiteralExpression<'a>)
        ensures
            r@ == (ExprTree::Literal { kind, token: token@ }),
    {
        LiteralExpression { token, kind }
    }

    pub fn token(&self) -> (r: &'a Token)
        ensures
            self@ matches ExprTree::Literal { token, .. } && r@ == token,
    {
        self.token
    }

    pub fn kind(&self) -> (r: LiteralExpressionKind)
        ensures
            self@ matches ExprTree::Literal { kind, .. } && r == kind,
    {
        self.kind
    }
}

/// A grouping in parentheses: it evaluates as its content does and only
/// marks the grouping for printing.
pub struct ParenthesisedExpression<'a> {
    content: Box<Expression<'a>>,
}

impl<'a> View for ParenthesisedExpression<'a> {
    type V = ExprTree;

    closed spec fn view(&self) -> ExprTree
        decreases self,
    {
        ExprTree::Parenthesised { content: Box::new((*self.content)@) }
    }
}

impl<'a> ParenthesisedExpression<'a> {
    pub fn new(content: Box<Expression<'a>>) -> (r: ParenthesisedExpression<'a>)
        ensures
            r@ == (ExprTree::Parenthesised { content: Box::new((*content)@) }),
    {
        ParenthesisedExpression { content }
    }

    pub fn get_content(&self) -> (r: &Expression<'a>)
        ensures
            self@ matches ExprTree::Parenthesised { content } && r@ == *content,
    {
        &self.content
    }
}

/// The root of a parsed program: one expression.
pub enum Syntax<'a> {
    Expression(Expression<'a>),
}

impl<'a> View for Syntax<'a> {
    type V = ExprTree;

    open spec fn view(&self) -> ExprTree {
        match self {
            Syntax::Expression(e) => e@,
        }
    }
}

} // verus!
