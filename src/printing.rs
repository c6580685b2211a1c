//! The tree printer: renders an expression tree, one node per line, with
//! branch marks and indentation, into a character buffer.
use vstd::prelude::*;

use crate::syntax::{
    BinaryExpression, BinaryExpressionKind, ExprTree, Expression, LiteralExpression,
    ParenthesisedExpression, Syntax, UnaryExpression, UnaryExpressionKind,
};

verus! {

/// Two spaces for each level of indentation.
pub open spec fn indentation_text(level: nat) -> Seq<char>
    decreases level,
{
    if level == 0 {
        Seq::empty()
    } else {
        seq![' ', ' '] + indentation_text((level - 1) as nat)
    }
}

pub open spec fn binary_symbol(kind: BinaryExpressionKind) -> char {
    match kind {
        BinaryExpressionKind::Addition => '+',
        BinaryExpressionKind::Substraction => '-',
        BinaryExpressionKind::Multiplication => '*',
        BinaryExpressionKind::Division => '/',
        BinaryExpressionKind::Modulo => '%',
    }
}

pub open spec fn unary_symbol(kind: UnaryExpressionKind) -> char {
    match kind {
        UnaryExpressionKind::Identity => '+',
        UnaryExpressionKind::Negation => '-',
    }
}

/// The text that prints `tree` at the given indentation level: a binary
/// node prints its operator on a line of its own and each operand on a branch
/// below it; a prefix operator prints before its operand; a literal prints its
/// token's text; a grouping prints its content between parentheses.
pub open spec fn rendering(tree: ExprTree, level: nat) -> Seq<char>
    decreases tree,
{
    match tree {
        ExprTree::Binary { kind, left, right } => seq![binary_symbol(kind), '\n']
            + indentation_text(level) + seq!['└', ' '] + rendering(*left, level + 1)
            + indentation_text(level) + seq!['└', ' '] + rendering(*right, level + 1),
        ExprTree::Unary { kind, operand } => seq![unary_symbol(kind), ' '] + rendering(
            *operand,
            level + 1,
        ),
        ExprTree::Literal { token, .. } => token.text + seq!['\n'],
        ExprTree::Parenthesised { content } => seq!['(', ' '] + rendering(*content, level + 1)
            + indentation_text(level) + seq![')', '\n'],
    }
}

/// Prints the tree of `syntax` at the outermost level into `out`.
pub fn print_syntax(syntax: &Syntax, out: &mut Vec<char>)
    requires
        syntax@.height() <= usize::MAX,
    ensures
        final(out)@ == old(out)@ + rendering(syntax@, 0),
{
    match syntax {
        Syntax::Expression(expression) => print_expression(expression, 0, out),
    }
}

fn print_expression(expression: &Expression, indentation: usize, out: &mut Vec<char>)
    requires
        indentation + expression@.height() <= usize::MAX,
    ensures
        final(out)@ == old(out)@ + rendering(expression@, indentation as nat),
    decreases expression@.height(), 1nat,
{
    match expression {
        Expression::Binary(binary_expression) => print_binary_expression(
            binary_expression,
            indentation,
            out,
        ),
        Expression::Unary(unary_expression) => print_unary_expression(
            unary_expression,
            indentation,
            out,
        ),
        Expression::Literal(literal_expression) => print_literal_expression(
            literal_expression,
            indentation,
            out,
        ),
        Expression::Parenthesised(parenthesised_expression) => print_parenthesised_expression(
            parenthesised_expression,
            indentation,
            out,
        ),
    }
}

fn print_parenthesised_expression(
    parenthesised_expression: &ParenthesisedExpression,
    indentation: usize,
    out: &mut Vec<char>,
)
    requires
        indentation + parenthesised_expression@.height() <= usize::MAX,
    ensures
        final(out)@ == old(out)@ + rendering(parenthesised_expression@, indentation as nat),
    decreases parenthesised_expression@.height(), 0nat,
{
    let ghost start = out@;
    let content = parenthesised_expression.get_content();
    out.push('(');
    out.push(' ');
    print_expression(content, indentation + 1, out);
    print_indentation(indentation, out);
    out.push(')');
    out.push('\n');
    assert(out@ =~= start + rendering(parenthesised_expression@, indentation as nat));
}

fn print_literal_expression(
    literal_expression: &LiteralExpression,
    indentation: usize,
    out: &mut Vec<char>,
)
    ensures
        final(out)@ == old(out)@ + rendering(literal_expression@, indentation as nat),
{
    let ghost start = out@;
    let text = literal_expression.token().text();
    let mut i: usize = 0;
    while i < text.len()
        invariant
            i <= text@.len(),
            out@ == start + text@.subrange(0, i as int),
        decreases text@.len() - i,
    {
        out.push(text[i]);
        i = i + 1;
        assert(out@ =~= start + text@.subrange(0, i as int));
    }
    out.push('\n');
    assert(out@ =~= start + rendering(literal_expression@, indentation as nat));
}

fn print_unary_expression(
    unary_expression: &UnaryExpression,
    indentation: usize,
    out: &mut Vec<char>,
)
    requires
        indentation + unary_expression@.height() <= usize::MAX,
    ensures
        final(out)@ == old(out)@ + rendering(unary_expression@, indentation as nat),
    decreases unary_expression@.height(), 0nat,
{
    let ghost start = out@;
    match unary_expression.get_kind() {
        UnaryExpressionKind::Identity => out.push('+'),
        UnaryExpressionKind::Negation => out.push('-'),
    }
    out.push(' ');
    print_expression(unary_expression.get_operand(), indentation + 1, out);
    assert(out@ =~= start + rendering(unary_expression@, indentation as nat));
}

fn print_binary_expression(
    binary_expression: &BinaryExpression,
    indentation: usize,
    out: &mut Vec<char>,
)
    requires
        indentation + binary_expression@.height() <= usize::MAX,
    ensures
        final(out)@ == old(out)@ + rendering(binary_expression@, indentation as nat),
    decreases binary_expression@.height(), 0nat,
{
    let ghost start = out@;
    match binary_expression.kind() {
        BinaryExpressionKind::Addition => out.push('+'),
        BinaryExpressionKind::Substraction => out.push('-'),
        BinaryExpressionKind::Multiplication => out.push('*'),
        BinaryExpressionKind::Division => out.push('/'),
        BinaryExpressionKind::Modulo => out.push('%'),
    }
    out.push('\n');
    print_indentation(indentation, out);
    out.push('└');
    out.push(' ');
    print_expression(binary_expression.left_operand(), indentation + 1, out);
    print_indentation(indentation, out);
    out.push('└');
    out.push(' ');
    print_expression(binary_expression.right_operand(), indentation + 1, out);
    assert(out@ =~= start + rendering(binary_expression@, indentation as nat));
}

fn print_indentation(indentation: usize, out: &mut Vec<char>)
    ensures
        final(out)@ == old(out)@ + indentation_text(indentation as nat),
{
    let ghost start = out@;
    let mut level: usize = 0;
    while level < indentation
        invariant
            level <= indentation,
            out@ == start + indentation_text(level as nat),
        decreases indentation - level,
    {
        proof {
            lemma_indentation_text_grows(level as nat);
        }
        out.push(' ');
        out.push(' ');
        level = level + 1;
        assert(out@ =~= start + indentation_text(level as nat));
    }
}

/// One more level of indentation adds two spaces at the end.
proof fn lemma_indentation_text_grows(level: nat)
    ensures
        indentation_text(level + 1) == indentation_text(level) + seq![' ', ' '],
    decreases level,
{
    if level > 0 {
        lemma_indentation_text_grows((level - 1) as nat);
        assert(indentation_text(level + 1) =~= indentation_text(level) + seq![' ', ' ']);
    } else {
        assert(indentation_text(0) =~= Seq::<char>::empty());
        assert(indentation_text(1) =~= seq![' ', ' ']);
    }
}

} // verus!
