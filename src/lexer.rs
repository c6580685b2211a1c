//! The tokenizer: turns source text into lexemes, one per call.
use vstd::prelude::*;

use crate::char_class::{
    alphabetic, is_alphabetic, is_alphanumeric, is_numeric, is_white_space, numeric, white_space,
};
use crate::token::{views, Token, TokenKind, TokenView};

verus! {

/// Why the tokenizer could not produce a token.
#[derive(Clone, Copy, PartialEq, Eq, Structural, Debug)]
pub enum LexError {
    /// No rule matches the character under the cursor.
    UnknownToken,
    /// A string literal runs off the end of the input.
    UnterminatedStringLiteral,
    /// A number literal holds a second decimal point.
    MalformedNumberLiteral,
}

/// A token and the position just past it, or why lexing failed.
pub type LexOutcome = Result<(TokenView, nat), LexError>;

/// The token spanning positions `from` to `to` of `s`, and the position after it.
pub open spec fn span(s: Seq<char>, from: nat, to: nat, kind: TokenKind) -> LexOutcome {
    Ok((TokenView { index: from, text: s.subrange(from as int, to as int), kind }, to))
}

/// The end-of-input sentinel: it stands at the end of `s` and holds one null character.
pub open spec fn end_token(s: Seq<char>) -> TokenView {
    TokenView { index: s.len(), text: seq!['\0'], kind: TokenKind::End }
}

/// The first position at or after `i` that holds no white space (or the end).
pub open spec fn skip_white_space(s: Seq<char>, i: nat) -> nat
    decreases s.len() - i,
{
    if i < s.len() && white_space(s[i as int]) {
        skip_white_space(s, i + 1)
    } else {
        i
    }
}

/// A character that continues a number literal's run of digits.
pub open spec fn digit(c: char) -> bool {
    c != '.' && numeric(c)
}

/// The first position at or after `i` that holds no digit (or the end).
pub open spec fn digit_run_end(s: Seq<char>, i: nat) -> nat
    decreases s.len() - i,
{
    if i < s.len() && digit(s[i as int]) {
        digit_run_end(s, i + 1)
    } else {
        i
    }
}

/// The first position at or after `i` that holds neither a letter nor a digit (or the end).
pub open spec fn alphanumeric_run_end(s: Seq<char>, i: nat) -> nat
    decreases s.len() - i,
{
    if i < s.len() && (alphabetic(s[i as int]) || numeric(s[i as int])) {
        alphanumeric_run_end(s, i + 1)
    } else {
        i
    }
}

/// The first position at or after `i` that holds a double quote (or the end).
pub open spec fn quote_position(s: Seq<char>, i: nat) -> nat
    decreases s.len() - i,
{
    if i < s.len() && s[i as int] != '"' {
        quote_position(s, i + 1)
    } else {
        i
    }
}

/// Number literal rule at position `q`: digits, at most one decimal point
/// (which makes the literal a floating-point one), and a second point is an error.
pub open spec fn number_rule(s: Seq<char>, q: nat) -> Option<LexOutcome> {
    if q < s.len() && numeric(s[q as int]) {
        let e1 = digit_run_end(s, q + 1);
        if e1 < s.len() && s[e1 as int] == '.' {
            let e2 = digit_run_end(s, e1 + 1);
            if e2 < s.len() && s[e2 as int] == '.' {
                Some(Err(LexError::MalformedNumberLiteral))
            } else {
                Some(span(s, q, e2, TokenKind::FloatingPointLiteral))
            }
        } else {
            Some(span(s, q, e1, TokenKind::IntegerLiteral))
        }
    } else {
        None
    }
}

/// String literal rule at position `q`: from a double quote to the next one.
pub open spec fn string_rule(s: Seq<char>, q: nat) -> Option<LexOutcome> {
    if q < s.len() && s[q as int] == '"' {
        let e = quote_position(s, q + 1);
        if e < s.len() {
            Some(span(s, q, e + 1, TokenKind::StringLiteral))
        } else {
            Some(Err(LexError::UnterminatedStringLiteral))
        }
    } else {
        None
    }
}

/// Character literal rule at position `q`: exactly a quote, one character, a quote.
pub open spec fn character_rule(s: Seq<char>, q: nat) -> Option<LexOutcome> {
    if q + 2 < s.len() && s[q as int] == '\'' && s[q as int + 2] == '\'' {
        Some(span(s, q, q + 3, TokenKind::CharacterLiteral))
    } else {
        None
    }
}

/// Identifier rule at position `q`: a letter, then letters and digits.
pub open spec fn identifier_rule(s: Seq<char>, q: nat) -> Option<LexOutcome> {
    if q < s.len() && alphabetic(s[q as int]) {
        Some(span(s, q, alphanumeric_run_end(s, q + 1), TokenKind::Identifier))
    } else {
        None
    }
}

/// The kind of an operator or separator that is one character long and has no longer form.
pub open spec fn single_character_kind(c: char) -> Option<TokenKind> {
    if c == '+' {
        Some(TokenKind::PlusOperator)
    } else if c == '-' {
        Some(TokenKind::MinusOperator)
    } else if c == '*' {
        Some(TokenKind::StarOperator)
    } else if c == '/' {
        Some(TokenKind::SlashOperator)
    } else if c == '%' {
        Some(TokenKind::PercentageOperator)
    } else if c == '(' {
        Some(TokenKind::OpenParenthesis)
    } else if c == ')' {
        Some(TokenKind::CloseParenthesis)
    } else {
        None
    }
}

/// For a character that may start a two-character operator: the character that
/// must follow it, the kind of the two-character form, and the kind of the
/// character alone (`None` where it has no form of its own).
pub open spec fn lookahead_kinds(c: char) -> Option<(char, TokenKind, Option<TokenKind>)> {
    if c == '!' {
        Some(('=', TokenKind::NotEqualityOperator, Some(TokenKind::LogicalNotOperator)))
    } else if c == '|' {
        Some(('|', TokenKind::LogicalOrOperator, None))
    } else if c == '&' {
        Some(('&', TokenKind::LogicalAndOperator, None))
    } else if c == '<' {
        Some(('=', TokenKind::LessThanEqualToOperator, Some(TokenKind::LessThanOperator)))
    } else if c == '>' {
        Some(('=', TokenKind::GreaterThanEqualToOperator, Some(TokenKind::GreaterThanOperator)))
    } else if c == '=' {
        Some(('=', TokenKind::EqualityOperator, Some(TokenKind::AssignmentOperator)))
    } else {
        None
    }
}

/// Operator and separator rule at position `q`, the last rule: where it does
/// not match, the character is an unknown token.
pub open spec fn operator_rule(s: Seq<char>, q: nat) -> LexOutcome
    recommends
        q < s.len(),
{
    let c = s[q as int];
    match single_character_kind(c) {
        Some(kind) => span(s, q, q + 1, kind),
        None => match lookahead_kinds(c) {
            Some((next, double, single)) => if q + 1 < s.len() && s[q as int + 1] == next {
                span(s, q, q + 2, double)
            } else {
                match single {
                    Some(kind) => span(s, q, q + 1, kind),
                    None => Err(LexError::UnknownToken),
                }
            },
            None => Err(LexError::UnknownToken),
        },
    }
}

/// What one call of the tokenizer yields with the cursor at `p`: white space is
/// skipped, then the rules are tried in their fixed order and the first that
/// matches decides.
pub open spec fn lex_at(s: Seq<char>, p: nat) -> LexOutcome {
    let q = skip_white_space(s, p);
    if q >= s.len() {
        Ok((end_token(s), q))
    } else if let Some(r) = number_rule(s, q) {
        r
    } else if let Some(r) = string_rule(s, q) {
        r
    } else if let Some(r) = character_rule(s, q) {
        r
    } else if let Some(r) = identifier_rule(s, q) {
        r
    } else {
        operator_rule(s, q)
    }
}

fn single_character_operator(c: char) -> (r: Option<TokenKind>)
    ensures
        r == single_character_kind(c),
{
    match c {
        '+' => Some(TokenKind::PlusOperator),
        '-' => Some(TokenKind::MinusOperator),
        '*' => Some(TokenKind::StarOperator),
        '/' => Some(TokenKind::SlashOperator),
        '%' => Some(TokenKind::PercentageOperator),
        '(' => Some(TokenKind::OpenParenthesis),
        ')' => Some(TokenKind::CloseParenthesis),
        _ => None,
    }
}

fn two_character_operator(c: char) -> (r: Option<(char, TokenKind, Option<TokenKind>)>)
    ensures
        r == lookahead_kinds(c),
{
    match c {
        '!' => Some(('=', TokenKind::NotEqualityOperator, Some(TokenKind::LogicalNotOperator))),
        '|' => Some(('|', TokenKind::LogicalOrOperator, None)),
        '&' => Some(('&', TokenKind::LogicalAndOperator, None)),
        '<' => Some(('=', TokenKind::LessThanEqualToOperator, Some(TokenKind::LessThanOperator))),
        '>' => Some(
            ('=', TokenKind::GreaterThanEqualToOperator, Some(TokenKind::GreaterThanOperator)),
        ),
        '=' => Some(('=', TokenKind::EqualityOperator, Some(TokenKind::AssignmentOperator))),
        _ => None,
    }
}

/// The tokens of `s` from position `p` on, up to and without the end token,
/// or the first error met on the way.
pub open spec fn tokens_from(s: Seq<char>, p: nat) -> Result<Seq<TokenView>, LexError>
    decreases s.len() - p,
{
    match lex_at(s, p) {
        Err(e) => Err(e),
        Ok((t, q)) => if t.kind == TokenKind::End {
            Ok(Seq::empty())
        } else {
            proof {
                lemma_lexeme_is_source_span(s, p);
            }
            match tokens_from(s, q) {
                Ok(rest) => Ok(seq![t] + rest),
                Err(e) => Err(e),
            }
        },
    }
}

proof fn lemma_run_ends_bounded(s: Seq<char>, i: nat)
    ensures
        i <= skip_white_space(s, i),
        i <= digit_run_end(s, i),
        i <= alphanumeric_run_end(s, i),
        i <= quote_position(s, i),
        i <= s.len() ==> skip_white_space(s, i) <= s.len(),
        i <= s.len() ==> digit_run_end(s, i) <= s.len(),
        i <= s.len() ==> alphanumeric_run_end(s, i) <= s.len(),
        i <= s.len() ==> quote_position(s, i) <= s.len(),
    decreases s.len() - i,
{
    if i < s.len() {
        lemma_run_ends_bounded(s, i + 1);
    }
}

/// Every token but the end token is a slice of the source: its text is
/// exactly the characters from its offset up to where the cursor moves, which
/// lies past the old cursor and within the source.
pub proof fn lemma_lexeme_is_source_span(s: Seq<char>, p: nat)
    ensures
        match lex_at(s, p) {
            Ok((t, q)) => t.kind != TokenKind::End ==> {
                &&& p <= t.index < q <= s.len()
                &&& t.text == s.subrange(t.index as int, q as int)
                &&& t.index + t.text.len() == q
            },
            Err(_) => true,
        },
{
    let q = skip_white_space(s, p);
    lemma_run_ends_bounded(s, p);
    if q < s.len() {
        lemma_run_ends_bounded(s, q + 1);
        let e1 = digit_run_end(s, q + 1);
        if e1 < s.len() {
            lemma_run_ends_bounded(s, e1 + 1);
        }
    }
}

/// Where lexing from a cursor within the source succeeds, the new cursor is
/// within the source too.
pub proof fn lemma_lex_keeps_cursor_in_bounds(s: Seq<char>, p: nat)
    requires
        p <= s.len(),
    ensures
        lex_at(s, p) matches Ok((_, q)) ==> q <= s.len(),
{
    lemma_run_ends_bounded(s, p);
    lemma_lexeme_is_source_span(s, p);
}

/// The tokenizer: an owned copy of the source's characters and a cursor into it.
pub struct Lexer {
    chars: Vec<char>,
    index: usize,
}

impl Lexer {
    #[verifier::type_invariant]
    spec fn cursor_in_bounds(&self) -> bool {
        self.index <= self.chars.len()
    }

    /// The characters of the source text.
    pub closed spec fn source(&self) -> Seq<char> {
        self.chars@
    }

    /// The position of the next character to read.
    pub closed spec fn cursor(&self) -> nat {
        self.index as nat
    }

    pub fn new(text: &str) -> (r: Lexer)
        ensures
            r.source() == text@,
            r.cursor() == 0,
    {
        let mut chars: Vec<char> = Vec::new();
        for c in it: text.chars()
            invariant
                chars@ == it.seq().take(it.index()),
        {
            chars.push(c);
        }
        Lexer { chars, index: 0 }
    }

    fn increment_index(&mut self)
        requires
            old(self).index < old(self).chars.len(),
        ensures
            final(self).chars == old(self).chars,
            final(self).index == old(self).index + 1,
    {
        self.index = self.index + 1;
    }

    fn increment_index_by(&mut self, by: usize)
        requires
            old(self).index + by <= old(self).chars.len(),
        ensures
            final(self).chars == old(self).chars,
            final(self).index == old(self).index + by,
    {
        self.index = self.index + by;
    }

    fn get_current_character(&self) -> (c: char)
        requires
            self.index < self.chars.len(),
        ensures
            c == self.chars@[self.index as int],
    {
        self.chars[self.index]
    }

    fn get_current_character_offset(&self, offset: usize) -> (c: char)
        requires
            self.index + offset < self.chars.len(),
        ensures
            c == self.chars@[self.index + offset],
    {
        self.chars[self.index + offset]
    }

    /// A copy of the characters from `from` up to `to`.
    fn span_text(&self, from: usize, to: usize) -> (r: Vec<char>)
        requires
            from <= to <= self.chars.len(),
        ensures
            r@ == self.chars@.subrange(from as int, to as int),
    {
        let mut text: Vec<char> = Vec::new();
        let mut i: usize = from;
        while i < to
            invariant
                from <= i <= to,
                to <= self.chars.len(),
                text@ == self.chars@.subrange(from as int, i as int),
            decreases to - i,
        {
            text.push(self.chars[i]);
            i = i + 1;
        }
        text
    }

    /// Skips white space; at the end of the input, yields the end token.
    fn lex_white_space(&mut self) -> (r: Option<Token>)
        ensures
            final(self).chars == old(self).chars,
            final(self).index == skip_white_space(old(self).chars@, old(self).index as nat),
            r is Some <==> final(self).index >= old(self).chars.len(),
            r matches Some(t) ==> t@ == end_token(old(self).chars@),
    {
        proof {
            use_type_invariant(&*self);
        }
        while self.index < self.chars.len() && is_white_space(self.chars[self.index])
            invariant
                self.index <= self.chars.len(),
                skip_white_space(self.chars@, self.index as nat) == skip_white_space(
                    old(self).chars@,
                    old(self).index as nat,
                ),
                self.chars == old(self).chars,
            decreases self.chars.len() - self.index,
        {
            self.increment_index();
        }
        if self.index < self.chars.len() {
            None
        } else {
            let mut text: Vec<char> = Vec::new();
            text.push('\0');
            Some(Token::new(self.chars.len(), text, TokenKind::End))
        }
    }

    fn lex_number_literal(&mut self) -> (r: Option<Result<Token, LexError>>)
        requires
            old(self).index < old(self).chars.len(),
        ensures
            final(self).chars == old(self).chars,
            match number_rule(old(self).chars@, old(self).index as nat) {
                None => r is None && final(self).index == old(self).index,
                Some(Ok((t, q))) => r matches Some(Ok(tok)) && tok@ == t && final(self).index == q,
                Some(Err(e)) => r matches Some(Err(e2)) && e2 == e && final(self).index
                    == old(self).index,
            },
    {
        if is_numeric(self.get_current_character()) {
            let ghost s = self.chars@;
            let start = self.index;
            let ghost e1 = digit_run_end(s, (start + 1) as nat);
            let mut end: usize = start + 1;
            let mut kind = TokenKind::IntegerLiteral;
            while end < self.chars.len()
                invariant
                    self.chars == old(self).chars,
                    self.chars@ == s,
                    self.index == start,
                    start == old(self).index,
                    e1 == digit_run_end(s, (start + 1) as nat),
                    numeric(s[start as int]),
                    start < end <= s.len(),
                    kind == TokenKind::IntegerLiteral ==> digit_run_end(s, end as nat) == e1,
                    kind == TokenKind::FloatingPointLiteral ==> {
                        &&& e1 < s.len()
                        &&& s[e1 as int] == '.'
                        &&& digit_run_end(s, end as nat) == digit_run_end(s, e1 + 1)
                    },
                    kind == TokenKind::IntegerLiteral || kind == TokenKind::FloatingPointLiteral,
                ensures
                    start < end <= s.len(),
                    kind == TokenKind::IntegerLiteral ==> digit_run_end(s, end as nat) == e1,
                    kind == TokenKind::FloatingPointLiteral ==> {
                        &&& e1 < s.len()
                        &&& s[e1 as int] == '.'
                        &&& digit_run_end(s, end as nat) == digit_run_end(s, e1 + 1)
                    },
                    kind == TokenKind::IntegerLiteral || kind == TokenKind::FloatingPointLiteral,
                    end < s.len() ==> !digit(s[end as int]),
                    end < s.len() ==> s[end as int] != '.',
                decreases s.len() - end,
            {
                let c = self.chars[end];
                if c == '.' {
                    assert(digit_run_end(s, end as nat) == end);
                    if kind == TokenKind::FloatingPointLiteral {
                        return Some(Err(LexError::MalformedNumberLiteral));
                    }
                    kind = TokenKind::FloatingPointLiteral;
                } else if !is_numeric(c) {
                    break;
                }
                end = end + 1;
            }
            assert(digit_run_end(s, end as nat) == end);
            let text = self.span_text(start, end);
            self.index = end;
            Some(Ok(Token::new(start, text, kind)))
        } else {
            None
        }
    }

    fn lex_string_literal(&mut self) -> (r: Option<Result<Token, LexError>>)
        requires
            old(self).index < old(self).chars.len(),
        ensures
            final(self).chars == old(self).chars,
            match string_rule(old(self).chars@, old(self).index as nat) {
                None => r is None && final(self).index == old(self).index,
                Some(Ok((t, q))) => r matches Some(Ok(tok)) && tok@ == t && final(self).index == q,
                Some(Err(e)) => r matches Some(Err(e2)) && e2 == e && final(self).index
                    == old(self).index,
            },
    {
        if self.get_current_character() == '"' {
            let start = self.index;
            let mut end: usize = start + 1;
            while end < self.chars.len() && self.chars[end] != '"'
                invariant
                    start < end <= self.chars.len(),
                    quote_position(self.chars@, end as nat) == quote_position(
                        self.chars@,
                        (start + 1) as nat,
                    ),
                decreases self.chars.len() - end,
            {
                end = end + 1;
            }
            if end < self.chars.len() {
                let text = self.span_text(start, end + 1);
                self.index = end + 1;
                Some(Ok(Token::new(start, text, TokenKind::StringLiteral)))
            } else {
                Some(Err(LexError::UnterminatedStringLiteral))
            }
        } else {
            None
        }
    }

    fn lex_character_literal(&mut self) -> (r: Option<Token>)
        requires
            old(self).index < old(self).chars.len(),
        ensures
            final(self).chars == old(self).chars,
            match character_rule(old(self).chars@, old(self).index as nat) {
                Some(Ok((t, q))) => r matches Some(tok) && tok@ == t && final(self).index == q,
                _ => r is None && final(self).index == old(self).index,
            },
    {
        if self.chars.len() - self.index > 2 && self.get_current_character() == '\''
            && self.get_current_character_offset(2) == '\'' {
            let start = self.index;
            let text = self.span_text(start, start + 3);
            self.increment_index_by(3);
            Some(Token::new(start, text, TokenKind::CharacterLiteral))
        } else {
            None
        }
    }

    fn lex_keyword_and_identifier(&mut self) -> (r: Option<Token>)
        requires
            old(self).index < old(self).chars.len(),
        ensures
            final(self).chars == old(self).chars,
            match identifier_rule(old(self).chars@, old(self).index as nat) {
                Some(Ok((t, q))) => r matches Some(tok) && tok@ == t && final(self).index == q,
                _ => r is None && final(self).index == old(self).index,
            },
    {
        if is_alphabetic(self.get_current_character()) {
            let start = self.index;
            let mut end: usize = start + 1;
            while end < self.chars.len() && is_alphanumeric(self.chars[end])
                invariant
                    start < end <= self.chars.len(),
                    alphanumeric_run_end(self.chars@, end as nat) == alphanumeric_run_end(
                        self.chars@,
                        (start + 1) as nat,
                    ),
                decreases self.chars.len() - end,
            {
                end = end + 1;
            }
            let text = self.span_text(start, end);
            self.index = end;
            Some(Token::new(start, text, TokenKind::Identifier))
        } else {
            None
        }
    }

    fn lex_operator(&mut self) -> (r: Result<Token, LexError>)
        requires
            old(self).index < old(self).chars.len(),
        ensures
            final(self).chars == old(self).chars,
            match operator_rule(old(self).chars@, old(self).index as nat) {
                Ok((t, q)) => r matches Ok(tok) && tok@ == t && final(self).index == q,
                Err(e) => r matches Err(e2) && e2 == e && final(self).index == old(self).index,
            },
    {
        let start = self.index;
        let current = self.get_current_character();
        if let Some(kind) = single_character_operator(current) {
            let text = self.span_text(start, start + 1);
            self.increment_index();
            return Ok(Token::new(start, text, kind));
        }
        match two_character_operator(current) {
            Some((next, double, single)) => {
                if self.chars.len() - start > 1 && self.get_current_character_offset(1) == next {
                    let text = self.span_text(start, start + 2);
                    self.increment_index_by(2);
                    Ok(Token::new(start, text, double))
                } else {
                    match single {
                        Some(kind) => {
                            let text = self.span_text(start, start + 1);
                            self.increment_index();
                            Ok(Token::new(start, text, kind))
                        },
                        None => Err(LexError::UnknownToken),
                    }
                }
            },
            None => Err(LexError::UnknownToken),
        }
    }

    /// Reads the next token from the cursor and moves the cursor past it.
    /// White space before it is skipped; at the end of the input the result is
    /// the end token, and the cursor stays at the end. On an error the cursor
    /// is left on the first character of the offending lexeme.
    pub fn lex(&mut self) -> (r: Result<Token, LexError>)
        ensures
            final(self).source() == old(self).source(),
            match lex_at(old(self).source(), old(self).cursor()) {
                Ok((t, q)) => r matches Ok(tok) && tok@ == t && final(self).cursor() == q,
                Err(e) => r matches Err(e2) && e2 == e && final(self).cursor() == skip_white_space(
                    old(self).source(),
                    old(self).cursor(),
                ),
            },
    {
        if let Some(end_token) = self.lex_white_space() {
            return Ok(end_token);
        }
        if let Some(number_literal) = self.lex_number_literal() {
            return number_literal;
        }
        if let Some(string_literal) = self.lex_string_literal() {
            return string_literal;
        }
        if let Some(character_literal) = self.lex_character_literal() {
            return Ok(character_literal);
        }
        if let Some(identifier) = self.lex_keyword_and_identifier() {
            return Ok(identifier);
        }
        self.lex_operator()
    }
}

/// Lexes the whole of `text` into a token buffer, without the end token,
/// or fails with the first lexing error.
pub fn tokenize(text: &str) -> (r: Result<Vec<Token>, LexError>)
    ensures
        match tokens_from(text@, 0) {
            Ok(ts) => r matches Ok(v) && views(v@) == ts,
            Err(e) => r matches Err(e2) && e2 == e,
        },
{
    let mut lexer = Lexer::new(text);
    let mut tokens: Vec<Token> = Vec::new();
    loop
        invariant
            lexer.source() == text@,
            lexer.cursor() <= text@.len(),
            tokens_from(text@, 0) == match tokens_from(text@, lexer.cursor()) {
                Ok(rest) => Ok(views(tokens@) + rest),
                Err(e) => Err(e),
            },
        decreases text@.len() - lexer.cursor(),
    {
        let ghost s = lexer.source();
        let ghost p = lexer.cursor();
        proof {
            lemma_lexeme_is_source_span(s, p);
            lemma_lex_keeps_cursor_in_bounds(s, p);
        }
        match lexer.lex() {
            Ok(token) => {
                if token.kind() == TokenKind::End {
                    assert(views(tokens@) + Seq::<TokenView>::empty() =~= views(tokens@));
                    return Ok(tokens);
                }
                let ghost before = tokens@;
                tokens.push(token);
                assert(views(tokens@) =~= views(before) + seq![token@]);
                assert forall|rest: Seq<TokenView>|
                    views(before) + (seq![token@] + rest) =~= views(tokens@) + rest by {}
            },
            Err(e) => {
                return Err(e);
            },
        }
    }
}

} // verus!
