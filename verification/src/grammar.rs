//! The expression grammar as pure functions on a token sequence.
//!
//! Each function reads the tokens from a position and gives either what it
//! recognised, with the position after it, or the failure it stopped at,
//! with the position after the last token that was taken.

use vstd::prelude::*;
use crate::ast::{BinaryOperator, LogicalOperator, Tree, UnaryOperator};
use crate::error::Failure;
use crate::parser::{expected_at, identifier_at, kind_at, step, token_at};
use crate::position::{Span, WithSpan};
use crate::token::{Token, TokenKind};

verus! {

/// How strongly an infix token binds, weakest first.
#[derive(Clone, Copy, Debug, PartialEq, Eq, Structural)]
pub enum Precedence {
    Lowest,
    Assign,
    Or,
    And,
    Equality,
    Comparison,
    Term,
    Factor,
    Unary,
    Call,
    Primary,
}

impl Precedence {
    /// The place of a precedence in the order, from 0 for `Lowest` to 10 for
    /// `Primary`.
    pub open spec fn level(self) -> nat {
        match self {
            Precedence::Lowest => 0,
            Precedence::Assign => 1,
            Precedence::Or => 2,
            Precedence::And => 3,
            Precedence::Equality => 4,
            Precedence::Comparison => 5,
            Precedence::Term => 6,
            Precedence::Factor => 7,
            Precedence::Unary => 8,
            Precedence::Call => 9,
            Precedence::Primary => 10,
        }
    }

    /// The precedence of a token kind in infix position; `Lowest` for a kind
    /// that never continues an expression.
    pub open spec fn of(kind: TokenKind) -> Precedence {
        match kind {
            TokenKind::Equal => Precedence::Assign,
            TokenKind::Or => Precedence::Or,
            TokenKind::And => Precedence::And,
            TokenKind::BangEqual | TokenKind::EqualEqual => Precedence::Equality,
            TokenKind::Less
            | TokenKind::LessEqual
            | TokenKind::Greater
            | TokenKind::GreaterEqual => Precedence::Comparison,
            TokenKind::Plus | TokenKind::Minus => Precedence::Term,
            TokenKind::Star | TokenKind::Slash => Precedence::Factor,
            TokenKind::Bang => Precedence::Unary,
            TokenKind::LeftParen => Precedence::Call,
            TokenKind::Dot => Precedence::Call,
            _ => Precedence::Lowest,
        }
    }

    /// The place of this precedence in the order.
    pub fn rank(self) -> (rank: u8)
        ensures
            rank == self.level(),
    {
        match self {
            Precedence::Lowest => 0,
            Precedence::Assign => 1,
            Precedence::Or => 2,
            Precedence::And => 3,
            Precedence::Equality => 4,
            Precedence::Comparison => 5,
            Precedence::Term => 6,
            Precedence::Factor => 7,
            Precedence::Unary => 8,
            Precedence::Call => 9,
            Precedence::Primary => 10,
        }
    }

    /// Whether this precedence is as strong as `other`, or stronger.
    pub fn holds_against(self, other: Precedence) -> (holds: bool)
        ensures
            holds == (self.level() >= other.level()),
    {
        self.rank() >= other.rank()
    }
}

impl From<TokenKind> for Precedence {
    /// The precedence of a token kind in infix position.
    fn from(kind: TokenKind) -> (precedence: Precedence)
        ensures
            precedence == Precedence::of(kind),
    {
        match kind {
            TokenKind::Equal => Precedence::Assign,
            TokenKind::Or => Precedence::Or,
            TokenKind::And => Precedence::And,
            TokenKind::BangEqual | TokenKind::EqualEqual => Precedence::Equality,
            TokenKind::Less
            | TokenKind::LessEqual
            | TokenKind::Greater
            | TokenKind::GreaterEqual => Precedence::Comparison,
            TokenKind::Plus | TokenKind::Minus => Precedence::Term,
            TokenKind::Star | TokenKind::Slash => Precedence::Factor,
            TokenKind::Bang => Precedence::Unary,
            TokenKind::LeftParen => Precedence::Call,
            TokenKind::Dot => Precedence::Call,
            _ => Precedence::Lowest,
        }
    }
}

impl vstd::std_specs::convert::FromSpecImpl<TokenKind> for Precedence {
    open spec fn obeys_from_spec() -> bool {
        true
    }

    open spec fn from_spec(kind: TokenKind) -> Precedence {
        Precedence::of(kind)
    }
}

/// The prefix operator that the token at `pos` is.
pub open spec fn unary_op(tokens: Seq<WithSpan<Token>>, pos: int) -> Result<
    WithSpan<UnaryOperator>,
    Failure,
> {
    let token = token_at(tokens, pos);
    match token.value {
        Token::Bang => Ok(WithSpan { value: UnaryOperator::Bang, span: token.span }),
        Token::Minus => Ok(WithSpan { value: UnaryOperator::Minus, span: token.span }),
        _ => Err(Failure::ExpectedUnaryOperator(token)),
    }
}

/// The logical operator that the token at `pos` is.
pub open spec fn logical_op(tokens: Seq<WithSpan<Token>>, pos: int) -> Result<
    WithSpan<LogicalOperator>,
    Failure,
> {
    let token = token_at(tokens, pos);
    match token.value {
        Token::And => Ok(WithSpan { value: LogicalOperator::And, span: token.span }),
        Token::Or => Ok(WithSpan { value: LogicalOperator::Or, span: token.span }),
        _ => Err(Failure::ExpectedUnaryOperator(token)),
    }
}

/// The binary operator that a token is, if it is one.
pub open spec fn binary_operator_of(token: Token) -> Option<BinaryOperator> {
    match token {
        Token::BangEqual => Some(BinaryOperator::BangEqual),
        Token::EqualEqual => Some(BinaryOperator::EqualEqual),
        Token::Less => Some(BinaryOperator::Less),
        Token::LessEqual => Some(BinaryOperator::LessEqual),
        Token::Greater => Some(BinaryOperator::Greater),
        Token::GreaterEqual => Some(BinaryOperator::GreaterEqual),
        Token::Plus => Some(BinaryOperator::Plus),
        Token::Minus => Some(BinaryOperator::Minus),
        Token::Star => Some(BinaryOperator::Star),
        Token::Slash => Some(BinaryOperator::Slash),
        _ => None,
    }
}

/// The binary operator that the token at `pos` is.
pub open spec fn binary_op(tokens: Seq<WithSpan<Token>>, pos: int) -> Result<
    WithSpan<BinaryOperator>,
    Failure,
> {
    let token = token_at(tokens, pos);
    match binary_operator_of(token.value) {
        Some(operator) => Ok(WithSpan { value: operator, span: token.span }),
        None => Err(Failure::ExpectedBinaryOperator(token)),
    }
}

/// Whether a token kind begins a primary expression.
pub open spec fn begins_primary(kind: TokenKind) -> bool {
    kind == TokenKind::Number || kind == TokenKind::Nil || kind == TokenKind::This || kind
        == TokenKind::True || kind == TokenKind::False || kind == TokenKind::Identifier || kind
        == TokenKind::Super || kind == TokenKind::String
}

/// Whether a token kind is a binary operator.
pub open spec fn is_binary(kind: TokenKind) -> bool {
    kind == TokenKind::BangEqual || kind == TokenKind::EqualEqual || kind == TokenKind::Less
        || kind == TokenKind::LessEqual || kind == TokenKind::Greater || kind
        == TokenKind::GreaterEqual || kind == TokenKind::Plus || kind == TokenKind::Minus || kind
        == TokenKind::Star || kind == TokenKind::Slash
}

/// The leaf that a literal token stands for: `nil`, a boolean, a number,
/// a string, a name or `this`.
pub open spec fn leaf_of(token: WithSpan<Token>) -> Option<Tree> {
    match token.value {
        Token::Nil => Some(Tree::Nil),
        Token::This => Some(Tree::This),
        Token::Number(bits) => Some(Tree::Number(bits)),
        Token::True => Some(Tree::Boolean(true)),
        Token::False => Some(Tree::Boolean(false)),
        Token::String(text) => Some(Tree::Text(text@)),
        Token::Identifier(name) => Some(Tree::Variable(WithSpan { value: name@, span: token.span })),
        _ => None,
    }
}

/// `super . name` from the `.` at `pos`, where the keyword stood at
/// `keyword`. The place of the result runs from the keyword to the name.
pub open spec fn super_access(tokens: Seq<WithSpan<Token>>, pos: int, keyword: Span) -> Result<
    (WithSpan<Tree>, int),
    (Failure, int),
> {
    match expected_at(tokens, pos, TokenKind::Dot) {
        Err(failure) => Err((failure, step(tokens, pos))),
        Ok(_) => match identifier_at(tokens, pos + 1) {
            Err(failure) => Err((failure, step(tokens, pos + 1))),
            Ok(name) => Ok(
                (
                    WithSpan { value: Tree::Super(name), span: Span::cover(keyword, name.span) },
                    pos + 2,
                ),
            ),
        },
    }
}

/// A primary expression at `pos`: a leaf, at the place of its token, or a
/// `super` access.
pub open spec fn primary(tokens: Seq<WithSpan<Token>>, pos: int) -> Result<
    (WithSpan<Tree>, int),
    (Failure, int),
> {
    let token = token_at(tokens, pos);
    match leaf_of(token) {
        Some(leaf) => Ok((WithSpan { value: leaf, span: token.span }, pos + 1)),
        None => if token.value.kind() == TokenKind::Super {
            super_access(tokens, pos + 1, token.span)
        } else {
            Err((Failure::ExpectedPrimary(token), step(tokens, pos)))
        },
    }
}

/// What `=` makes of a target and a value: a variable is assigned, a
/// member is stored to, and anything else is no target.
pub open spec fn assignment(target: Tree, value: Tree) -> Result<Tree, Failure> {
    match target {
        Tree::Variable(name) => Ok(Tree::Assign(name, Box::new(value))),
        Tree::Get(object, member) => Ok(Tree::SetMember(object, member, Box::new(value))),
        other => Err(Failure::InvalidLeftValue(WithSpan::unplaced(other))),
    }
}

/// Whether a step from `pos` to `next` took at least one token. The
/// recursive functions below ask this before they read on, which is what
/// makes them well founded; every successful step does take a token.
pub open spec fn moved(tokens: Seq<WithSpan<Token>>, pos: int, next: int) -> bool {
    0 <= pos < next <= tokens.len()
}

/// Whether nothing at `pos` continues an expression for a caller that
/// takes in only what binds more strongly than `min`: the input ends
/// there, or the token binds no more strongly than `min`.
pub open spec fn stops_at(tokens: Seq<WithSpan<Token>>, pos: int, min: Precedence) -> bool {
    kind_at(tokens, pos) == TokenKind::Eof || min.level() >= Precedence::of(
        kind_at(tokens, pos),
    ).level()
}

/// An expression at `pos` whose infix operators all bind more strongly
/// than `min`.
pub open spec fn expression(tokens: Seq<WithSpan<Token>>, pos: int, min: Precedence) -> Result<
    (Tree, int),
    (Failure, int),
>
    decreases tokens.len() - pos, 5int,
{
    match prefix(tokens, pos) {
        Err(stop) => Err(stop),
        Ok((left, next)) => if moved(tokens, pos, next) {
            climb(tokens, next, min, left)
        } else {
            Ok((left, next))
        },
    }
}

/// `left`, extended by the infix forms from `pos` on that bind more
/// strongly than `min`. It stops at the end of the input and before the
/// first token that does not.
pub open spec fn climb(tokens: Seq<WithSpan<Token>>, pos: int, min: Precedence, left: Tree) -> Result<
    (Tree, int),
    (Failure, int),
>
    decreases tokens.len() - pos, 2int,
{
    if stops_at(tokens, pos, min) {
        Ok((left, pos))
    } else {
        match infix(tokens, pos, left) {
            Err(stop) => Err(stop),
            Ok((joined, next)) => if moved(tokens, pos, next) {
                climb(tokens, next, min, joined)
            } else {
                Ok((joined, next))
            },
        }
    }
}

/// An expression that begins at `pos`: a primary, a prefix operator with
/// its operand, or a parenthesised expression.
pub open spec fn prefix(tokens: Seq<WithSpan<Token>>, pos: int) -> Result<
    (Tree, int),
    (Failure, int),
>
    decreases tokens.len() - pos, 4int,
{
    let kind = kind_at(tokens, pos);
    if begins_primary(kind) {
        match primary(tokens, pos) {
            Err(stop) => Err(stop),
            Ok((node, next)) => Ok((node.value, next)),
        }
    } else if kind == TokenKind::Bang || kind == TokenKind::Minus {
        unary(tokens, pos)
    } else if kind == TokenKind::LeftParen {
        match grouping(tokens, pos) {
            Err(stop) => Err(stop),
            Ok((node, next)) => Ok((node.value, next)),
        }
    } else {
        Err((Failure::Unexpected(token_at(tokens, pos)), pos))
    }
}

/// A prefix operator at `pos` and its operand, which takes in only what
/// binds more strongly than a prefix operator.
pub open spec fn unary(tokens: Seq<WithSpan<Token>>, pos: int) -> Result<
    (Tree, int),
    (Failure, int),
>
    decreases tokens.len() - pos, 3int,
{
    match unary_op(tokens, pos) {
        Err(failure) => Err((failure, step(tokens, pos))),
        Ok(operator) => match expression(tokens, pos + 1, Precedence::Unary) {
            Err(stop) => Err(stop),
            Ok((operand, next)) => Ok((Tree::Unary(operator, Box::new(operand)), next)),
        },
    }
}

/// `( expression )` at `pos`. The place of the result runs from the one
/// parenthesis to the other.
pub open spec fn grouping(tokens: Seq<WithSpan<Token>>, pos: int) -> Result<
    (WithSpan<Tree>, int),
    (Failure, int),
>
    decreases tokens.len() - pos, 3int,
{
    match expected_at(tokens, pos, TokenKind::LeftParen) {
        Err(failure) => Err((failure, step(tokens, pos))),
        Ok(opening) => match expression(tokens, pos + 1, Precedence::Lowest) {
            Err(stop) => Err(stop),
            Ok((inner, next)) => match expected_at(tokens, next, TokenKind::RightParen) {
                Err(failure) => Err((failure, step(tokens, next))),
                Ok(closing) => Ok(
                    (
                        WithSpan {
                            value: Tree::Grouping(Box::new(inner)),
                            span: Span::cover(opening.span, closing.span),
                        },
                        next + 1,
                    ),
                ),
            },
        },
    }
}

/// `left`, joined with the infix form that begins at `pos`.
pub open spec fn infix(tokens: Seq<WithSpan<Token>>, pos: int, left: Tree) -> Result<
    (Tree, int),
    (Failure, int),
>
    decreases tokens.len() - pos, 1int,
{
    let kind = kind_at(tokens, pos);
    if is_binary(kind) {
        binary(tokens, pos, left)
    } else if kind == TokenKind::Or || kind == TokenKind::And {
        logical(tokens, pos, left)
    } else if kind == TokenKind::Equal {
        assign(tokens, pos, left)
    } else if kind == TokenKind::LeftParen {
        call(tokens, pos, left)
    } else if kind == TokenKind::Dot {
        get(tokens, pos, left)
    } else {
        Err((Failure::Unexpected(token_at(tokens, pos)), pos))
    }
}

/// `left operator right` with a binary operator at `pos`. The right
/// operand takes in only what binds more strongly than the operator.
pub open spec fn binary(tokens: Seq<WithSpan<Token>>, pos: int, left: Tree) -> Result<
    (Tree, int),
    (Failure, int),
>
    decreases tokens.len() - pos, 0int,
{
    match binary_op(tokens, pos) {
        Err(failure) => Err((failure, step(tokens, pos))),
        Ok(operator) => match expression(tokens, pos + 1, Precedence::of(kind_at(tokens, pos))) {
            Err(stop) => Err(stop),
            Ok((right, next)) => Ok((Tree::Binary(Box::new(left), operator, Box::new(right)), next)),
        },
    }
}

/// `left operator right` with `and` or `or` at `pos`. The right operand
/// takes in only what binds more strongly than the operator.
pub open spec fn logical(tokens: Seq<WithSpan<Token>>, pos: int, left: Tree) -> Result<
    (Tree, int),
    (Failure, int),
>
    decreases tokens.len() - pos, 0int,
{
    match logical_op(tokens, pos) {
        Err(failure) => Err((failure, step(tokens, pos))),
        Ok(operator) => match expression(tokens, pos + 1, Precedence::of(kind_at(tokens, pos))) {
            Err(stop) => Err(stop),
            Ok((right, next)) => Ok(
                (Tree::Logical(Box::new(left), operator, Box::new(right)), next),
            ),
        },
    }
}

/// `left = value` with `=` at `pos`. The value is a whole expression, and
/// a failure in it comes before the one of a target that cannot be
/// assigned to.
pub open spec fn assign(tokens: Seq<WithSpan<Token>>, pos: int, left: Tree) -> Result<
    (Tree, int),
    (Failure, int),
>
    decreases tokens.len() - pos, 0int,
{
    match expected_at(tokens, pos, TokenKind::Equal) {
        Err(failure) => Err((failure, step(tokens, pos))),
        Ok(_) => match expression(tokens, pos + 1, Precedence::Lowest) {
            Err(stop) => Err(stop),
            Ok((value, next)) => match assignment(left, value) {
                Err(failure) => Err((failure, next)),
                Ok(node) => Ok((node, next)),
            },
        },
    }
}

/// `left ( arguments )` with `(` at `pos`.
pub open spec fn call(tokens: Seq<WithSpan<Token>>, pos: int, left: Tree) -> Result<
    (Tree, int),
    (Failure, int),
>
    decreases tokens.len() - pos, 0int,
{
    match expected_at(tokens, pos, TokenKind::LeftParen) {
        Err(failure) => Err((failure, step(tokens, pos))),
        Ok(_) => match arguments(tokens, pos + 1) {
            Err(stop) => Err(stop),
            Ok((list, next)) => match expected_at(tokens, next, TokenKind::RightParen) {
                Err(failure) => Err((failure, step(tokens, next))),
                Ok(_) => Ok((Tree::Call(Box::new(left), list), next + 1)),
            },
        },
    }
}

/// `left . name` with `.` at `pos`.
pub open spec fn get(tokens: Seq<WithSpan<Token>>, pos: int, left: Tree) -> Result<
    (Tree, int),
    (Failure, int),
> {
    match expected_at(tokens, pos, TokenKind::Dot) {
        Err(failure) => Err((failure, step(tokens, pos))),
        Ok(_) => match identifier_at(tokens, pos + 1) {
            Err(failure) => Err((failure, step(tokens, pos + 1))),
            Ok(name) => Ok((Tree::Get(Box::new(left), name), pos + 2)),
        },
    }
}

/// The arguments of a call from `pos`, up to and without the closing
/// parenthesis: none where it is next, else expressions with a comma
/// between each two.
pub open spec fn arguments(tokens: Seq<WithSpan<Token>>, pos: int) -> Result<
    (Seq<Tree>, int),
    (Failure, int),
>
    decreases tokens.len() - pos, 6int,
{
    if kind_at(tokens, pos) == TokenKind::RightParen {
        Ok((Seq::empty(), pos))
    } else {
        match expression(tokens, pos, Precedence::Lowest) {
            Err(stop) => Err(stop),
            Ok((first, next)) => if moved(tokens, pos, next) {
                more_arguments(tokens, next, seq![first])
            } else {
                Ok((seq![first], next))
            },
        }
    }
}

/// `found`, followed by the arguments that stand from `pos` on, each one
/// after a comma.
pub open spec fn more_arguments(tokens: Seq<WithSpan<Token>>, pos: int, found: Seq<Tree>) -> Result<
    (Seq<Tree>, int),
    (Failure, int),
>
    decreases tokens.len() - pos, 6int,
{
    if kind_at(tokens, pos) == TokenKind::Comma {
        match expression(tokens, pos + 1, Precedence::Lowest) {
            Err(stop) => Err(stop),
            Ok((item, next)) => if moved(tokens, pos, next) {
                more_arguments(tokens, next, found.push(item))
            } else {
                Ok((found.push(item), next))
            },
        }
    } else {
        Ok((found, pos))
    }
}

/// The expression that the tokens from `pos` on begin with.
pub open spec fn parsed(tokens: Seq<WithSpan<Token>>, pos: int) -> Result<
    (Tree, int),
    (Failure, int),
> {
    expression(tokens, pos, Precedence::Lowest)
}

} // verus!
