//! What the parser reports when the tokens are not an expression.

use vstd::prelude::*;
use crate::ast::{placed_tree, Expr, Tree};
use crate::position::WithSpan;
use crate::token::{Token, TokenKind};

verus! {

/// A failed parse. Each kind carries the token it stopped at, or the
/// expression that cannot be assigned to.
#[derive(Debug, PartialEq)]
pub enum SyntaxError {
    /// A token stands where no rule applies.
    Unexpected(WithSpan<Token>),
    /// A token of the given kind was required, and another one was found.
    Expected(TokenKind, WithSpan<Token>),
    /// The token begins no primary expression.
    ExpectedPrimary(WithSpan<Token>),
    /// The token is no prefix or logical operator.
    ExpectedUnaryOperator(WithSpan<Token>),
    /// The token is no binary operator.
    ExpectedBinaryOperator(WithSpan<Token>),
    /// The expression left of `=` is neither a variable nor a member access.
    InvalidLeftValue(WithSpan<Expr>),
}

/// The mathematical form of a failed parse.
pub ghost enum Failure {
    Unexpected(WithSpan<Token>),
    Expected(TokenKind, WithSpan<Token>),
    ExpectedPrimary(WithSpan<Token>),
    ExpectedUnaryOperator(WithSpan<Token>),
    ExpectedBinaryOperator(WithSpan<Token>),
    InvalidLeftValue(WithSpan<Tree>),
}

impl View for SyntaxError {
    type V = Failure;

    open spec fn view(&self) -> Failure {
        match self {
            SyntaxError::Unexpected(token) => Failure::Unexpected(*token),
            SyntaxError::Expected(kind, token) => Failure::Expected(*kind, *token),
            SyntaxError::ExpectedPrimary(token) => Failure::ExpectedPrimary(*token),
            SyntaxError::ExpectedUnaryOperator(token) => Failure::ExpectedUnaryOperator(*token),
            SyntaxError::ExpectedBinaryOperator(token) => Failure::ExpectedBinaryOperator(*token),
            SyntaxError::InvalidLeftValue(node) => Failure::InvalidLeftValue(placed_tree(*node)),
        }
    }
}

} // verus!
