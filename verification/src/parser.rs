//! A cursor over a slice of positioned tokens.

use vstd::prelude::*;
use crate::ast::Identifier;
use crate::error::{Failure, SyntaxError};
use crate::position::{Span, WithSpan};
use crate::token::{copy_token, Token, TokenKind};

verus! {

/// The token that stands for the end of the input. It has no place in the
/// source.
pub open spec fn end_token() -> WithSpan<Token> {
    WithSpan { value: Token::Eof, span: Span::nowhere() }
}

/// The token at `pos`, or the end token where `pos` is past the last one.
pub open spec fn token_at(tokens: Seq<WithSpan<Token>>, pos: int) -> WithSpan<Token> {
    if 0 <= pos < tokens.len() {
        tokens[pos]
    } else {
        end_token()
    }
}

/// The kind of the token at `pos`.
pub open spec fn kind_at(tokens: Seq<WithSpan<Token>>, pos: int) -> TokenKind {
    token_at(tokens, pos).value.kind()
}

/// The position after the token at `pos` is taken: the next one, or `pos`
/// itself where no token is left.
pub open spec fn step(tokens: Seq<WithSpan<Token>>, pos: int) -> int {
    if 0 <= pos < tokens.len() {
        pos + 1
    } else {
        pos
    }
}

/// The token at `pos` if it is of `kind`, and the failure that names both
/// if it is not.
pub open spec fn expected_at(tokens: Seq<WithSpan<Token>>, pos: int, kind: TokenKind) -> Result<
    WithSpan<Token>,
    Failure,
> {
    let token = token_at(tokens, pos);
    if token.value.kind() == kind {
        Ok(token)
    } else {
        Err(Failure::Expected(kind, token))
    }
}

/// The name at `pos`, with the token's place, or the failure that asks
/// for an identifier.
pub open spec fn identifier_at(tokens: Seq<WithSpan<Token>>, pos: int) -> Result<
    WithSpan<Seq<char>>,
    Failure,
> {
    let token = token_at(tokens, pos);
    match token.value {
        Token::Identifier(name) => Ok(WithSpan { value: name@, span: token.span }),
        _ => Err(Failure::Expected(TokenKind::Identifier, token)),
    }
}

/// A cursor over tokens. Reading past the last token yields the end token
/// and leaves the cursor where it is.
pub struct Parser<'a> {
    tokens: &'a [WithSpan<Token>],
    cursor: usize,
}

impl<'a> Parser<'a> {
    /// The tokens that the cursor runs over.
    pub closed spec fn stream(&self) -> Seq<WithSpan<Token>> {
        self.tokens@
    }

    /// How many tokens have been taken.
    pub closed spec fn cursor(&self) -> int {
        self.cursor as int
    }

    /// How many tokens are left to take.
    pub open spec fn remaining(&self) -> int {
        if self.cursor() <= self.stream().len() {
            self.stream().len() - self.cursor()
        } else {
            0
        }
    }

    /// A cursor before the first of `tokens`.
    pub fn new(tokens: &'a [WithSpan<Token>]) -> (parser: Parser<'a>)
        ensures
            parser.stream() == tokens@,
            parser.cursor() == 0,
    {
        Parser { tokens, cursor: 0 }
    }

    /// How many tokens have been taken.
    pub fn position(&self) -> (pos: usize)
        ensures
            pos == self.cursor(),
    {
        self.cursor
    }

    /// The next token, not taken.
    pub fn peek_token(&self) -> (token: WithSpan<Token>)
        ensures
            token == token_at(self.stream(), self.cursor()),
    {
        if self.cursor < self.tokens.len() {
            copy_token(&self.tokens[self.cursor])
        } else {
            WithSpan::empty(Token::Eof)
        }
    }

    /// The kind of the next token, not taken.
    pub fn peek(&self) -> (kind: TokenKind)
        ensures
            kind == kind_at(self.stream(), self.cursor()),
    {
        if self.cursor < self.tokens.len() {
            self.tokens[self.cursor].value.to_kind()
        } else {
            TokenKind::Eof
        }
    }

    /// Whether the next token is of `kind`.
    pub fn check(&self, kind: TokenKind) -> (same: bool)
        ensures
            same == (kind_at(self.stream(), self.cursor()) == kind),
    {
        self.peek() == kind
    }

    /// Whether the end of the input is next.
    pub fn is_eof(&self) -> (done: bool)
        ensures
            done == (kind_at(self.stream(), self.cursor()) == TokenKind::Eof),
            !done ==> self.cursor() < self.stream().len(),
    {
        self.check(TokenKind::Eof)
    }

    /// Takes the next token. At the end of the input it returns the end
    /// token and takes nothing.
    pub fn advance(&mut self) -> (token: WithSpan<Token>)
        ensures
            token == token_at(old(self).stream(), old(self).cursor()),
            final(self).stream() == old(self).stream(),
            final(self).cursor() == step(old(self).stream(), old(self).cursor()),
    {
        let token = self.peek_token();
        if self.cursor < self.tokens.len() {
            self.cursor = self.cursor + 1;
        }
        token
    }

    /// Takes the next token and returns it if it is of `kind`; fails with
    /// `Expected` if it is not. The token is taken either way.
    pub fn expect(&mut self, kind: TokenKind) -> (found: Result<WithSpan<Token>, SyntaxError>)
        ensures
            final(self).stream() == old(self).stream(),
            final(self).cursor() == step(old(self).stream(), old(self).cursor()),
            match expected_at(old(self).stream(), old(self).cursor(), kind) {
                Ok(token) => found == Ok::<WithSpan<Token>, SyntaxError>(token),
                Err(failure) => found is Err && found->Err_0@ == failure,
            },
    {
        let token = self.advance();
        if token.value.to_kind() == kind {
            Ok(token)
        } else {
            Err(SyntaxError::Expected(kind, token))
        }
    }
}

/// Takes the next token and returns its name if it is an identifier; fails
/// with `Expected` if it is not. The token is taken either way.
pub fn expect_identifier(parser: &mut Parser) -> (found: Result<WithSpan<Identifier>, SyntaxError>)
    ensures
        final(parser).stream() == old(parser).stream(),
        final(parser).cursor() == step(old(parser).stream(), old(parser).cursor()),
        match identifier_at(old(parser).stream(), old(parser).cursor()) {
            Ok(name) => found is Ok && found->Ok_0.value@ == name.value && found->Ok_0.span
                == name.span,
            Err(failure) => found is Err && found->Err_0@ == failure,
        },
{
    let token = parser.advance();
    let span = token.span;
    match token.value {
        Token::Identifier(name) => Ok(WithSpan::new(name, span)),
        other => Err(SyntaxError::Expected(TokenKind::Identifier, WithSpan::new(other, span))),
    }
}

} // verus!
