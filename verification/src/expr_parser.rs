//! The precedence-climbing expression parser.
//!
//! Every function here takes tokens from a cursor and returns what the
//! grammar function of the same form gives for the tokens and the position
//! that the cursor had.

use vstd::prelude::*;
use crate::ast::{
    lemma_call_tree, placed_tree, trees_of, BinaryOperator, Expr, LogicalOperator, Tree,
    UnaryOperator,
};
use crate::error::{Failure, SyntaxError};
use crate::laws::lemma_expression_stops;
use crate::grammar::{
    arguments, assign, assignment, binary, binary_op, call, climb, expression, get, grouping,
    infix, logical, logical_op, more_arguments, moved, parsed, prefix, primary, stops_at,
    super_access, unary, unary_op, Precedence,
};
use crate::parser::{expect_identifier, step, Parser};
use crate::position::{Span, WithSpan};
use crate::token::{copy_token, Token, TokenKind};

verus! {

/// Whether a returned expression, or error, and the cursor's new position
/// are what the grammar gives, on success and on failure.
pub open spec fn yields(
    result: Result<Expr, SyntaxError>,
    next: int,
    model: Result<(Tree, int), (Failure, int)>,
) -> bool {
    match model {
        Ok((tree, pos)) => result is Ok && result->Ok_0@ == tree && next == pos,
        Err((failure, pos)) => result is Err && result->Err_0@ == failure && next == pos,
    }
}

/// The same for an expression returned with its place.
pub open spec fn yields_placed(
    result: Result<WithSpan<Expr>, SyntaxError>,
    next: int,
    model: Result<(WithSpan<Tree>, int), (Failure, int)>,
) -> bool {
    match model {
        Ok((node, pos)) => result is Ok && placed_tree(result->Ok_0) == node && next == pos,
        Err((failure, pos)) => result is Err && result->Err_0@ == failure && next == pos,
    }
}

/// The same for a list of expressions.
pub open spec fn yields_list(
    result: Result<Vec<Expr>, SyntaxError>,
    next: int,
    model: Result<(Seq<Tree>, int), (Failure, int)>,
) -> bool {
    match model {
        Ok((list, pos)) => result is Ok && trees_of(result->Ok_0@) == list && next == pos,
        Err((failure, pos)) => result is Err && result->Err_0@ == failure && next == pos,
    }
}

/// Whether a returned operator, or error, is what the grammar gives.
pub open spec fn yields_operator<T>(
    result: Result<WithSpan<T>, SyntaxError>,
    model: Result<WithSpan<T>, Failure>,
) -> bool {
    match model {
        Ok(operator) => result == Ok::<WithSpan<T>, SyntaxError>(operator),
        Err(failure) => result is Err && result->Err_0@ == failure,
    }
}

/// Whether an assignment node, or error, is what the grammar gives.
pub open spec fn yields_node(result: Result<Expr, SyntaxError>, model: Result<Tree, Failure>) -> bool {
    match model {
        Ok(tree) => result is Ok && result->Ok_0@ == tree,
        Err(failure) => result is Err && result->Err_0@ == failure,
    }
}

/// Parses an expression whose infix operators all bind more strongly than
/// `precedence`. On success at least one token was taken, and the cursor
/// stands after the expression: at the end of the input, or before a token
/// that binds no more strongly than `precedence`.
pub fn parse_expr(it: &mut Parser, precedence: Precedence) -> (result: Result<Expr, SyntaxError>)
    ensures
        final(it).stream() == old(it).stream(),
        old(it).cursor() <= final(it).cursor(),
        yields(
            result,
            final(it).cursor(),
            expression(old(it).stream(), old(it).cursor(), precedence),
        ),
        result is Ok ==> moved(old(it).stream(), old(it).cursor(), final(it).cursor()),
        result is Ok ==> stops_at(old(it).stream(), final(it).cursor(), precedence),
    decreases old(it).remaining(), 5int,
{
    let ghost tokens = it.stream();
    let ghost start = it.cursor();
    let mut expr = match parse_prefix(it) {
        Ok(expr) => expr,
        Err(error) => return Err(error),
    };
    while !it.is_eof()
        invariant
            tokens == old(it).stream(),
            start == old(it).cursor(),
            it.stream() == tokens,
            moved(tokens, start, it.cursor()),
            expression(tokens, start, precedence) == climb(tokens, it.cursor(), precedence, expr@),
        ensures
            it.stream() == tokens,
            moved(tokens, start, it.cursor()),
            expression(tokens, start, precedence) == Ok::<(Tree, int), (Failure, int)>(
                (expr@, it.cursor()),
            ),
        decreases it.remaining(),
    {
        let next_precedence = Precedence::from(it.peek());
        if precedence.holds_against(next_precedence) {
            break;
        }
        expr = match parse_infix(it, expr) {
            Ok(joined) => joined,
            Err(error) => return Err(error),
        };
    }
    proof {
        lemma_expression_stops(tokens, start, precedence);
    }
    Ok(expr)
}

/// Joins `left` with the infix form that begins at the cursor.
pub fn parse_infix(it: &mut Parser, left: Expr) -> (result: Result<Expr, SyntaxError>)
    ensures
        final(it).stream() == old(it).stream(),
        old(it).cursor() <= final(it).cursor(),
        yields(result, final(it).cursor(), infix(old(it).stream(), old(it).cursor(), left@)),
        result is Ok ==> moved(old(it).stream(), old(it).cursor(), final(it).cursor()),
    decreases old(it).remaining(), 1int,
{
    match it.peek() {
        TokenKind::BangEqual
        | TokenKind::EqualEqual
        | TokenKind::Less
        | TokenKind::LessEqual
        | TokenKind::Greater
        | TokenKind::GreaterEqual
        | TokenKind::Plus
        | TokenKind::Minus
        | TokenKind::Star
        | TokenKind::Slash => parse_binary(it, left),
        TokenKind::Or | TokenKind::And => parse_logical(it, left),
        TokenKind::Equal => parse_assign(it, left),
        TokenKind::LeftParen => parse_call(it, left),
        TokenKind::Dot => parse_get(it, left),
        _ => Err(SyntaxError::Unexpected(it.peek_token())),
    }
}

/// Parses an expression that begins at the cursor: a primary, a prefix
/// operator with its operand, or a parenthesised expression.
pub fn parse_prefix(it: &mut Parser) -> (result: Result<Expr, SyntaxError>)
    ensures
        final(it).stream() == old(it).stream(),
        old(it).cursor() <= final(it).cursor(),
        yields(result, final(it).cursor(), prefix(old(it).stream(), old(it).cursor())),
        result is Ok ==> moved(old(it).stream(), old(it).cursor(), final(it).cursor()),
    decreases old(it).remaining(), 4int,
{
    match it.peek() {
        TokenKind::Number
        | TokenKind::Nil
        | TokenKind::This
        | TokenKind::True
        | TokenKind::False
        | TokenKind::Identifier
        | TokenKind::Super
        | TokenKind::String => match parse_primary(it) {
            Ok(node) => Ok(node.value),
            Err(error) => Err(error),
        },
        TokenKind::Bang | TokenKind::Minus => parse_unary(it),
        TokenKind::LeftParen => match parse_grouping(it) {
            Ok(node) => Ok(node.value),
            Err(error) => Err(error),
        },
        _ => Err(SyntaxError::Unexpected(it.peek_token())),
    }
}

/// Parses `. name` after `left`.
pub fn parse_get(it: &mut Parser, left: Expr) -> (result: Result<Expr, SyntaxError>)
    ensures
        final(it).stream() == old(it).stream(),
        old(it).cursor() <= final(it).cursor(),
        yields(result, final(it).cursor(), get(old(it).stream(), old(it).cursor(), left@)),
        result is Ok ==> moved(old(it).stream(), old(it).cursor(), final(it).cursor()),
{
    match it.expect(TokenKind::Dot) {
        Ok(_) => {},
        Err(error) => return Err(error),
    }
    let tc = it.advance();
    let span = tc.span;
    match tc.value {
        Token::Identifier(name) => Ok(Expr::Get(Box::new(left), WithSpan::new(name, span))),
        other => Err(SyntaxError::Expected(TokenKind::Identifier, WithSpan::new(other, span))),
    }
}

/// Parses `( arguments )` after `left`.
pub fn parse_call(it: &mut Parser, left: Expr) -> (result: Result<Expr, SyntaxError>)
    ensures
        final(it).stream() == old(it).stream(),
        old(it).cursor() <= final(it).cursor(),
        yields(result, final(it).cursor(), call(old(it).stream(), old(it).cursor(), left@)),
        result is Ok ==> moved(old(it).stream(), old(it).cursor(), final(it).cursor()),
    decreases old(it).remaining(), 0int,
{
    match it.expect(TokenKind::LeftParen) {
        Ok(_) => {},
        Err(error) => return Err(error),
    }
    let args = match parse_arguments(it) {
        Ok(args) => args,
        Err(error) => return Err(error),
    };
    match it.expect(TokenKind::RightParen) {
        Ok(_) => {},
        Err(error) => return Err(error),
    }
    proof {
        lemma_call_tree(left, args);
    }
    Ok(Expr::Call(Box::new(left), args))
}

/// Parses the arguments of a call, up to and without the closing
/// parenthesis. A comma must be followed by an argument.
pub fn parse_arguments(it: &mut Parser) -> (result: Result<Vec<Expr>, SyntaxError>)
    ensures
        final(it).stream() == old(it).stream(),
        old(it).cursor() <= final(it).cursor(),
        yields_list(result, final(it).cursor(), arguments(old(it).stream(), old(it).cursor())),
    decreases old(it).remaining(), 6int,
{
    let ghost tokens = it.stream();
    let ghost start = it.cursor();
    let mut args: Vec<Expr> = Vec::new();
    if !it.check(TokenKind::RightParen) {
        let first = match parse_expr(it, Precedence::Lowest) {
            Ok(first) => first,
            Err(error) => return Err(error),
        };
        let ghost first_tree = first@;
        args.push(first);
        assert(trees_of(args@) =~= seq![first_tree]);
        while it.check(TokenKind::Comma)
            invariant
                tokens == old(it).stream(),
                start == old(it).cursor(),
                it.stream() == tokens,
                moved(tokens, start, it.cursor()),
                arguments(tokens, start) == more_arguments(tokens, it.cursor(), trees_of(args@)),
            decreases it.remaining(),
        {
            match it.expect(TokenKind::Comma) {
                Ok(_) => {},
                Err(error) => return Err(error),
            }
            let item = match parse_expr(it, Precedence::Lowest) {
                Ok(item) => item,
                Err(error) => return Err(error),
            };
            let ghost item_tree = item@;
            let ghost before = trees_of(args@);
            args.push(item);
            assert(trees_of(args@) =~= before.push(item_tree));
        }
    } else {
        assert(trees_of(args@) =~= Seq::<Tree>::empty());
    }
    Ok(args)
}

/// Makes the node for `left = right`: an assignment where `left` is a
/// variable, a store where it is a member access. Anything else fails with
/// `InvalidLeftValue`, which carries `left`.
pub fn assign_to(left: Expr, right: Expr) -> (result: Result<Expr, SyntaxError>)
    ensures
        yields_node(result, assignment(left@, right@)),
        result is Ok <==> (left is Variable || left is Get),
        result is Err ==> result->Err_0 == SyntaxError::InvalidLeftValue(
            WithSpan::unplaced(left),
        ),
{
    match left {
        Expr::Variable(name) => Ok(Expr::Assign(name, Box::new(right))),
        Expr::Get(object, member) => Ok(Expr::SetMember(object, member, Box::new(right))),
        other => Err(SyntaxError::InvalidLeftValue(WithSpan::empty(other))),
    }
}

/// Parses `= value` after `left`, which must be a variable or a member
/// access.
pub fn parse_assign(it: &mut Parser, left: Expr) -> (result: Result<Expr, SyntaxError>)
    ensures
        final(it).stream() == old(it).stream(),
        old(it).cursor() <= final(it).cursor(),
        yields(result, final(it).cursor(), assign(old(it).stream(), old(it).cursor(), left@)),
        result is Ok ==> moved(old(it).stream(), old(it).cursor(), final(it).cursor()),
    decreases old(it).remaining(), 0int,
{
    match it.expect(TokenKind::Equal) {
        Ok(_) => {},
        Err(error) => return Err(error),
    }
    let right = match parse_expr(it, Precedence::Lowest) {
        Ok(right) => right,
        Err(error) => return Err(error),
    };
    assign_to(left, right)
}

/// Parses `and` or `or` and its right operand after `left`.
pub fn parse_logical(it: &mut Parser, left: Expr) -> (result: Result<Expr, SyntaxError>)
    ensures
        final(it).stream() == old(it).stream(),
        old(it).cursor() <= final(it).cursor(),
        yields(result, final(it).cursor(), logical(old(it).stream(), old(it).cursor(), left@)),
        result is Ok ==> moved(old(it).stream(), old(it).cursor(), final(it).cursor()),
    decreases old(it).remaining(), 0int,
{
    let precedence = Precedence::from(it.peek());
    let operator = match parse_logical_op(it) {
        Ok(operator) => operator,
        Err(error) => return Err(error),
    };
    let right = match parse_expr(it, precedence) {
        Ok(right) => right,
        Err(error) => return Err(error),
    };
    Ok(Expr::Logical(Box::new(left), operator, Box::new(right)))
}

/// Parses `( expression )`. The place of the result runs from the one
/// parenthesis to the other.
pub fn parse_grouping(it: &mut Parser) -> (result: Result<WithSpan<Expr>, SyntaxError>)
    ensures
        final(it).stream() == old(it).stream(),
        old(it).cursor() <= final(it).cursor(),
        yields_placed(result, final(it).cursor(), grouping(old(it).stream(), old(it).cursor())),
        result is Ok ==> moved(old(it).stream(), old(it).cursor(), final(it).cursor()),
    decreases old(it).remaining(), 3int,
{
    let left_paren = match it.expect(TokenKind::LeftParen) {
        Ok(token) => token,
        Err(error) => return Err(error),
    };
    let expr = match parse_expr(it, Precedence::Lowest) {
        Ok(expr) => expr,
        Err(error) => return Err(error),
    };
    let right_paren = match it.expect(TokenKind::RightParen) {
        Ok(token) => token,
        Err(error) => return Err(error),
    };
    let span = Span::union(left_paren.span, right_paren.span);
    Ok(WithSpan::new(Expr::Grouping(Box::new(expr)), span))
}

/// Parses a binary operator and its right operand after `left`.
pub fn parse_binary(it: &mut Parser, left: Expr) -> (result: Result<Expr, SyntaxError>)
    ensures
        final(it).stream() == old(it).stream(),
        old(it).cursor() <= final(it).cursor(),
        yields(result, final(it).cursor(), binary(old(it).stream(), old(it).cursor(), left@)),
        result is Ok ==> moved(old(it).stream(), old(it).cursor(), final(it).cursor()),
    decreases old(it).remaining(), 0int,
{
    let precedence = Precedence::from(it.peek());
    let operator = match parse_binary_op(it) {
        Ok(operator) => operator,
        Err(error) => return Err(error),
    };
    let right = match parse_expr(it, precedence) {
        Ok(right) => right,
        Err(error) => return Err(error),
    };
    Ok(Expr::Binary(Box::new(left), operator, Box::new(right)))
}

/// Parses a prefix operator and its operand.
pub fn parse_unary(it: &mut Parser) -> (result: Result<Expr, SyntaxError>)
    ensures
        final(it).stream() == old(it).stream(),
        old(it).cursor() <= final(it).cursor(),
        yields(result, final(it).cursor(), unary(old(it).stream(), old(it).cursor())),
        result is Ok ==> moved(old(it).stream(), old(it).cursor(), final(it).cursor()),
    decreases old(it).remaining(), 3int,
{
    let operator = match parse_unary_op(it) {
        Ok(operator) => operator,
        Err(error) => return Err(error),
    };
    let right = match parse_expr(it, Precedence::Unary) {
        Ok(right) => right,
        Err(error) => return Err(error),
    };
    Ok(Expr::Unary(operator, Box::new(right)))
}

/// Takes the next token as `and` or `or`. Any other token fails with
/// `ExpectedUnaryOperator`.
pub fn parse_logical_op(it: &mut Parser) -> (result: Result<WithSpan<LogicalOperator>, SyntaxError>)
    ensures
        final(it).stream() == old(it).stream(),
        final(it).cursor() == step(old(it).stream(), old(it).cursor()),
        yields_operator(result, logical_op(old(it).stream(), old(it).cursor())),
{
    let tc = it.advance();
    let operator = match &tc.value {
        Token::And => LogicalOperator::And,
        Token::Or => LogicalOperator::Or,
        _ => return Err(SyntaxError::ExpectedUnaryOperator(tc)),
    };
    Ok(WithSpan::new(operator, tc.span))
}

/// Takes the next token as `!` or `-`. Any other token fails with
/// `ExpectedUnaryOperator`.
pub fn parse_unary_op(it: &mut Parser) -> (result: Result<WithSpan<UnaryOperator>, SyntaxError>)
    ensures
        final(it).stream() == old(it).stream(),
        final(it).cursor() == step(old(it).stream(), old(it).cursor()),
        yields_operator(result, unary_op(old(it).stream(), old(it).cursor())),
{
    let tc = it.advance();
    match &tc.value {
        Token::Bang => Ok(WithSpan::new(UnaryOperator::Bang, tc.span)),
        Token::Minus => Ok(WithSpan::new(UnaryOperator::Minus, tc.span)),
        _ => Err(SyntaxError::ExpectedUnaryOperator(tc)),
    }
}

/// Takes the next token as an operator of comparison, equality or
/// arithmetic. Any other token fails with `ExpectedBinaryOperator`.
pub fn parse_binary_op(it: &mut Parser) -> (result: Result<WithSpan<BinaryOperator>, SyntaxError>)
    ensures
        final(it).stream() == old(it).stream(),
        final(it).cursor() == step(old(it).stream(), old(it).cursor()),
        yields_operator(result, binary_op(old(it).stream(), old(it).cursor())),
{
    let tc = it.advance();
    let operator = match &tc.value {
        Token::BangEqual => BinaryOperator::BangEqual,
        Token::EqualEqual => BinaryOperator::EqualEqual,
        Token::Less => BinaryOperator::Less,
        Token::LessEqual => BinaryOperator::LessEqual,
        Token::Greater => BinaryOperator::Greater,
        Token::GreaterEqual => BinaryOperator::GreaterEqual,
        Token::Plus => BinaryOperator::Plus,
        Token::Minus => BinaryOperator::Minus,
        Token::Star => BinaryOperator::Star,
        Token::Slash => BinaryOperator::Slash,
        _ => return Err(SyntaxError::ExpectedBinaryOperator(tc)),
    };
    Ok(WithSpan::new(operator, tc.span))
}

/// Takes one token and returns the leaf it stands for, at the token's
/// place; after `super`, a member access. Any other token fails with
/// `ExpectedPrimary`.
pub fn parse_primary(it: &mut Parser) -> (result: Result<WithSpan<Expr>, SyntaxError>)
    ensures
        final(it).stream() == old(it).stream(),
        old(it).cursor() <= final(it).cursor(),
        yields_placed(result, final(it).cursor(), primary(old(it).stream(), old(it).cursor())),
        result is Ok ==> moved(old(it).stream(), old(it).cursor(), final(it).cursor()),
{
    let tc = it.advance();
    match &tc.value {
        Token::Nil => Ok(WithSpan::new(Expr::Nil, tc.span)),
        Token::This => Ok(WithSpan::new(Expr::This, tc.span)),
        Token::Number(n) => Ok(WithSpan::new(Expr::Number(*n), tc.span)),
        Token::True => Ok(WithSpan::new(Expr::Boolean(true), tc.span)),
        Token::False => Ok(WithSpan::new(Expr::Boolean(false), tc.span)),
        Token::String(s) => Ok(WithSpan::new(Expr::String(s.clone()), tc.span)),
        Token::Identifier(s) => Ok(
            WithSpan::new(Expr::Variable(WithSpan::new(s.clone(), tc.span)), tc.span),
        ),
        Token::Super => parse_super(it, &tc),
        _ => Err(SyntaxError::ExpectedPrimary(copy_token(&tc))),
    }
}

/// Parses `. name` after the keyword `super`. The place of the result runs
/// from the keyword to the name.
pub fn parse_super(it: &mut Parser, keyword: &WithSpan<Token>) -> (result: Result<
    WithSpan<Expr>,
    SyntaxError,
>)
    ensures
        final(it).stream() == old(it).stream(),
        old(it).cursor() <= final(it).cursor(),
        yields_placed(
            result,
            final(it).cursor(),
            super_access(old(it).stream(), old(it).cursor(), keyword.span),
        ),
        result is Ok ==> final(it).cursor() == old(it).cursor() + 2 && final(it).cursor() <= old(
            it,
        ).stream().len(),
{
    match it.expect(TokenKind::Dot) {
        Ok(_) => {},
        Err(error) => return Err(error),
    }
    let name = match expect_identifier(it) {
        Ok(name) => name,
        Err(error) => return Err(error),
    };
    let span = Span::union(keyword.span, name.span);
    Ok(WithSpan::new(Expr::Super(name), span))
}

/// Parses the expression that the tokens at the cursor begin with. On
/// success the cursor stands after it, before a token that continues no
/// expression; what follows is left for the caller.
pub fn parse(it: &mut Parser) -> (result: Result<Expr, SyntaxError>)
    ensures
        final(it).stream() == old(it).stream(),
        old(it).cursor() <= final(it).cursor(),
        yields(result, final(it).cursor(), parsed(old(it).stream(), old(it).cursor())),
        result is Ok ==> moved(old(it).stream(), old(it).cursor(), final(it).cursor()),
        result is Ok ==> stops_at(old(it).stream(), final(it).cursor(), Precedence::Lowest),
{
    parse_expr(it, Precedence::Lowest)
}

} // verus!
