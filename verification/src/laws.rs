//! What holds of the grammar on every token sequence.

use vstd::prelude::*;
use crate::ast::{BinaryOperator, LogicalOperator, Tree};
use crate::error::Failure;
use crate::grammar::{
    arguments, assign, binary, call, climb, expression, get, grouping, infix, is_binary, leaf_of,
    logical,
    more_arguments, moved, parsed, prefix, primary, stops_at, unary, Precedence,
};
use crate::parser::{end_token, kind_at, step, token_at};
use crate::position::WithSpan;
use crate::token::{Token, TokenKind};

verus! {

/// Whether a successful outcome from `pos` took at least one token and
/// ended within the input.
pub open spec fn advances<T>(
    tokens: Seq<WithSpan<Token>>,
    pos: int,
    outcome: Result<(T, int), (Failure, int)>,
) -> bool {
    match outcome {
        Ok((_, next)) => moved(tokens, pos, next),
        Err(_) => true,
    }
}

/// Whether a successful outcome from `pos` ended at `pos` or later, within
/// the input.
pub open spec fn stays_within<T>(
    tokens: Seq<WithSpan<Token>>,
    pos: int,
    outcome: Result<(T, int), (Failure, int)>,
) -> bool {
    match outcome {
        Ok((_, next)) => pos <= next <= tokens.len(),
        Err(_) => true,
    }
}

/// An expression that is recognised takes at least one token and ends
/// within the input.
pub proof fn lemma_expression_advances(tokens: Seq<WithSpan<Token>>, pos: int, min: Precedence)
    ensures
        advances(tokens, pos, expression(tokens, pos, min)),
    decreases tokens.len() - pos, 5int,
{
    lemma_prefix_advances(tokens, pos);
    match prefix(tokens, pos) {
        Ok((left, next)) => {
            lemma_climb_stays_within(tokens, next, min, left);
        },
        Err(_) => {},
    }
}

/// A prefix form that is recognised takes at least one token and ends
/// within the input.
pub proof fn lemma_prefix_advances(tokens: Seq<WithSpan<Token>>, pos: int)
    ensures
        advances(tokens, pos, prefix(tokens, pos)),
        advances(tokens, pos, unary(tokens, pos)),
        advances(tokens, pos, grouping(tokens, pos)),
        advances(tokens, pos, primary(tokens, pos)),
    decreases tokens.len() - pos, 4int,
{
    if 0 <= pos < tokens.len() {
        lemma_expression_advances(tokens, pos + 1, Precedence::Unary);
        lemma_expression_advances(tokens, pos + 1, Precedence::Lowest);
    }
}

/// An infix form that is recognised takes at least one token and ends
/// within the input.
pub proof fn lemma_infix_advances(tokens: Seq<WithSpan<Token>>, pos: int, left: Tree)
    ensures
        advances(tokens, pos, infix(tokens, pos, left)),
        advances(tokens, pos, binary(tokens, pos, left)),
        advances(tokens, pos, logical(tokens, pos, left)),
        advances(tokens, pos, assign(tokens, pos, left)),
        advances(tokens, pos, call(tokens, pos, left)),
        advances(tokens, pos, get(tokens, pos, left)),
    decreases tokens.len() - pos, 1int,
{
    if 0 <= pos < tokens.len() {
        lemma_expression_advances(tokens, pos + 1, Precedence::of(kind_at(tokens, pos)));
        lemma_expression_advances(tokens, pos + 1, Precedence::Lowest);
        lemma_arguments_stay_within(tokens, pos + 1);
    }
}

/// Climbing from a position within the input ends at that position or
/// later, within the input.
pub proof fn lemma_climb_stays_within(
    tokens: Seq<WithSpan<Token>>,
    pos: int,
    min: Precedence,
    left: Tree,
)
    requires
        0 <= pos <= tokens.len(),
    ensures
        stays_within(tokens, pos, climb(tokens, pos, min, left)),
    decreases tokens.len() - pos, 2int,
{
    if !stops_at(tokens, pos, min) {
        lemma_infix_advances(tokens, pos, left);
        match infix(tokens, pos, left) {
            Ok((joined, next)) => {
                lemma_climb_stays_within(tokens, next, min, joined);
            },
            Err(_) => {},
        }
    }
}

/// An argument list from a position within the input ends at that
/// position or later, within the input.
pub proof fn lemma_arguments_stay_within(tokens: Seq<WithSpan<Token>>, pos: int)
    requires
        0 <= pos <= tokens.len(),
    ensures
        stays_within(tokens, pos, arguments(tokens, pos)),
    decreases tokens.len() - pos, 7int,
{
    if kind_at(tokens, pos) != TokenKind::RightParen {
        lemma_expression_advances(tokens, pos, Precedence::Lowest);
        match expression(tokens, pos, Precedence::Lowest) {
            Ok((first, next)) => {
                lemma_more_arguments_stay_within(tokens, next, seq![first]);
            },
            Err(_) => {},
        }
    }
}

/// The rest of an argument list from a position within the input ends at
/// that position or later, within the input.
pub proof fn lemma_more_arguments_stay_within(
    tokens: Seq<WithSpan<Token>>,
    pos: int,
    found: Seq<Tree>,
)
    requires
        0 <= pos <= tokens.len(),
    ensures
        stays_within(tokens, pos, more_arguments(tokens, pos, found)),
    decreases tokens.len() - pos, 6int,
{
    if kind_at(tokens, pos) == TokenKind::Comma {
        lemma_expression_advances(tokens, pos + 1, Precedence::Lowest);
        match expression(tokens, pos + 1, Precedence::Lowest) {
            Ok((item, next)) => {
                lemma_more_arguments_stay_within(tokens, next, found.push(item));
            },
            Err(_) => {},
        }
    }
}

/// The grammar without its guards for progress: an expression is a prefix
/// form, extended from where that form ends.
pub proof fn lemma_expression_is_prefix_then_climb(
    tokens: Seq<WithSpan<Token>>,
    pos: int,
    min: Precedence,
)
    ensures
        expression(tokens, pos, min) == match prefix(tokens, pos) {
            Err(stop) => Err(stop),
            Ok((left, next)) => climb(tokens, next, min, left),
        },
{
    lemma_prefix_advances(tokens, pos);
}

/// The grammar without its guards for progress: where climbing does not
/// stop, it takes one infix form and goes on from where that form ends.
pub proof fn lemma_climb_is_infix_then_climb(
    tokens: Seq<WithSpan<Token>>,
    pos: int,
    min: Precedence,
    left: Tree,
)
    ensures
        climb(tokens, pos, min, left) == if stops_at(tokens, pos, min) {
            Ok((left, pos))
        } else {
            match infix(tokens, pos, left) {
                Err(stop) => Err(stop),
                Ok((joined, next)) => climb(tokens, next, min, joined),
            }
        },
{
    lemma_infix_advances(tokens, pos, left);
}

/// Climbing ends where nothing continues the expression: at the end of the
/// input, or before a token that binds no more strongly than `min`.
pub proof fn lemma_climb_stops(tokens: Seq<WithSpan<Token>>, pos: int, min: Precedence, left: Tree)
    ensures
        match climb(tokens, pos, min, left) {
            Ok((_, next)) => stops_at(tokens, next, min),
            Err(_) => true,
        },
    decreases tokens.len() - pos,
{
    if !stops_at(tokens, pos, min) {
        lemma_infix_advances(tokens, pos, left);
        match infix(tokens, pos, left) {
            Ok((joined, next)) => {
                lemma_climb_stops(tokens, next, min, joined);
            },
            Err(_) => {},
        }
    }
}

/// What follows a recognised expression is never taken in and never makes
/// it fail: the expression ends at the end of the input, or before a token
/// that binds no more strongly than `min`. For a whole expression that is
/// a token which is no infix operator at all.
pub proof fn lemma_expression_stops(tokens: Seq<WithSpan<Token>>, pos: int, min: Precedence)
    ensures
        match expression(tokens, pos, min) {
            Ok((_, next)) => stops_at(tokens, next, min),
            Err(_) => true,
        },
        match parsed(tokens, pos) {
            Ok((_, next)) => kind_at(tokens, next) == TokenKind::Eof || Precedence::of(
                kind_at(tokens, next),
            ) == Precedence::Lowest,
            Err(_) => true,
        },
{
    lemma_prefix_advances(tokens, pos);
    match prefix(tokens, pos) {
        Ok((left, next)) => {
            lemma_climb_stops(tokens, next, min, left);
            lemma_climb_stops(tokens, next, Precedence::Lowest, left);
        },
        Err(_) => {},
    }
}

/// Whether two token sequences hold the same tokens from `pos` up to
/// `next`, and a token of the same kind at `next`.
pub open spec fn agree(
    a: Seq<WithSpan<Token>>,
    b: Seq<WithSpan<Token>>,
    pos: int,
    next: int,
) -> bool {
    &&& 0 <= pos <= next
    &&& next <= a.len()
    &&& next <= b.len()
    &&& forall|i: int| pos <= i < next ==> #[trigger] a[i] == b[i]
    &&& kind_at(a, next) == kind_at(b, next)
}

/// Whether an outcome on `a` from `pos`, if it is a success, is also the
/// outcome on every `b` that agrees with `a` up to where it ended.
pub open spec fn local<T>(
    a: Seq<WithSpan<Token>>,
    b: Seq<WithSpan<Token>>,
    pos: int,
    on_a: Result<(T, int), (Failure, int)>,
    on_b: Result<(T, int), (Failure, int)>,
) -> bool {
    on_a is Ok && agree(a, b, pos, on_a->Ok_0.1) ==> on_b == on_a
}

/// A recognised expression is a function of the tokens it took and of the
/// kind of the token after them: whatever else the input holds, before or
/// after, the same expression is recognised and it ends at the same place.
pub proof fn lemma_expression_local(
    a: Seq<WithSpan<Token>>,
    b: Seq<WithSpan<Token>>,
    pos: int,
    min: Precedence,
)
    ensures
        local(a, b, pos, expression(a, pos, min), expression(b, pos, min)),
    decreases a.len() - pos, 5int,
{
    lemma_prefix_advances(a, pos);
    match prefix(a, pos) {
        Ok((left, mid)) => {
            lemma_climb_stays_within(a, mid, min, left);
            lemma_prefix_local(a, b, pos);
            lemma_climb_local(a, b, mid, min, left);
        },
        Err(_) => {},
    }
}

/// The same for the forms that begin an expression.
pub proof fn lemma_prefix_local(a: Seq<WithSpan<Token>>, b: Seq<WithSpan<Token>>, pos: int)
    ensures
        local(a, b, pos, prefix(a, pos), prefix(b, pos)),
        local(a, b, pos, unary(a, pos), unary(b, pos)),
        local(a, b, pos, grouping(a, pos), grouping(b, pos)),
        local(a, b, pos, primary(a, pos), primary(b, pos)),
    decreases a.len() - pos, 4int,
{
    if 0 <= pos < a.len() {
        lemma_expression_advances(a, pos + 1, Precedence::Unary);
        lemma_expression_advances(a, pos + 1, Precedence::Lowest);
        lemma_expression_local(a, b, pos + 1, Precedence::Unary);
        lemma_expression_local(a, b, pos + 1, Precedence::Lowest);
    }
}

/// The same for the forms that continue an expression.
pub proof fn lemma_infix_local(
    a: Seq<WithSpan<Token>>,
    b: Seq<WithSpan<Token>>,
    pos: int,
    left: Tree,
)
    ensures
        local(a, b, pos, infix(a, pos, left), infix(b, pos, left)),
        local(a, b, pos, binary(a, pos, left), binary(b, pos, left)),
        local(a, b, pos, logical(a, pos, left), logical(b, pos, left)),
        local(a, b, pos, assign(a, pos, left), assign(b, pos, left)),
        local(a, b, pos, call(a, pos, left), call(b, pos, left)),
        local(a, b, pos, get(a, pos, left), get(b, pos, left)),
    decreases a.len() - pos, 1int,
{
    if 0 <= pos < a.len() {
        let min = Precedence::of(kind_at(a, pos));
        lemma_expression_advances(a, pos + 1, min);
        lemma_expression_advances(a, pos + 1, Precedence::Lowest);
        lemma_arguments_stay_within(a, pos + 1);
        lemma_expression_local(a, b, pos + 1, min);
        lemma_expression_local(a, b, pos + 1, Precedence::Lowest);
        lemma_arguments_local(a, b, pos + 1);
    }
}

/// The same for climbing from `left`.
pub proof fn lemma_climb_local(
    a: Seq<WithSpan<Token>>,
    b: Seq<WithSpan<Token>>,
    pos: int,
    min: Precedence,
    left: Tree,
)
    ensures
        local(a, b, pos, climb(a, pos, min, left), climb(b, pos, min, left)),
    decreases a.len() - pos, 2int,
{
    if !stops_at(a, pos, min) {
        lemma_infix_advances(a, pos, left);
        match infix(a, pos, left) {
            Ok((joined, mid)) => {
                lemma_climb_stays_within(a, mid, min, joined);
                lemma_infix_local(a, b, pos, left);
                lemma_climb_local(a, b, mid, min, joined);
            },
            Err(_) => {},
        }
    }
}

/// The same for an argument list.
pub proof fn lemma_arguments_local(a: Seq<WithSpan<Token>>, b: Seq<WithSpan<Token>>, pos: int)
    ensures
        local(a, b, pos, arguments(a, pos), arguments(b, pos)),
    decreases a.len() - pos, 7int,
{
    if kind_at(a, pos) != TokenKind::RightParen {
        lemma_expression_advances(a, pos, Precedence::Lowest);
        match expression(a, pos, Precedence::Lowest) {
            Ok((first, mid)) => {
                lemma_more_arguments_stay_within(a, mid, seq![first]);
                lemma_expression_local(a, b, pos, Precedence::Lowest);
                lemma_more_arguments_local(a, b, mid, seq![first]);
            },
            Err(_) => {},
        }
    }
}

/// The same for the rest of an argument list.
pub proof fn lemma_more_arguments_local(
    a: Seq<WithSpan<Token>>,
    b: Seq<WithSpan<Token>>,
    pos: int,
    found: Seq<Tree>,
)
    ensures
        local(a, b, pos, more_arguments(a, pos, found), more_arguments(b, pos, found)),
    decreases a.len() - pos, 6int,
{
    if kind_at(a, pos) == TokenKind::Comma {
        lemma_expression_advances(a, pos + 1, Precedence::Lowest);
        match expression(a, pos + 1, Precedence::Lowest) {
            Ok((item, mid)) => {
                lemma_more_arguments_stay_within(a, mid, found.push(item));
                lemma_expression_local(a, b, pos + 1, Precedence::Lowest);
                lemma_more_arguments_local(a, b, mid, found.push(item));
            },
            Err(_) => {},
        }
    }
}

/// A single literal token is the leaf it stands for: as a primary at the
/// place of the token, and as a whole expression.
pub proof fn lemma_single_literal(tokens: Seq<WithSpan<Token>>)
    requires
        tokens.len() == 1,
        leaf_of(tokens[0]) is Some,
    ensures
        primary(tokens, 0) == Ok::<(WithSpan<Tree>, int), (Failure, int)>(
            (WithSpan { value: leaf_of(tokens[0])->Some_0, span: tokens[0].span }, 1),
        ),
        parsed(tokens, 0) == Ok::<(Tree, int), (Failure, int)>((leaf_of(tokens[0])->Some_0, 1)),
{
    let leaf = leaf_of(tokens[0])->Some_0;
    assert(token_at(tokens, 0) == tokens[0]);
    assert(prefix(tokens, 0) == Ok::<(Tree, int), (Failure, int)>((leaf, 1)));
    assert(climb(tokens, 1, Precedence::Lowest, leaf) == Ok::<(Tree, int), (Failure, int)>((leaf, 1)));
}

/// How strongly the node at the top of a tree binds: the level of the
/// precedence of its operator for an infix form, and 11, above every
/// precedence, for a form that begins with its own token.
pub open spec fn binding(tree: Tree) -> nat {
    match tree {
        Tree::Binary(_, operator, _) => match operator.value {
            BinaryOperator::Slash | BinaryOperator::Star => Precedence::Factor.level(),
            BinaryOperator::Plus | BinaryOperator::Minus => Precedence::Term.level(),
            BinaryOperator::Greater
            | BinaryOperator::GreaterEqual
            | BinaryOperator::Less
            | BinaryOperator::LessEqual => Precedence::Comparison.level(),
            BinaryOperator::BangEqual | BinaryOperator::EqualEqual => Precedence::Equality.level(),
        },
        Tree::Logical(_, operator, _) => match operator.value {
            LogicalOperator::And => Precedence::And.level(),
            LogicalOperator::Or => Precedence::Or.level(),
        },
        Tree::Assign(_, _) | Tree::SetMember(_, _, _) => Precedence::Assign.level(),
        Tree::Call(_, _) | Tree::Get(_, _) => Precedence::Call.level(),
        _ => 11,
    }
}

/// An infix form binds as strongly as the precedence of the token it
/// begins with.
pub proof fn lemma_infix_binding(tokens: Seq<WithSpan<Token>>, pos: int, left: Tree)
    ensures
        match infix(tokens, pos, left) {
            Ok((joined, _)) => binding(joined) == Precedence::of(kind_at(tokens, pos)).level(),
            Err(_) => true,
        },
{
}

/// Climbing returns `left` itself or a node that binds more strongly than
/// `min`.
pub proof fn lemma_climb_binds_above(
    tokens: Seq<WithSpan<Token>>,
    pos: int,
    min: Precedence,
    left: Tree,
)
    ensures
        match climb(tokens, pos, min, left) {
            Ok((tree, _)) => tree == left || binding(tree) > min.level(),
            Err(_) => true,
        },
    decreases tokens.len() - pos,
{
    if !stops_at(tokens, pos, min) {
        lemma_infix_binding(tokens, pos, left);
        match infix(tokens, pos, left) {
            Ok((joined, next)) => {
                if moved(tokens, pos, next) {
                    lemma_climb_binds_above(tokens, next, min, joined);
                }
            },
            Err(_) => {},
        }
    }
}

/// The node at the top of a recognised expression binds more strongly than
/// `min`: no operator of precedence `min` or weaker is taken in.
pub proof fn lemma_expression_binds_above(tokens: Seq<WithSpan<Token>>, pos: int, min: Precedence)
    ensures
        match expression(tokens, pos, min) {
            Ok((tree, _)) => binding(tree) > min.level(),
            Err(_) => true,
        },
{
    match prefix(tokens, pos) {
        Ok((left, next)) => {
            assert(binding(left) == 11);
            lemma_climb_binds_above(tokens, next, min, left);
        },
        Err(_) => {},
    }
}

/// Binary and logical operators associate to the left: the right operand
/// of one binds more strongly than the operator itself, so it is never a
/// node of the same or a weaker operator.
pub proof fn lemma_left_associative(tokens: Seq<WithSpan<Token>>, pos: int, left: Tree)
    ensures
        match binary(tokens, pos, left) {
            Ok((tree, _)) => tree is Binary && *tree->Binary_0 == left && binding(
                *tree->Binary_2,
            ) > binding(tree),
            Err(_) => true,
        },
        match logical(tokens, pos, left) {
            Ok((tree, _)) => tree is Logical && *tree->Logical_0 == left && binding(
                *tree->Logical_2,
            ) > binding(tree),
            Err(_) => true,
        },
{
    lemma_expression_binds_above(tokens, pos + 1, Precedence::of(kind_at(tokens, pos)));
}

/// A prefix operator binds more strongly than every binary and logical
/// operator and than `=`: its operand is a form that begins with its own
/// token, a call or a member access.
pub proof fn lemma_unary_binds_tightest(tokens: Seq<WithSpan<Token>>, pos: int)
    ensures
        match unary(tokens, pos) {
            Ok((tree, _)) => tree is Unary && binding(*tree->Unary_1) > Precedence::Unary.level(),
            Err(_) => true,
        },
{
    lemma_expression_binds_above(tokens, pos + 1, Precedence::Unary);
}

/// A parenthesised expression stays a node of its own around the
/// expression between the parentheses, and ends after the closing one.
pub proof fn lemma_grouping_wraps(tokens: Seq<WithSpan<Token>>, pos: int)
    ensures
        match grouping(tokens, pos) {
            Ok((node, next)) => kind_at(tokens, pos) == TokenKind::LeftParen && kind_at(
                tokens,
                next - 1,
            ) == TokenKind::RightParen && node.value is Grouping && expression(
                tokens,
                pos + 1,
                Precedence::Lowest,
            ) == Ok::<(Tree, int), (Failure, int)>((*node.value->Grouping_0, next - 1)),
            Err(_) => true,
        },
        match prefix(tokens, pos) {
            Ok((tree, _)) => kind_at(tokens, pos) == TokenKind::LeftParen ==> tree is Grouping,
            Err(_) => true,
        },
{
}

/// Where the expression between the parentheses is followed by anything
/// but a closing parenthesis, the failure asks for one and carries the
/// token that stands there.
pub proof fn lemma_grouping_must_close(tokens: Seq<WithSpan<Token>>, pos: int)
    requires
        kind_at(tokens, pos) == TokenKind::LeftParen,
        expression(tokens, pos + 1, Precedence::Lowest) is Ok,
        kind_at(tokens, expression(tokens, pos + 1, Precedence::Lowest)->Ok_0.1)
            != TokenKind::RightParen,
    ensures
        grouping(tokens, pos) == Err::<(WithSpan<Tree>, int), (Failure, int)>(
            (
                Failure::Expected(
                    TokenKind::RightParen,
                    token_at(tokens, expression(tokens, pos + 1, Precedence::Lowest)->Ok_0.1),
                ),
                step(tokens, expression(tokens, pos + 1, Precedence::Lowest)->Ok_0.1),
            ),
        ),
{
}

/// A comma in an argument list must be followed by an argument: before a
/// closing parenthesis the list fails with `Unexpected`, which carries the
/// parenthesis, and the parenthesis is not taken.
pub proof fn lemma_no_trailing_comma(tokens: Seq<WithSpan<Token>>, pos: int, found: Seq<Tree>)
    requires
        kind_at(tokens, pos) == TokenKind::Comma,
        kind_at(tokens, pos + 1) == TokenKind::RightParen,
    ensures
        more_arguments(tokens, pos, found) == Err::<(Seq<Tree>, int), (Failure, int)>(
            (Failure::Unexpected(token_at(tokens, pos + 1)), pos + 1),
        ),
{
    let stop = (Failure::Unexpected(token_at(tokens, pos + 1)), pos + 1);
    assert(prefix(tokens, pos + 1) == Err::<(Tree, int), (Failure, int)>(stop));
    assert(expression(tokens, pos + 1, Precedence::Lowest) == Err::<(Tree, int), (Failure, int)>(
        stop,
    ));
}

/// Only a variable and a member access can be assigned to. With any other
/// target an assignment never succeeds, and where its value is an
/// expression it fails with `InvalidLeftValue`, which carries the target.
pub proof fn lemma_only_targets_are_assigned(tokens: Seq<WithSpan<Token>>, pos: int, left: Tree)
    requires
        !(left is Variable),
        !(left is Get),
    ensures
        assign(tokens, pos, left) is Err,
        kind_at(tokens, pos) == TokenKind::Equal && expression(tokens, pos + 1, Precedence::Lowest)
            is Ok ==> assign(tokens, pos, left) == Err::<(Tree, int), (Failure, int)>(
            (
                Failure::InvalidLeftValue(WithSpan::unplaced(left)),
                expression(tokens, pos + 1, Precedence::Lowest)->Ok_0.1,
            ),
        ),
{
}

/// Assignment associates to the right: the value of an assignment is a
/// whole expression, which may itself be an assignment.
pub proof fn lemma_assignment_takes_whole_value(
    tokens: Seq<WithSpan<Token>>,
    pos: int,
    name: WithSpan<Seq<char>>,
)
    ensures
        match assign(tokens, pos, Tree::Variable(name)) {
            Ok((tree, next)) => tree is Assign && tree->Assign_0 == name && expression(
                tokens,
                pos + 1,
                Precedence::Lowest,
            ) == Ok::<(Tree, int), (Failure, int)>((*tree->Assign_1, next)),
            Err(_) => true,
        },
{
}

/// `!` has a precedence in the table and is still no infix operator:
/// after an expression it is never taken, and where a caller would go on
/// past it the failure is `Unexpected`, which carries it.
pub proof fn lemma_bang_is_no_infix(
    tokens: Seq<WithSpan<Token>>,
    pos: int,
    min: Precedence,
    left: Tree,
)
    requires
        kind_at(tokens, pos) == TokenKind::Bang,
    ensures
        infix(tokens, pos, left) == Err::<(Tree, int), (Failure, int)>(
            (Failure::Unexpected(token_at(tokens, pos)), pos),
        ),
        climb(tokens, pos, min, left) == if min.level() >= Precedence::Unary.level() {
            Ok((left, pos))
        } else {
            Err((Failure::Unexpected(token_at(tokens, pos)), pos))
        },
{
}

/// At the end of the input no expression begins: the failure is
/// `Unexpected` with the end token, and nothing is taken. So an operator
/// with nothing after it fails in that way.
pub proof fn lemma_nothing_at_the_end(tokens: Seq<WithSpan<Token>>, pos: int, min: Precedence)
    requires
        pos >= tokens.len(),
    ensures
        expression(tokens, pos, min) == Err::<(Tree, int), (Failure, int)>(
            (Failure::Unexpected(end_token()), pos),
        ),
{
    assert(token_at(tokens, pos) == end_token());
    assert(prefix(tokens, pos) == Err::<(Tree, int), (Failure, int)>(
        (Failure::Unexpected(end_token()), pos),
    ));
}

/// A binary or logical operator that is the last token has no right
/// operand: the failure is `Unexpected` with the end token.
pub proof fn lemma_operator_needs_operand(tokens: Seq<WithSpan<Token>>, left: Tree)
    requires
        tokens.len() > 0,
    ensures
        binary(tokens, tokens.len() - 1, left) is Err,
        logical(tokens, tokens.len() - 1, left) is Err,
        is_binary(kind_at(tokens, tokens.len() - 1)) ==> binary(tokens, tokens.len() - 1, left)
            == Err::<(Tree, int), (Failure, int)>(
            (Failure::Unexpected(end_token()), tokens.len() as int),
        ),
        kind_at(tokens, tokens.len() - 1) == TokenKind::And || kind_at(tokens, tokens.len() - 1)
            == TokenKind::Or ==> logical(tokens, tokens.len() - 1, left) == Err::<
            (Tree, int),
            (Failure, int),
        >((Failure::Unexpected(end_token()), tokens.len() as int)),
{
    let last = tokens.len() - 1;
    lemma_nothing_at_the_end(tokens, last + 1, Precedence::of(kind_at(tokens, last)));
}

} // verus!
