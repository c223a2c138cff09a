//! Expression trees: the owned form that the parser builds, and the
//! mathematical form that contracts speak of.

use vstd::prelude::*;
use crate::position::WithSpan;

verus! {

/// A name as it stands in the source.
pub type Identifier = String;

/// A prefix operator.
#[derive(Clone, Copy, Debug, PartialEq, Eq, Structural)]
pub enum UnaryOperator {
    Bang,
    Minus,
}

/// An infix operator of comparison, equality or arithmetic.
#[derive(Clone, Copy, Debug, PartialEq, Eq, Structural)]
pub enum BinaryOperator {
    Slash,
    Star,
    Plus,
    Minus,
    Greater,
    GreaterEqual,
    Less,
    LessEqual,
    BangEqual,
    EqualEqual,
}

/// A short-circuiting infix operator.
#[derive(Clone, Copy, Debug, PartialEq, Eq, Structural)]
pub enum LogicalOperator {
    And,
    Or,
}

/// An expression. Every node owns its children. A number holds the bit
/// pattern of its IEEE 754 double.
#[derive(Debug, PartialEq)]
pub enum Expr {
    Binary(Box<Expr>, WithSpan<BinaryOperator>, Box<Expr>),
    Grouping(Box<Expr>),
    Number(u64),
    Boolean(bool),
    Nil,
    This,
    Super(WithSpan<Identifier>),
    String(String),
    Unary(WithSpan<UnaryOperator>, Box<Expr>),
    Variable(WithSpan<Identifier>),
    Logical(Box<Expr>, WithSpan<LogicalOperator>, Box<Expr>),
    Assign(WithSpan<Identifier>, Box<Expr>),
    Call(Box<Expr>, Vec<Expr>),
    Get(Box<Expr>, WithSpan<Identifier>),
    SetMember(Box<Expr>, WithSpan<Identifier>, Box<Expr>),
}

/// The mathematical form of an expression: text is a sequence of
/// characters, and the arguments of a call are a sequence of trees.
pub ghost enum Tree {
    Binary(Box<Tree>, WithSpan<BinaryOperator>, Box<Tree>),
    Grouping(Box<Tree>),
    Number(u64),
    Boolean(bool),
    Nil,
    This,
    Super(WithSpan<Seq<char>>),
    Text(Seq<char>),
    Unary(WithSpan<UnaryOperator>, Box<Tree>),
    Variable(WithSpan<Seq<char>>),
    Logical(Box<Tree>, WithSpan<LogicalOperator>, Box<Tree>),
    Assign(WithSpan<Seq<char>>, Box<Tree>),
    Call(Box<Tree>, Seq<Tree>),
    Get(Box<Tree>, WithSpan<Seq<char>>),
    SetMember(Box<Tree>, WithSpan<Seq<char>>, Box<Tree>),
}

/// The characters of a positioned name, at the same place.
pub open spec fn name_of(name: WithSpan<Identifier>) -> WithSpan<Seq<char>> {
    WithSpan { value: name.value@, span: name.span }
}

/// The trees of a sequence of expressions, in the same order.
pub open spec fn trees_of(items: Seq<Expr>) -> Seq<Tree> {
    Seq::new(items.len(), |i: int| items[i]@)
}

impl Expr {
    /// The tree that this expression stands for.
    pub open spec fn tree(&self) -> Tree
        decreases self,
    {
        match self {
            Expr::Binary(left, operator, right) => Tree::Binary(
                Box::new(left.tree()),
                *operator,
                Box::new(right.tree()),
            ),
            Expr::Grouping(inner) => Tree::Grouping(Box::new(inner.tree())),
            Expr::Number(bits) => Tree::Number(*bits),
            Expr::Boolean(value) => Tree::Boolean(*value),
            Expr::Nil => Tree::Nil,
            Expr::This => Tree::This,
            Expr::Super(member) => Tree::Super(name_of(*member)),
            Expr::String(text) => Tree::Text(text@),
            Expr::Unary(operator, operand) => Tree::Unary(*operator, Box::new(operand.tree())),
            Expr::Variable(name) => Tree::Variable(name_of(*name)),
            Expr::Logical(left, operator, right) => Tree::Logical(
                Box::new(left.tree()),
                *operator,
                Box::new(right.tree()),
            ),
            Expr::Assign(name, value) => Tree::Assign(name_of(*name), Box::new(value.tree())),
            Expr::Call(callee, arguments) => Tree::Call(
                Box::new(callee.tree()),
                Seq::new(
                    arguments@.len(),
                    |i: int|
                        if 0 <= i < arguments@.len() {
                            arguments@[i].tree()
                        } else {
                            Tree::Nil
                        },
                ),
            ),
            Expr::Get(object, member) => Tree::Get(Box::new(object.tree()), name_of(*member)),
            Expr::SetMember(object, member, value) => Tree::SetMember(
                Box::new(object.tree()),
                name_of(*member),
                Box::new(value.tree()),
            ),
        }
    }
}

impl View for Expr {
    type V = Tree;

    open spec fn view(&self) -> Tree {
        self.tree()
    }
}

/// The tree of a positioned expression, at the same place.
pub open spec fn placed_tree(node: WithSpan<Expr>) -> WithSpan<Tree> {
    WithSpan { value: node.value@, span: node.span }
}

/// The tree of a call holds the trees of its arguments, in their order.
pub proof fn lemma_call_tree(callee: Expr, arguments: Vec<Expr>)
    ensures
        Expr::Call(Box::new(callee), arguments)@ == Tree::Call(
            Box::new(callee@),
            trees_of(arguments@),
        ),
{
    let node = Expr::Call(Box::new(callee), arguments);
    assert(node.tree()->Call_1 =~= trees_of(arguments@));
}

/// A copy of a positioned name.
pub fn copy_name(name: &WithSpan<Identifier>) -> (copy: WithSpan<Identifier>)
    ensures
        copy == *name,
{
    WithSpan { value: name.value.clone(), span: name.span }
}

impl Expr {
    /// A copy of this expression, node by node: it stands for the same
    /// tree.
    pub fn duplicate(&self) -> (copy: Expr)
        ensures
            copy@ == self@,
        decreases self,
    {
        match self {
            Expr::Binary(left, operator, right) => Expr::Binary(
                Box::new(left.duplicate()),
                WithSpan { value: operator.value, span: operator.span },
                Box::new(right.duplicate()),
            ),
            Expr::Grouping(inner) => Expr::Grouping(Box::new(inner.duplicate())),
            Expr::Number(bits) => Expr::Number(*bits),
            Expr::Boolean(value) => Expr::Boolean(*value),
            Expr::Nil => Expr::Nil,
            Expr::This => Expr::This,
            Expr::Super(member) => Expr::Super(copy_name(member)),
            Expr::String(text) => Expr::String(text.clone()),
            Expr::Unary(operator, operand) => Expr::Unary(
                WithSpan { value: operator.value, span: operator.span },
                Box::new(operand.duplicate()),
            ),
            Expr::Variable(name) => Expr::Variable(copy_name(name)),
            Expr::Logical(left, operator, right) => Expr::Logical(
                Box::new(left.duplicate()),
                WithSpan { value: operator.value, span: operator.span },
                Box::new(right.duplicate()),
            ),
            Expr::Assign(name, value) => Expr::Assign(copy_name(name), Box::new(value.duplicate())),
            Expr::Call(callee, arguments) => {
                let mut copies: Vec<Expr> = Vec::new();
                let mut i: usize = 0;
                while i < arguments.len()
                    invariant
                        *self matches Expr::Call(_, list) && list == arguments,
                        i <= arguments.len(),
                        copies.len() == i,
                        forall|j: int| 0 <= j < i ==> copies@[j]@ == (#[trigger] arguments@[j])@,
                    decreases arguments.len() - i,
                {
                    copies.push(arguments[i].duplicate());
                    i = i + 1;
                }
                let callee_copy = callee.duplicate();
                proof {
                    assert(trees_of(copies@) =~= trees_of(arguments@));
                    lemma_call_tree(callee_copy, copies);
                    lemma_call_tree(**callee, *arguments);
                }
                Expr::Call(Box::new(callee_copy), copies)
            },
            Expr::Get(object, member) => Expr::Get(Box::new(object.duplicate()), copy_name(member)),
            Expr::SetMember(object, member, value) => Expr::SetMember(
                Box::new(object.duplicate()),
                copy_name(member),
                Box::new(value.duplicate()),
            ),
        }
    }
}

impl Clone for Expr {
    /// A copy that stands for the same tree.
    fn clone(&self) -> (copy: Expr)
        ensures
            copy@ == self@,
    {
        self.duplicate()
    }
}

} // verus!
