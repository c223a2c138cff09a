//! Expression syntax of a small dynamically typed scripting language: a
//! precedence-climbing parser from positioned tokens to expression trees,
//! with its grammar stated as pure functions on token sequences.

pub mod position;
pub mod token;
pub mod ast;
pub mod error;
pub mod parser;
pub mod grammar;
pub mod expr_parser;
pub mod laws;

pub use ast::{BinaryOperator, Expr, Identifier, LogicalOperator, Tree, UnaryOperator};
pub use error::{Failure, SyntaxError};
pub use expr_parser::parse;
pub use grammar::Precedence;
pub use parser::Parser;
pub use position::{Span, WithSpan};
pub use token::{Token, TokenKind};
