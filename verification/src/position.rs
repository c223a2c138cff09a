//! Source positions: half-open byte ranges and values that carry one.

use vstd::prelude::*;

verus! {

/// A half-open range of byte offsets into the source text.
#[derive(Clone, Copy, Debug, PartialEq, Eq, Structural)]
pub struct Span {
    pub start: u32,
    pub end: u32,
}

impl Span {
    /// The range from `start` up to, not including, `end`.
    pub fn new(start: u32, end: u32) -> (span: Span)
        ensures
            span == (Span { start, end }),
    {
        Span { start, end }
    }

    /// The range that covers nothing, at the start of the text.
    pub open spec fn nowhere() -> Span {
        Span { start: 0, end: 0 }
    }

    /// The range that covers nothing, at the start of the text.
    pub fn empty() -> (span: Span)
        ensures
            span == Span::nowhere(),
    {
        Span { start: 0, end: 0 }
    }

    /// The smallest range that covers both `left` and `right`.
    pub open spec fn cover(left: Span, right: Span) -> Span {
        Span {
            start: if left.start <= right.start { left.start } else { right.start },
            end: if left.end >= right.end { left.end } else { right.end },
        }
    }

    /// The smallest range that covers both `left` and `right`.
    pub fn union(left: Span, right: Span) -> (span: Span)
        ensures
            span == Span::cover(left, right),
            span.start <= left.start && span.start <= right.start,
            span.end >= left.end && span.end >= right.end,
    {
        let start: u32 = if left.start <= right.start { left.start } else { right.start };
        let end: u32 = if left.end >= right.end { left.end } else { right.end };
        Span { start, end }
    }
}

/// A value together with the range of source text it came from.
#[derive(Clone, Debug, PartialEq)]
pub struct WithSpan<T> {
    pub value: T,
    pub span: Span,
}

impl<T> WithSpan<T> {
    /// `value`, found at `span`.
    pub fn new(value: T, span: Span) -> (out: WithSpan<T>)
        ensures
            out == (WithSpan { value, span }),
    {
        WithSpan { value, span }
    }

    /// `value` with no place in the source.
    pub open spec fn unplaced(value: T) -> WithSpan<T> {
        WithSpan { value, span: Span::nowhere() }
    }

    /// `value` with no place in the source.
    pub fn empty(value: T) -> (out: WithSpan<T>)
        ensures
            out == WithSpan::unplaced(value),
    {
        WithSpan { value, span: Span::empty() }
    }
}

} // verus!
