use vstd::prelude::*;
use crate::function::Function;
use crate::number::is_decimal;
use crate::operator::Operator;

verus! {

/// What an expression text asks for, once its ranges have been split: the
/// literals it holds, by their offsets in the text, and the operations to
/// apply to them.
#[derive(Debug, PartialEq, Eq)]
pub enum Expr {
    /// The decimal literal that stands at `[start, end)`.
    Number { start: usize, end: usize },
    /// A binary operator applied to a left and a right operand.
    Binary { op: Operator, lhs: Box<Expr>, rhs: Box<Expr> },
    /// A named operation applied to its argument.
    Call { func: Function, arg: Box<Expr> },
}

impl Expr {
    /// The offset at which the leftmost literal of the expression starts.
    pub open spec fn low(self) -> int
        decreases self,
    {
        match self {
            Expr::Number { start, .. } => start as int,
            Expr::Binary { lhs, .. } => lhs.low(),
            Expr::Call { arg, .. } => arg.low(),
        }
    }

    /// The offset at which the rightmost literal of the expression ends.
    pub open spec fn high(self) -> int
        decreases self,
    {
        match self {
            Expr::Number { end, .. } => end as int,
            Expr::Binary { rhs, .. } => rhs.high(),
            Expr::Call { arg, .. } => arg.high(),
        }
    }

    /// Whether the expression is one that `text` can give: every literal
    /// is a range of the text that holds a decimal literal, every operator
    /// joins two operands, and its left operand ends before the offset at
    /// which its right operand starts.
    pub open spec fn well_formed(self, text: Seq<char>) -> bool
        decreases self,
    {
        match self {
            Expr::Number { start, end } => {
                &&& start <= end <= text.len()
                &&& is_decimal(text.subrange(start as int, end as int))
            },
            Expr::Binary { op, lhs, rhs } => {
                &&& op.spec_is_binary()
                &&& lhs.well_formed(text)
                &&& rhs.well_formed(text)
                &&& lhs.high() < rhs.low()
            },
            Expr::Call { func, arg } => arg.well_formed(text),
        }
    }

    /// Whether every literal of the expression lies in `[start, end)`.
    pub open spec fn within(self, start: int, end: int) -> bool {
        start <= self.low() && self.high() <= end
    }

    /// A well-formed expression spans at least one offset: a decimal
    /// literal is never empty.
    pub proof fn lemma_spans(self, text: Seq<char>)
        requires
            self.well_formed(text),
        ensures
            0 <= self.low() < self.high() <= text.len(),
        decreases self,
    {
        match self {
            Expr::Number { start, end } => {
                assert(text.subrange(start as int, end as int).len() == end - start);
            },
            Expr::Binary { op, lhs, rhs } => {
                lhs.lemma_spans(text);
                rhs.lemma_spans(text);
            },
            Expr::Call { func, arg } => {
                arg.lemma_spans(text);
            },
        }
    }
}

} // verus!
