use vstd::prelude::*;

verus! {

/// The kind of construct that a range of an expression is split at.
///
/// The variants are listed from the loosest binding to the tightest; `rank`
/// gives that order as a number, and it is the only precedence mechanism.
#[derive(Clone, Copy, Debug, PartialEq, Eq, Structural)]
pub enum Operator {
    Addition,
    Subtraction,
    Multiplication,
    Division,
    Exponent,
    Function,
    Expression,
    Value,
}

impl Operator {
    /// Position of the kind in the precedence order, loosest first.
    pub open spec fn spec_rank(self) -> u8 {
        match self {
            Operator::Addition => 0,
            Operator::Subtraction => 1,
            Operator::Multiplication => 2,
            Operator::Division => 3,
            Operator::Exponent => 4,
            Operator::Function => 5,
            Operator::Expression => 6,
            Operator::Value => 7,
        }
    }

    /// Whether the kind joins a left and a right operand.
    pub open spec fn spec_is_binary(self) -> bool {
        self.spec_rank() < Operator::Function.spec_rank()
    }

    /// Whether a scan ends as soon as the kind is recorded: nothing binds
    /// more loosely than the two additive kinds.
    pub open spec fn spec_is_additive(self) -> bool {
        self == Operator::Addition || self == Operator::Subtraction
    }

    #[verifier::when_used_as_spec(spec_rank)]
    pub fn rank(self) -> (n: u8)
        ensures
            n == self.spec_rank(),
    {
        match self {
            Operator::Addition => 0,
            Operator::Subtraction => 1,
            Operator::Multiplication => 2,
            Operator::Division => 3,
            Operator::Exponent => 4,
            Operator::Function => 5,
            Operator::Expression => 6,
            Operator::Value => 7,
        }
    }

    #[verifier::when_used_as_spec(spec_is_binary)]
    pub fn is_binary(self) -> (b: bool)
        ensures
            b == self.spec_is_binary(),
    {
        self.rank() < Operator::Function.rank()
    }

    #[verifier::when_used_as_spec(spec_is_additive)]
    pub fn is_additive(self) -> (b: bool)
        ensures
            b == self.spec_is_additive(),
    {
        match self {
            Operator::Addition => true,
            Operator::Subtraction => true,
            _ => false,
        }
    }

    /// The order is total and tells the kinds apart: two kinds of one rank
    /// are the same kind.
    pub proof fn lemma_rank_injective(a: Operator, b: Operator)
        ensures
            0 <= a.spec_rank() <= 7,
            a.spec_rank() == b.spec_rank() <==> a == b,
    {
    }
}

} // verus!
