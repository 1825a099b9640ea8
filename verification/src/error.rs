use vstd::prelude::*;

verus! {

/// What went wrong, with the offset into the expression text at which it
/// was found.
#[derive(Clone, Copy, Debug, PartialEq, Eq, Structural)]
pub enum EvalErrorType {
    BracketMismatch(usize),
    UnknownFunction(usize),
    NotANumber(usize),
}

impl EvalErrorType {
    /// The offset that the error is tagged with.
    pub open spec fn spec_offset(self) -> usize {
        match self {
            EvalErrorType::BracketMismatch(p) => p,
            EvalErrorType::UnknownFunction(p) => p,
            EvalErrorType::NotANumber(p) => p,
        }
    }

    #[verifier::when_used_as_spec(spec_offset)]
    pub fn offset(self) -> (p: usize)
        ensures
            p == self.spec_offset(),
    {
        match self {
            EvalErrorType::BracketMismatch(p) => p,
            EvalErrorType::UnknownFunction(p) => p,
            EvalErrorType::NotANumber(p) => p,
        }
    }
}

/// The diagnostic that goes with an error of kind `kind` found in `text`.
pub open spec fn spec_message(kind: EvalErrorType, text: Seq<char>) -> Seq<char> {
    match kind {
        EvalErrorType::BracketMismatch(_) => "I added them up, it's wonky!"@,
        EvalErrorType::UnknownFunction(_) => text,
        EvalErrorType::NotANumber(_) => "ParseFloatError"@,
    }
}

/// A failed evaluation: what went wrong and where, with a diagnostic.
#[derive(Clone, Copy, Debug, PartialEq, Eq)]
pub struct EvalError<'a> {
    pub kind: EvalErrorType,
    pub message: &'a str,
}

impl<'a> EvalError<'a> {
    /// The error of kind `kind` for the expression `expr`, with the
    /// diagnostic of that kind.
    pub fn new(kind: EvalErrorType, expr: &'a str) -> (e: EvalError<'a>)
        ensures
            e.kind == kind,
            e.message@ == spec_message(kind, expr@),
    {
        let message: &'a str = match kind {
            EvalErrorType::BracketMismatch(_) => "I added them up, it's wonky!",
            EvalErrorType::UnknownFunction(_) => expr,
            EvalErrorType::NotANumber(_) => "ParseFloatError",
        };
        EvalError { kind, message }
    }
}

} // verus!
