use vstd::prelude::*;
use std::ops::Range;
use crate::chars::decode;
use crate::error::{spec_message, EvalError, EvalErrorType};
use crate::expr::Expr;
use crate::function::{match_function, name_len, spec_match_function};
use crate::number::{parse_number, spec_parse_number};
use crate::operator::Operator;
use crate::scanner::{find_operator, lemma_scan_state, spec_find_operator};

verus! {

/// Whether `[start, end)` is a range of `text` whose offsets a machine
/// word can hold.
pub open spec fn valid_range(text: Seq<char>, start: int, end: int) -> bool {
    0 <= start <= end <= text.len() && end <= usize::MAX
}

/// What the range `[start, end)` of `text` evaluates to: the range is
/// split once, and what the split yields is evaluated in turn, the left
/// operand before the right one; the first error ends the evaluation.
///
/// A binary operator at `pos` joins `[start, pos)` and `[pos + 1, end)`; a
/// parenthesised expression loses its first and its last offset; a literal
/// and a function call stand at `[pos, end)`. A range that is no range of
/// the text holds no literal.
pub open spec fn spec_parse_expr(text: Seq<char>, start: int, end: int) -> Result<
    Expr,
    EvalErrorType,
>
    decreases end - start, 1int,
{
    if !valid_range(text, start, end) {
        Err(EvalErrorType::NotANumber(start as usize))
    } else {
        match spec_find_operator(text, start, end) {
            Err(e) => Err(e),
            Ok((pos, kind)) => {
                proof {
                    lemma_scan_state(text, start, end, start);
                }
                if kind.spec_is_binary() {
                    match spec_parse_expr(text, start, pos as int) {
                        Err(e) => Err(e),
                        Ok(lhs) => match spec_parse_expr(text, pos + 1, end) {
                            Err(e) => Err(e),
                            Ok(rhs) => Ok(
                                Expr::Binary { op: kind, lhs: Box::new(lhs), rhs: Box::new(rhs) },
                            ),
                        },
                    }
                } else if kind == Operator::Expression {
                    spec_parse_expr(text, start + 1, end - 1)
                } else if kind == Operator::Function {
                    spec_parse_function(text, pos as int, end)
                } else {
                    spec_parse_number(text, pos as int, end)
                }
            },
        }
    }
}

/// What the function call at `[start, end)` of `text` evaluates to. The
/// name begins one offset before `start` and must end inside the range;
/// the argument stands behind the offset that follows the name and before
/// the last offset of the range. A call without such an offset on either
/// side of its argument holds no literal.
pub open spec fn spec_parse_function(text: Seq<char>, start: int, end: int) -> Result<
    Expr,
    EvalErrorType,
>
    decreases end - start, 0int,
{
    match spec_match_function(text, start - 1, end) {
        None => Err(EvalErrorType::UnknownFunction(start as usize)),
        Some(func) => {
            let from = start + func.spec_name().len();
            if from <= end - 1 {
                match spec_parse_expr(text, from, end - 1) {
                    Err(e) => Err(e),
                    Ok(arg) => Ok(Expr::Call { func, arg: Box::new(arg) }),
                }
            } else {
                Err(EvalErrorType::NotANumber(start as usize))
            }
        },
    }
}

/// What the whole of `text` evaluates to.
pub open spec fn spec_evaluate(text: Seq<char>) -> Result<Expr, EvalErrorType> {
    spec_parse_expr(text, 0, text.len() as int)
}

/// Whether `res` is what an evaluation of `text` returns: the expression
/// that the text evaluates to, or the error that ends its evaluation with
/// the diagnostic of that error.
pub open spec fn evaluated(text: Seq<char>, res: Result<Expr, EvalError>) -> bool {
    match res {
        Ok(e) => spec_evaluate(text) == Ok::<Expr, EvalErrorType>(e),
        Err(e) => spec_evaluate(text) == Err::<Expr, EvalErrorType>(e.kind) && e.message@
            == spec_message(e.kind, text),
    }
}

/// Evaluates the function call at the range `r` of `expr`.
pub fn parse_function(expr: &[char], r: Range<usize>) -> (res: Result<Expr, EvalErrorType>)
    ensures
        res == spec_parse_function(expr@, r.start as int, r.end as int),
        res matches Ok(e) ==> e.well_formed(expr@) && e.within(r.start as int, r.end as int),
    decreases r.end - r.start, 0int,
{
    let start: usize = r.start;
    let end: usize = r.end;
    if start == 0 {
        return Err(EvalErrorType::UnknownFunction(start));
    }
    match match_function(expr, start - 1, end) {
        None => Err(EvalErrorType::UnknownFunction(start)),
        Some(func) => {
            let after: usize = start - 1 + name_len(func);
            if end - after >= 2 {
                match parse_expr(expr, Range { start: after + 1, end: end - 1 }) {
                    Err(e) => Err(e),
                    Ok(arg) => Ok(Expr::Call { func, arg: Box::new(arg) }),
                }
            } else {
                Err(EvalErrorType::NotANumber(start))
            }
        },
    }
}

/// Evaluates the range `r` of `expr`.
pub fn parse_expr(expr: &[char], r: Range<usize>) -> (res: Result<Expr, EvalErrorType>)
    ensures
        res == spec_parse_expr(expr@, r.start as int, r.end as int),
        res matches Ok(e) ==> e.well_formed(expr@) && e.within(r.start as int, r.end as int),
    decreases r.end - r.start, 1int,
{
    let start: usize = r.start;
    let end: usize = r.end;
    if start > end || end > expr.len() {
        return Err(EvalErrorType::NotANumber(start));
    }
    match find_operator(expr, Range { start, end }) {
        Err(e) => Err(e),
        Ok((pos, kind)) => {
            if kind.is_binary() {
                match parse_expr(expr, Range { start, end: pos }) {
                    Err(e) => Err(e),
                    Ok(lhs) => match parse_expr(expr, Range { start: pos + 1, end }) {
                        Err(e) => Err(e),
                        Ok(rhs) => Ok(
                            Expr::Binary { op: kind, lhs: Box::new(lhs), rhs: Box::new(rhs) },
                        ),
                    },
                }
            } else {
                match kind {
                    Operator::Expression => parse_expr(
                        expr,
                        Range { start: start + 1, end: end - 1 },
                    ),
                    Operator::Function => parse_function(expr, Range { start: pos, end }),
                    _ => parse_number(expr, Range { start: pos, end }),
                }
            }
        },
    }
}

/// Evaluates the expression `expr`.
///
/// The text is taken as it stands: a blank is a character like any other
/// that the expression grammar does not know.
pub fn evaluate<'a>(expr: &'a String) -> (res: Result<Expr, EvalError<'a>>)
    ensures
        evaluated(expr@, res),
        res matches Ok(e) ==> e.well_formed(expr@),
{
    let text = decode(expr.as_str());
    match parse_expr(text.as_slice(), Range { start: 0, end: text.len() }) {
        Ok(e) => Ok(e),
        Err(kind) => Err(EvalError::new(kind, expr.as_str())),
    }
}

/// Evaluation is a function of the text: two evaluations of one text give
/// the same expression, or the same kind of error at the same offset with
/// the same diagnostic.
pub proof fn lemma_evaluate_deterministic(
    a: Seq<char>,
    b: Seq<char>,
    ra: Result<Expr, EvalError>,
    rb: Result<Expr, EvalError>,
)
    requires
        a == b,
        evaluated(a, ra),
        evaluated(b, rb),
    ensures
        match ra {
            Ok(e) => rb == Ok::<Expr, EvalError>(e),
            Err(e) => rb matches Err(f) && f.kind == e.kind && f.message@ == e.message@,
        },
{
}

} // verus!
