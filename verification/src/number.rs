use vstd::prelude::*;
use std::ops::Range;
use crate::error::EvalErrorType;
use crate::expr::Expr;

verus! {

/// Whether `c` is one of the ten decimal digits.
pub open spec fn spec_is_digit(c: char) -> bool {
    '0' <= c <= '9'
}

/// Whether `s` is a decimal literal: an optional leading `-`, then digits
/// with at most one `.` among them, before them or behind them, and at
/// least one digit.
pub open spec fn is_decimal(s: Seq<char>) -> bool {
    let from: int = if s.len() > 0 && s[0] == '-' {
        1
    } else {
        0
    };
    &&& forall|i: int| from <= i < s.len() ==> spec_is_digit(#[trigger] s[i]) || s[i] == '.'
    &&& forall|i: int, j: int|
        from <= i < j < s.len() ==> !(#[trigger] s[i] == '.' && #[trigger] s[j] == '.')
    &&& exists|i: int| from <= i < s.len() && spec_is_digit(#[trigger] s[i])
}

/// The literal at `[start, end)` where that range lies in `text` and holds
/// a decimal literal; the error tagged at `start` where it does not.
pub open spec fn spec_parse_number(text: Seq<char>, start: int, end: int) -> Result<
    Expr,
    EvalErrorType,
> {
    if 0 <= start <= end <= text.len() && is_decimal(text.subrange(start, end)) {
        Ok(Expr::Number { start: start as usize, end: end as usize })
    } else {
        Err(EvalErrorType::NotANumber(start as usize))
    }
}

#[verifier::when_used_as_spec(spec_is_digit)]
pub fn is_digit(c: char) -> (b: bool)
    ensures
        b == spec_is_digit(c),
{
    '0' <= c && c <= '9'
}

/// Checks that the range `range` of `expr` holds a decimal literal, and
/// gives the literal where it does.
pub fn parse_number(expr: &[char], range: Range<usize>) -> (res: Result<Expr, EvalErrorType>)
    ensures
        res == spec_parse_number(expr@, range.start as int, range.end as int),
{
    let start: usize = range.start;
    let end: usize = range.end;
    if start > end || end > expr.len() {
        return Err(EvalErrorType::NotANumber(start));
    }
    let ghost s = expr@.subrange(start as int, end as int);
    let mut i: usize = start;
    if i < end && expr[i] == '-' {
        i = i + 1;
    }
    let first: usize = i;
    let mut digit: bool = false;
    let mut point: bool = false;
    while i < end
        invariant
            start == range.start,
            end == range.end,
            start <= first <= i <= end <= expr@.len(),
            s == expr@.subrange(start as int, end as int),
            first - start == (if s.len() > 0 && s[0] == '-' {
                1int
            } else {
                0int
            }),
            forall|k: int| first - start <= k < i - start ==> spec_is_digit(#[trigger] s[k]) || s[k] == '.',
            forall|j: int, k: int|
                first - start <= j < k < i - start ==> !(#[trigger] s[j] == '.' && #[trigger] s[k]
                    == '.'),
            digit <==> exists|k: int| first - start <= k < i - start && spec_is_digit(#[trigger] s[k]),
            point <==> exists|k: int| first - start <= k < i - start && #[trigger] s[k] == '.',
        decreases end - i,
    {
        let c: char = expr[i];
        assert(s[i - start] == c);
        if is_digit(c) {
            digit = true;
        } else if c == '.' {
            if point {
                proof {
                    let k = choose|k: int| first - start <= k < i - start && #[trigger] s[k] == '.';
                    assert(s[k] == '.' && s[i - start] == '.');
                }
                return Err(EvalErrorType::NotANumber(start));
            }
            point = true;
        } else {
            return Err(EvalErrorType::NotANumber(start));
        }
        i = i + 1;
    }
    if digit {
        Ok(Expr::Number { start, end })
    } else {
        Err(EvalErrorType::NotANumber(start))
    }
}

} // verus!
