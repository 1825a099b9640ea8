use vstd::prelude::*;
use std::ops::Range;
use crate::chars::{char_is_alphabetic, char_is_numeric, is_number, is_rparen};
use crate::error::EvalErrorType;
use crate::operator::Operator;

verus! {

/// What a scan remembers while it walks a range from its right edge to its
/// left edge.
pub struct ScanState {
    /// Closing minus opening parentheses seen so far.
    pub depth: int,
    /// The loosest kind recorded so far.
    pub best: Operator,
    /// The offset recorded last.
    pub pos: int,
}

/// The state before any character of `[start, end)` has been read: no
/// parenthesis open, a literal pending, and the last offset of the range
/// recorded (the range's start where it is empty).
pub open spec fn scan_init(start: int, end: int) -> ScanState {
    ScanState { depth: 0, best: Operator::Value, pos: if start < end { end - 1 } else { start } }
}

/// Whether the character before offset `i`, inside the range that starts
/// at `start`, marks a `-` at `i` as a subtraction: a digit or a closing
/// parenthesis.
pub open spec fn binary_minus_at(text: Seq<char>, start: int, i: int) -> bool {
    start < i && (char_is_numeric(text[i - 1]) || text[i - 1] == ')')
}

/// Whether offset `i` and the offset before it, inside the range that
/// starts at `start`, both hold letters.
pub open spec fn letter_pair_at(text: Seq<char>, start: int, i: int) -> bool {
    char_is_alphabetic(text[i]) && start < i && char_is_alphabetic(text[i - 1])
}

/// The state `s` with `kind` recorded at offset `i`, where `kind` binds
/// more loosely than what `s` holds; `s` itself otherwise.
pub open spec fn record(s: ScanState, kind: Operator, i: int) -> ScanState {
    if s.best.spec_rank() > kind.spec_rank() {
        ScanState { depth: s.depth, best: kind, pos: i }
    } else {
        s
    }
}

/// The state `s` with offset `i` recorded and the kind left as it is.
pub open spec fn extend(s: ScanState, i: int) -> ScanState {
    ScanState { depth: s.depth, best: s.best, pos: i }
}

/// One step of the scan: the state after the character at offset `i` has
/// been read in state `s`. Parentheses are counted at any depth; every
/// other rule applies at depth zero only.
pub open spec fn scan_step(text: Seq<char>, start: int, s: ScanState, i: int) -> ScanState {
    let c = text[i];
    if c == ')' {
        ScanState { depth: s.depth + 1, best: s.best, pos: s.pos }
    } else if c == '(' {
        let t = ScanState { depth: s.depth - 1, best: s.best, pos: s.pos };
        if t.depth == 0 {
            record(t, Operator::Expression, i)
        } else {
            t
        }
    } else if s.depth != 0 {
        s
    } else if c == '+' {
        record(s, Operator::Addition, i)
    } else if c == '-' {
        if binary_minus_at(text, start, i) {
            record(s, Operator::Subtraction, i)
        } else {
            extend(s, i)
        }
    } else if c == '/' {
        record(s, Operator::Division, i)
    } else if c == '*' {
        record(s, Operator::Multiplication, i)
    } else if c == '^' {
        record(s, Operator::Exponent, i)
    } else if c == '.' || char_is_numeric(c) {
        if s.best == Operator::Value {
            extend(s, i)
        } else {
            s
        }
    } else if s.best.spec_rank() >= Operator::Function.spec_rank() && letter_pair_at(
        text,
        start,
        i,
    ) {
        ScanState { depth: s.depth, best: Operator::Function, pos: i }
    } else {
        s
    }
}

/// The state after the offsets of `[i, end)` have been read, highest
/// first. The scan reads no further once an additive kind is recorded.
pub open spec fn scan_from(text: Seq<char>, start: int, end: int, i: int) -> ScanState
    decreases end - i,
{
    if i >= end {
        scan_init(start, end)
    } else {
        let s = scan_from(text, start, end, i + 1);
        if s.best.spec_is_additive() {
            s
        } else {
            scan_step(text, start, s, i)
        }
    }
}

/// Where the range `[start, end)` of `text` is split and by what kind, or
/// the mismatch of its parentheses.
pub open spec fn spec_find_operator(text: Seq<char>, start: int, end: int) -> Result<
    (usize, Operator),
    EvalErrorType,
> {
    let s = scan_from(text, start, end, start);
    if s.depth != 0 {
        Err(EvalErrorType::BracketMismatch(s.pos as usize))
    } else {
        Ok((s.pos as usize, s.best))
    }
}

/// Closing minus opening parentheses among the offsets of `[from, to)`.
pub open spec fn balance(text: Seq<char>, from: int, to: int) -> int
    decreases to - from,
{
    if from >= to {
        0
    } else {
        balance(text, from + 1, to) + if text[from] == ')' {
            1int
        } else if text[from] == '(' {
            -1int
        } else {
            0int
        }
    }
}

/// Once an additive kind is recorded the state no longer changes.
pub proof fn lemma_scan_stops(text: Seq<char>, start: int, end: int, i: int, j: int)
    requires
        j <= i,
        scan_from(text, start, end, i).best.spec_is_additive(),
    ensures
        scan_from(text, start, end, j) == scan_from(text, start, end, i),
    decreases i - j,
{
    if j < i {
        lemma_scan_stops(text, start, end, i, j + 1);
    }
}

/// The recorded offset lies in the range that was read, and the count of
/// parentheses is that of the offsets read: up to the split where an
/// additive kind stopped the scan, where the split is the operator itself
/// at depth zero.
pub proof fn lemma_scan_state(text: Seq<char>, start: int, end: int, i: int)
    requires
        start <= i <= end,
    ensures
        ({
            let s = scan_from(text, start, end, i);
            &&& start < end ==> start <= s.pos < end
            &&& start == end ==> s.pos == start
            &&& i == end ==> s.best == Operator::Value
            &&& s.best == Operator::Expression ==> end - i >= 2
            &&& !s.best.spec_is_additive() ==> s.depth == balance(text, i, end)
            &&& s.best.spec_is_additive() ==> {
                &&& i <= s.pos < end
                &&& s.depth == 0
                &&& balance(text, s.pos + 1, end) == 0
            }
            &&& s.best == Operator::Addition ==> text[s.pos] == '+'
            &&& s.best == Operator::Subtraction ==> text[s.pos] == '-' && binary_minus_at(
                text,
                start,
                s.pos,
            )
        }),
    decreases end - i,
{
    if i < end {
        lemma_scan_state(text, start, end, i + 1);
        if i + 1 == end {
            assert(balance(text, end, end) == 0);
        }
    }
}

/// Whether the character `c` has a rule of its own in the scan.
pub open spec fn is_punctuation(c: char) -> bool {
    c == '(' || c == ')' || c == '+' || c == '-' || c == '/' || c == '*' || c == '^' || c == '.'
}

/// Whether the construct of kind `kind` occurs at offset `j` of the range
/// `[start, end)`: its character stands there, with as many parentheses
/// closed as opened between it and the right edge. An opening parenthesis
/// occurs where it closes the group that the right edge opened. A literal
/// is what is left where nothing occurs.
pub open spec fn occurs(text: Seq<char>, start: int, end: int, kind: Operator, j: int) -> bool {
    let outside = balance(text, j + 1, end) == 0;
    match kind {
        Operator::Addition => outside && text[j] == '+',
        Operator::Subtraction => outside && text[j] == '-' && binary_minus_at(text, start, j),
        Operator::Multiplication => outside && text[j] == '*',
        Operator::Division => outside && text[j] == '/',
        Operator::Exponent => outside && text[j] == '^',
        Operator::Function => {
            &&& outside
            &&& !is_punctuation(text[j])
            &&& !char_is_numeric(text[j])
            &&& letter_pair_at(text, start, j)
        },
        Operator::Expression => text[j] == '(' && balance(text, j, end) == 0,
        Operator::Value => false,
    }
}

/// Whether an additive operator stands at offset `j` of the range
/// `[start, end)` outside parentheses: a `+`, or a `-` that subtracts.
pub open spec fn additive_at(text: Seq<char>, start: int, end: int, j: int) -> bool {
    occurs(text, start, end, Operator::Addition, j) || occurs(
        text,
        start,
        end,
        Operator::Subtraction,
        j,
    )
}

/// A scan that has recorded an additive kind has recorded the rightmost
/// additive operator outside parentheses; a scan that has recorded none
/// has passed none.
pub proof fn lemma_scan_additive(text: Seq<char>, start: int, end: int, i: int)
    requires
        start <= i <= end,
    ensures
        ({
            let s = scan_from(text, start, end, i);
            if s.best.spec_is_additive() {
                &&& i <= s.pos < end
                &&& additive_at(text, start, end, s.pos)
                &&& forall|j: int| s.pos < j < end ==> !additive_at(text, start, end, j)
            } else {
                forall|j: int| i <= j < end ==> !additive_at(text, start, end, j)
            }
        }),
    decreases end - i,
{
    if i < end {
        lemma_scan_additive(text, start, end, i + 1);
        lemma_scan_state(text, start, end, i + 1);
    }
}

/// Chains of additive operators group to the left: where a range holds an
/// additive operator outside parentheses, it is split at the rightmost
/// one; where it is split by another kind, or its parentheses do not
/// match, it holds none.
pub proof fn lemma_rightmost_additive(text: Seq<char>, start: int, end: int)
    requires
        0 <= start <= end <= text.len(),
        end <= usize::MAX,
    ensures
        match spec_find_operator(text, start, end) {
            Ok((pos, kind)) => if kind.spec_is_additive() {
                &&& start <= pos < end
                &&& additive_at(text, start, end, pos as int)
                &&& forall|j: int| pos < j < end ==> !additive_at(text, start, end, j)
            } else {
                forall|j: int| start <= j < end ==> !additive_at(text, start, end, j)
            },
            Err(_) => forall|j: int| start <= j < end ==> !additive_at(text, start, end, j),
        },
{
    lemma_scan_additive(text, start, end, start);
    lemma_scan_state(text, start, end, start);
}

/// A scan that has recorded no additive kind has recorded the loosest kind
/// that occurs among the offsets it has read.
pub proof fn lemma_scan_loosest(text: Seq<char>, start: int, end: int, i: int)
    requires
        start <= i <= end,
    ensures
        ({
            let s = scan_from(text, start, end, i);
            !s.best.spec_is_additive() ==> {
                &&& forall|kind: Operator, j: int|
                    i <= j < end && kind.spec_rank() < s.best.spec_rank() ==> !occurs(
                        text,
                        start,
                        end,
                        kind,
                        j,
                    )
                &&& s.best != Operator::Value ==> exists|j: int|
                    i <= j < end && occurs(text, start, end, s.best, j)
            }
        }),
    decreases end - i,
{
    if i < end {
        lemma_scan_loosest(text, start, end, i + 1);
        lemma_scan_state(text, start, end, i + 1);
        let before = scan_from(text, start, end, i + 1);
        let s = scan_from(text, start, end, i);
        if !s.best.spec_is_additive() {
            assert(!before.best.spec_is_additive());
            assert(s == scan_step(text, start, before, i));
            assert(balance(text, i, end) == balance(text, i + 1, end) + if text[i] == ')' {
                1int
            } else if text[i] == '(' {
                -1int
            } else {
                0int
            });
            if s.best != before.best {
                assert(occurs(text, start, end, s.best, i));
            } else if s.best != Operator::Value {
                let j = choose|j: int| i + 1 <= j < end && occurs(text, start, end, before.best, j);
                assert(occurs(text, start, end, s.best, j));
            }
            assert forall|kind: Operator, j: int|
                i <= j < end && kind.spec_rank() < s.best.spec_rank() implies !occurs(
                text,
                start,
                end,
                kind,
                j,
            ) by {
                if j > i {
                    assert(kind.spec_rank() < before.best.spec_rank());
                }
            }
        }
    }
}

/// Precedence: a range that holds no additive operator outside
/// parentheses, and whose parentheses match, is split by the loosest kind
/// that occurs in it; where nothing occurs, it is a literal.
pub proof fn lemma_loosest_kind(text: Seq<char>, start: int, end: int)
    requires
        0 <= start <= end <= text.len(),
        end <= usize::MAX,
    ensures
        spec_find_operator(text, start, end) matches Ok((pos, kind)) ==> (!kind.spec_is_additive()
            ==> {
            &&& forall|other: Operator, j: int|
                start <= j < end && other.spec_rank() < kind.spec_rank() ==> !occurs(
                    text,
                    start,
                    end,
                    other,
                    j,
                )
            &&& kind != Operator::Value ==> exists|j: int|
                start <= j < end && occurs(text, start, end, kind, j)
        }),
{
    lemma_scan_loosest(text, start, end, start);
}

/// Finds, in the range `r` of `expr`, the construct to evaluate last.
///
/// The range is read from its right edge to its left edge, so that of
/// several additive operators outside parentheses the rightmost is found,
/// and chains of them group to the left.
pub fn find_operator(expr: &[char], r: Range<usize>) -> (res: Result<
    (usize, Operator),
    EvalErrorType,
>)
    requires
        r.start <= r.end <= expr@.len(),
    ensures
        res == spec_find_operator(expr@, r.start as int, r.end as int),
        match res {
            Ok((pos, kind)) => {
                &&& r.start < r.end ==> r.start <= pos < r.end
                &&& r.start == r.end ==> pos == r.start && kind == Operator::Value
                &&& kind == Operator::Expression ==> r.end - r.start >= 2
                &&& kind.spec_is_additive() ==> balance(expr@, pos + 1, r.end as int) == 0
                &&& !kind.spec_is_additive() ==> balance(expr@, r.start as int, r.end as int)
                    == 0
                &&& kind == Operator::Addition ==> expr@[pos as int] == '+'
                &&& kind == Operator::Subtraction ==> expr@[pos as int] == '-'
                    && binary_minus_at(expr@, r.start as int, pos as int)
            },
            Err(e) => {
                &&& e matches EvalErrorType::BracketMismatch(pos)
                &&& r.start <= pos < r.end
                &&& balance(expr@, r.start as int, r.end as int) != 0
            },
        },
{
    let start: usize = r.start;
    let end: usize = r.end;
    let mut depth: i128 = 0;
    let mut best: Operator = Operator::Value;
    let mut pos: usize = if start < end {
        end - 1
    } else {
        start
    };
    let mut i: usize = end;
    let ghost text = expr@;
    while i > start && !best.is_additive()
        invariant
            start <= i <= end <= text.len(),
            text == expr@,
            -(end - i) <= depth <= end - i,
            start < end ==> start <= pos < end,
            start == end ==> pos == start,
            scan_from(text, start as int, end as int, i as int) == (ScanState {
                depth: depth as int,
                best,
                pos: pos as int,
            }),
        decreases i,
    {
        i = i - 1;
        let c: char = expr[i];
        let left: Option<(usize, char)> = if i > start {
            Some((end - i, expr[i - 1]))
        } else {
            None
        };
        if c == ')' {
            depth = depth + 1;
        } else if c == '(' {
            depth = depth - 1;
            if depth == 0 && best.rank() > Operator::Expression.rank() {
                best = Operator::Expression;
                pos = i;
            }
        } else if depth != 0 {
        } else if c == '+' {
            if best.rank() > Operator::Addition.rank() {
                best = Operator::Addition;
                pos = i;
            }
        } else if c == '-' {
            if is_number(left.as_ref()) || is_rparen(left.as_ref()) {
                best = Operator::Subtraction;
            }
            pos = i;
        } else if c == '/' {
            if best.rank() > Operator::Division.rank() {
                best = Operator::Division;
                pos = i;
            }
        } else if c == '*' {
            if best.rank() > Operator::Multiplication.rank() {
                best = Operator::Multiplication;
                pos = i;
            }
        } else if c == '^' {
            if best.rank() > Operator::Exponent.rank() {
                best = Operator::Exponent;
                pos = i;
            }
        } else if c == '.' || c.is_numeric() {
            if best.rank() == Operator::Value.rank() {
                pos = i;
            }
        } else if best.rank() >= Operator::Function.rank() && c.is_alphabetic() {
            let paired: bool = match left {
                Some(p) => p.1.is_alphabetic(),
                None => false,
            };
            if paired {
                best = Operator::Function;
                pos = i;
            }
        }
    }
    proof {
        if i > start {
            lemma_scan_stops(text, start as int, end as int, i as int, start as int);
        }
        lemma_scan_state(text, start as int, end as int, start as int);
    }
    if depth != 0 {
        Err(EvalErrorType::BracketMismatch(pos))
    } else {
        Ok((pos, best))
    }
}

} // verus!
