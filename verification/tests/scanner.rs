use calc::chars::{decode, is_number, is_rparen};
use calc::error::EvalErrorType;
use calc::operator::Operator;
use calc::scanner::find_operator;

fn split(s: &str) -> Result<(usize, Operator), EvalErrorType> {
    let text: Vec<char> = s.chars().collect();
    find_operator(&text, 0..text.len())
}

#[test]
fn rightmost_addition_is_the_split() {
    assert_eq!(split("1+2+3"), Ok((3, Operator::Addition)));
    assert_eq!(split("1+2*3"), Ok((1, Operator::Addition)));
    assert_eq!(split("1-2+3"), Ok((3, Operator::Addition)));
}

#[test]
fn rightmost_subtraction_is_the_split() {
    assert_eq!(split("10-3-2"), Ok((4, Operator::Subtraction)));
    assert_eq!(split("(1)-2"), Ok((3, Operator::Subtraction)));
}

#[test]
fn product_is_found_before_quotient_and_power() {
    assert_eq!(split("2*3/4"), Ok((1, Operator::Multiplication)));
    assert_eq!(split("2/3*4"), Ok((3, Operator::Multiplication)));
    assert_eq!(split("8/4/2"), Ok((3, Operator::Division)));
    assert_eq!(split("2^3/4"), Ok((3, Operator::Division)));
    assert_eq!(split("2^3^4"), Ok((3, Operator::Exponent)));
}

#[test]
fn operators_in_parentheses_are_passed_over() {
    assert_eq!(split("(1+2)*3"), Ok((5, Operator::Multiplication)));
    assert_eq!(split("(1+2)"), Ok((0, Operator::Expression)));
    assert_eq!(split("(1)(2)"), Ok((3, Operator::Expression)));
}

#[test]
fn literal_starts_at_its_leftmost_character() {
    assert_eq!(split("123"), Ok((0, Operator::Value)));
    assert_eq!(split("-1.5"), Ok((0, Operator::Value)));
    assert_eq!(split("a2"), Ok((1, Operator::Value)));
    assert_eq!(split("a"), Ok((0, Operator::Value)));
}

#[test]
fn unary_minus_is_recorded_without_a_kind() {
    assert_eq!(split("3*-2"), Ok((1, Operator::Multiplication)));
    assert_eq!(split("-2*3"), Ok((0, Operator::Multiplication)));
    assert_eq!(split("-ab"), Ok((0, Operator::Function)));
}

#[test]
fn function_starts_at_the_second_letter() {
    assert_eq!(split("sin(0)"), Ok((1, Operator::Function)));
    assert_eq!(split("ab"), Ok((1, Operator::Function)));
    assert_eq!(split("2^cos(1)"), Ok((1, Operator::Exponent)));
    assert_eq!(split("s(0)"), Ok((1, Operator::Expression)));
}

#[test]
fn unbalanced_parentheses_are_reported() {
    assert_eq!(split("(1"), Err(EvalErrorType::BracketMismatch(1)));
    assert_eq!(split("1)"), Err(EvalErrorType::BracketMismatch(1)));
    assert_eq!(split("12)"), Err(EvalErrorType::BracketMismatch(2)));
    assert_eq!(split("(("), Err(EvalErrorType::BracketMismatch(1)));
    assert_eq!(split(")("), Ok((1, Operator::Value)));
}

#[test]
fn scan_stops_at_an_additive_operator() {
    assert_eq!(split("(1+2"), Ok((2, Operator::Addition)));
    assert_eq!(split("(1+2)+(3"), Ok((2, Operator::Addition)));
    assert_eq!(split("((-1"), Err(EvalErrorType::BracketMismatch(2)));
}

#[test]
fn empty_range_is_a_pending_literal() {
    let text: Vec<char> = "1+2".chars().collect();
    assert_eq!(find_operator(&text, 2..2), Ok((2, Operator::Value)));
    assert_eq!(find_operator(&text, 0..0), Ok((0, Operator::Value)));
}

#[test]
fn range_bounds_what_is_read() {
    let text: Vec<char> = "1+2*3-4".chars().collect();
    assert_eq!(find_operator(&text, 2..5), Ok((3, Operator::Multiplication)));
    assert_eq!(find_operator(&text, 5..7), Ok((5, Operator::Value)));
    assert_eq!(find_operator(&text, 4..7), Ok((5, Operator::Subtraction)));
}

#[test]
fn neighbour_is_a_number() {
    assert!(is_number(Some(&(0, '7'))));
    assert!(is_number(Some(&(3, '\u{663}'))));
    assert!(!is_number(Some(&(0, 'K'))));
    assert!(!is_number(Some(&(0, ')'))));
    assert!(!is_number(None));
}

#[test]
fn neighbour_is_a_closing_parenthesis() {
    assert!(is_rparen(Some(&(0, ')'))));
    assert!(!is_rparen(Some(&(0, '('))));
    assert!(!is_rparen(Some(&(0, '7'))));
    assert!(!is_rparen(None));
}

#[test]
fn decoding_keeps_every_character() {
    assert_eq!(decode("a\u{e9}+1"), vec!['a', '\u{e9}', '+', '1']);
    assert_eq!(decode(""), Vec::<char>::new());
}

#[test]
fn kinds_are_ordered_by_rank() {
    let kinds = [
        Operator::Addition,
        Operator::Subtraction,
        Operator::Multiplication,
        Operator::Division,
        Operator::Exponent,
        Operator::Function,
        Operator::Expression,
        Operator::Value,
    ];
    for (i, k) in kinds.iter().enumerate() {
        assert_eq!(k.rank() as usize, i);
        assert_eq!(k.is_binary(), i < 5);
        assert_eq!(k.is_additive(), i < 2);
    }
}
