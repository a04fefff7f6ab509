use zk_calculator::calculator::{parse_operand, Operator, ZkCalculator};
use zk_calculator::errors::ParserError;

fn parse(line: &str) -> Result<(), ParserError> {
    let mut calculator = ZkCalculator::new();
    calculator.parse(line.to_string())
}

#[test]
fn well_formed_lines_parse() {
    assert!(parse("2 + 3").is_ok());
    assert!(parse("5 - 3").is_ok());
    assert!(parse("4 * 6").is_ok());
    assert!(parse("  12\t*   7 \n").is_ok());
    assert!(parse("+2 + 3").is_ok());
    assert!(parse("007 + 1").is_ok());
}

#[test]
fn invalid_operator_is_reported() {
    assert_eq!(parse("2 x 3"), Err(ParserError::InvalidOperator));
    assert_eq!(parse("2 ** 3"), Err(ParserError::InvalidOperator));
    assert_eq!(parse("1 2"), Err(ParserError::InvalidOperator));
}

#[test]
fn invalid_operand_is_reported() {
    assert_eq!(parse("a + 3"), Err(ParserError::InvalidOperand));
    assert_eq!(parse("2 + b"), Err(ParserError::InvalidOperand));
    assert_eq!(parse("-2 + 3"), Err(ParserError::InvalidOperand));
    assert_eq!(parse("2.5 + 3"), Err(ParserError::InvalidOperand));
    // Overflowing u64 is a parse error, reported before the token count.
    assert_eq!(parse("99999999999999999999 +"), Err(ParserError::InvalidOperand));
}

#[test]
fn not_enough_inputs_is_reported() {
    assert_eq!(parse(""), Err(ParserError::NotEnoughInputs));
    assert_eq!(parse("   \n"), Err(ParserError::NotEnoughInputs));
    assert_eq!(parse("2"), Err(ParserError::NotEnoughInputs));
    assert_eq!(parse("2 +"), Err(ParserError::NotEnoughInputs));
}

#[test]
fn too_many_inputs_is_reported() {
    assert_eq!(parse("1 + 2 3"), Err(ParserError::TooManyInputs));
    assert_eq!(parse("1 + 2 + 3"), Err(ParserError::TooManyInputs));
}

#[test]
fn operand_tokens_parse_exactly() {
    assert_eq!(parse_operand("0"), Ok(0));
    assert_eq!(parse_operand("007"), Ok(7));
    assert_eq!(parse_operand("+42"), Ok(42));
    assert_eq!(parse_operand("18446744073709551615"), Ok(u64::MAX));
    assert_eq!(parse_operand("18446744073709551616"), Err(ParserError::InvalidOperand));
    assert_eq!(parse_operand(""), Err(ParserError::InvalidOperand));
    assert_eq!(parse_operand("+"), Err(ParserError::InvalidOperand));
    assert_eq!(parse_operand("1 2"), Err(ParserError::InvalidOperand));
    assert_eq!(parse_operand("++1"), Err(ParserError::InvalidOperand));
}

#[test]
fn operator_tokens_parse_exactly() {
    assert_eq!(Operator::from_token("+"), Ok(Operator::Add));
    assert_eq!(Operator::from_token("-"), Ok(Operator::Sub));
    assert_eq!(Operator::from_token("*"), Ok(Operator::Mul));
    assert_eq!(Operator::from_token("/"), Err(ParserError::InvalidOperator));
    assert_eq!(Operator::from_token("++"), Err(ParserError::InvalidOperator));
    assert_eq!(Operator::from_token(""), Err(ParserError::InvalidOperator));
}
