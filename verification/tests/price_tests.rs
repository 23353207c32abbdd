use itunesmails::price::PriceParser;

#[test]
fn parse_dollar_amount() {
    let p = PriceParser::parse("$12.99");
    assert_eq!(p.amount_digits, "1299");
    assert_eq!(p.text, "$12.99");
}

#[test]
fn parse_small_amounts() {
    let p = PriceParser::parse("$3.00");
    assert_eq!(p.amount_digits, "300");
    assert_eq!(p.text, "$3.00");
    let p = PriceParser::parse("$7.50");
    assert_eq!(p.amount_digits, "750");
    assert_eq!(p.text, "$7.50");
}

#[test]
fn parse_garbage_is_zero() {
    let p = PriceParser::parse("garbage");
    assert_eq!(p.amount_digits, "0");
}

#[test]
fn parse_empty_is_zero() {
    let p = PriceParser::parse("");
    assert_eq!(p.amount_digits, "0");
    assert_eq!(p.text, "0.00");
}

#[test]
fn parse_long_fraction_is_zero() {
    let p = PriceParser::parse("$0.123456789012345");
    assert_eq!(p.amount_digits, "0");
    assert_eq!(p.text, "0.00");
}

#[test]
fn parse_very_long_fraction_is_zero() {
    let p = PriceParser::parse("$0.9999999999999999999999999999999999999999");
    assert_eq!(p.amount_digits, "0");
    assert_eq!(p.text, "0.00");
}

#[test]
fn parse_thousands_separator_kept_in_bounds() {
    let p = PriceParser::parse("$1,323.00");
    assert_eq!(p.amount_digits, "132300");
    assert_eq!(p.text, "$1,323.00");
}

#[test]
fn parse_twice_same_result() {
    let a = PriceParser::parse("$12.99");
    let b = PriceParser::parse("$12.99");
    assert_eq!(a.amount_digits, b.amount_digits);
    assert_eq!(a.text, b.text);
}
