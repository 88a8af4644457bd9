use icx_sign::amount::{
    e8s_validator, fee_or_default, get_icpts_from_args, icpts_amount_validator, memo_or_default,
    memo_validator, parse_u64, AmountError, Tokens,
};

fn s(t: &str) -> Option<String> {
    Some(t.to_string())
}

#[test]
fn parse_u64_reads_plain_and_signed_digits() {
    assert_eq!(parse_u64("0"), Some(0));
    assert_eq!(parse_u64("+42"), Some(42));
    assert_eq!(parse_u64("18446744073709551615"), Some(u64::MAX));
    assert_eq!(parse_u64("18446744073709551616"), None);
    assert_eq!(parse_u64(""), None);
    assert_eq!(parse_u64("+"), None);
    assert_eq!(parse_u64("-1"), None);
    assert_eq!(parse_u64("12a"), None);
}

#[test]
fn decimal_amounts() {
    assert_eq!(Tokens::parse("1.5"), Some(Tokens { e8s: 150_000_000 }));
    assert_eq!(Tokens::parse("100.012"), Some(Tokens { e8s: 10_001_200_000 }));
    assert_eq!(Tokens::parse("12"), Some(Tokens { e8s: 1_200_000_000 }));
    assert_eq!(Tokens::parse("0.00000001"), Some(Tokens { e8s: 1 }));
    assert_eq!(Tokens::parse("0.000000001"), None);
    assert_eq!(Tokens::parse("1."), None);
    assert_eq!(Tokens::parse(".5"), None);
    assert_eq!(Tokens::parse("1.2.3"), None);
    assert_eq!(Tokens::parse(""), None);
    assert_eq!(Tokens::parse("184467440737.09551615"), Some(Tokens { e8s: u64::MAX }));
    assert_eq!(Tokens::parse("184467440737.09551616"), None);
}

#[test]
fn amount_alone_succeeds() {
    assert_eq!(get_icpts_from_args(s("1.5"), None, None), Ok(Tokens { e8s: 150_000_000 }));
}

#[test]
fn whole_and_e8s_parts_add_up_like_the_decimal_amount() {
    let parts = get_icpts_from_args(None, s("1"), s("50000000"));
    assert_eq!(parts, get_icpts_from_args(s("1.5"), None, None));
    assert_eq!(parts, Ok(Tokens { e8s: 150_000_000 }));
}

#[test]
fn amount_with_whole_part_is_ambiguous() {
    assert_eq!(get_icpts_from_args(s("1.5"), s("1"), None), Err(AmountError::AmbiguousAmount));
    assert_eq!(get_icpts_from_args(s("1.5"), None, s("5")), Err(AmountError::AmbiguousAmount));
}

#[test]
fn amount_argument_errors() {
    assert_eq!(get_icpts_from_args(s("1.5x"), None, None), Err(AmountError::InvalidAmount));
    assert_eq!(get_icpts_from_args(None, s("x"), None), Err(AmountError::InvalidWholeNumber));
    assert_eq!(get_icpts_from_args(None, None, s("-3")), Err(AmountError::InvalidWholeNumber));
    assert_eq!(
        get_icpts_from_args(None, s("184467440738"), None),
        Err(AmountError::AmountOverflow)
    );
    assert_eq!(
        get_icpts_from_args(None, s("184467440737"), s("9551616")),
        Err(AmountError::AmountOverflow)
    );
    assert_eq!(get_icpts_from_args(None, None, None), Ok(Tokens { e8s: 0 }));
}

#[test]
fn validators() {
    assert!(e8s_validator("10").is_ok());
    assert_eq!(
        e8s_validator("ten"),
        Err("Must specify a non negative whole number.".to_string())
    );
    assert!(memo_validator("0").is_ok());
    assert!(memo_validator("1.5").is_err());
    assert!(icpts_amount_validator("0.5").is_ok());
    assert!(icpts_amount_validator("0.123456789").is_err());
}

#[test]
fn memo_and_fee_defaults() {
    assert_eq!(memo_or_default(&None), Ok(0));
    assert_eq!(memo_or_default(&s("77")), Ok(77));
    assert_eq!(memo_or_default(&s("x")), Err(AmountError::InvalidWholeNumber));
    assert_eq!(fee_or_default(&None), Ok(Tokens { e8s: 10_000 }));
    assert_eq!(fee_or_default(&s("0.001")), Ok(Tokens { e8s: 100_000 }));
    assert_eq!(fee_or_default(&s("abc")), Err(AmountError::InvalidAmount));
}

#[test]
fn token_arithmetic() {
    assert_eq!(Tokens::from_tokens(2), Some(Tokens { e8s: 200_000_000 }));
    assert_eq!(Tokens::from_tokens(u64::MAX), None);
    assert_eq!(Tokens::from_e8s(5).checked_add(Tokens::from_e8s(6)), Some(Tokens { e8s: 11 }));
    assert_eq!(Tokens::from_e8s(u64::MAX).checked_add(Tokens::from_e8s(1)), None);
}
