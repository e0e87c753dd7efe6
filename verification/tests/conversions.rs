use structform::{
    differs_from, narrow_wide, read_list, read_scalar, write_list, NamedText, Number,
    NumberOrDefault, ParseAndFormat, ParseError, Text,
};

fn invalid_digit() -> ParseError {
    ParseError::FromStrError("invalid digit found in string".to_string())
}

fn out_of_range(min: &str, max: &str) -> ParseError {
    ParseError::NumberOutOfRange {
        required_type: "a number".to_string(),
        min: min.to_string(),
        max: max.to_string(),
    }
}

#[test]
fn a_required_text_rejects_the_empty_and_the_blank_text() {
    let empty: Result<String, ParseError> = Text::parse("");
    assert_eq!(empty, Err(ParseError::Required));
    let blank: Result<String, ParseError> = Text::parse(" \t\r\n ");
    assert_eq!(blank, Err(ParseError::Required));
    let number: Result<u16, ParseError> = Text::parse("");
    assert_eq!(number, Err(ParseError::Required));
    let named: Result<u16, ParseError> = NamedText::parse("  ");
    assert_eq!(named, Err(ParseError::Required));
    let numeric: Result<u16, ParseError> = Number::parse("");
    assert_eq!(numeric, Err(ParseError::Required));
}

#[test]
fn an_optional_text_takes_the_empty_and_the_blank_text_as_no_value() {
    let empty: Result<Option<String>, ParseError> = Text::parse("");
    assert_eq!(empty, Ok(None));
    let blank: Result<Option<u32>, ParseError> = Text::parse("   ");
    assert_eq!(blank, Ok(None));
    let named: Result<Option<u32>, ParseError> = NamedText::parse("");
    assert_eq!(named, Ok(None));
    let numeric: Result<Option<i64>, ParseError> = Number::parse(" ");
    assert_eq!(numeric, Ok(None));
}

#[test]
fn a_text_is_trimmed_before_it_is_read() {
    let text: Result<String, ParseError> = Text::parse("  hello world \n");
    assert_eq!(text, Ok("hello world".to_string()));
    let optional: Result<Option<String>, ParseError> = Text::parse("\thello ");
    assert_eq!(optional, Ok(Some("hello".to_string())));
    let number: Result<u16, ParseError> = Text::parse(" 80 ");
    assert_eq!(number, Ok(80));
}

#[test]
fn white_space_is_what_unicode_calls_white_space() {
    // An em space, a no-break space and an ideographic space are trimmed.
    let spaced: Result<String, ParseError> = Text::parse("\u{2003}\u{a0}x y\u{3000}\u{85}");
    assert_eq!(spaced, Ok("x y".to_string()));
    // A zero width space is no white space.
    let zero_width: Result<String, ParseError> = Text::parse(" \u{200b} ");
    assert_eq!(zero_width, Ok("\u{200b}".to_string()));
    let only: Result<String, ParseError> =
        Text::parse("\u{9}\u{a}\u{b}\u{c}\u{d}\u{20}\u{1680}\u{2000}\u{200a}\u{2028}\u{2029}\u{202f}\u{205f}");
    assert_eq!(only, Err(ParseError::Required));
    let inside: Result<u16, ParseError> = Text::parse("8 0");
    assert_eq!(inside, Err(invalid_digit()));
}

#[test]
fn a_text_formats_as_what_it_holds() {
    assert_eq!(Text::format(&"hello ".to_string()), "hello ".to_string());
    assert_eq!(Text::format(&Some("x".to_string())), "x".to_string());
    assert_eq!(Text::format(&None::<String>), "".to_string());
    assert_eq!(Text::format(&Some(7u16)), "7".to_string());
    assert_eq!(NamedText::format(&Some(7u16)), "7".to_string());
    assert_eq!(NamedText::format(&None::<u16>), "".to_string());
    assert_eq!(NamedText::format(&70u32), "70".to_string());
}

#[test]
fn integers_are_read_in_decimal_with_an_optional_sign() {
    let plain: Result<u16, ParseError> = Text::parse("65535");
    assert_eq!(plain, Ok(65535));
    let plus: Result<u16, ParseError> = Text::parse("+12");
    assert_eq!(plus, Ok(12));
    let zeros: Result<u32, ParseError> = Text::parse("00012");
    assert_eq!(zeros, Ok(12));
    let wide: Result<u32, ParseError> = Text::parse("4294967295");
    assert_eq!(wide, Ok(u32::MAX));
    let wider: Result<u64, ParseError> = Text::parse("18446744073709551615");
    assert_eq!(wider, Ok(u64::MAX));
    let negative: Result<i32, ParseError> = Text::parse("-2147483648");
    assert_eq!(negative, Ok(i32::MIN));
    let positive: Result<i32, ParseError> = Text::parse("+2147483647");
    assert_eq!(positive, Ok(i32::MAX));
    let least: Result<i64, ParseError> = Text::parse("-9223372036854775808");
    assert_eq!(least, Ok(i64::MIN));
    let greatest: Result<i64, ParseError> = Text::parse("9223372036854775807");
    assert_eq!(greatest, Ok(i64::MAX));
    let minus_zero: Result<i64, ParseError> = Text::parse("-0");
    assert_eq!(minus_zero, Ok(0));
}

#[test]
fn what_is_no_integer_fails_with_the_message_of_the_failure() {
    let word: Result<u16, ParseError> = Text::parse("Eighty");
    assert_eq!(word, Err(invalid_digit()));
    let sign: Result<u16, ParseError> = Text::parse("+");
    assert_eq!(sign, Err(invalid_digit()));
    let minus: Result<u16, ParseError> = Text::parse("-1");
    assert_eq!(minus, Err(invalid_digit()));
    let lone_minus: Result<i32, ParseError> = Text::parse("-");
    assert_eq!(lone_minus, Err(invalid_digit()));
    let double: Result<i64, ParseError> = Text::parse("+-1");
    assert_eq!(double, Err(invalid_digit()));
    let underscore: Result<u64, ParseError> = Text::parse("1_000");
    assert_eq!(underscore, Err(invalid_digit()));
    let large: Result<u16, ParseError> = Text::parse("65536");
    assert_eq!(
        large,
        Err(ParseError::FromStrError(
            "number too large to fit in target type".to_string()
        ))
    );
    let larger: Result<u32, ParseError> = Text::parse("4294967296");
    assert_eq!(
        larger,
        Err(ParseError::FromStrError(
            "number too large to fit in target type".to_string()
        ))
    );
    let small: Result<i32, ParseError> = Text::parse("-2147483649");
    assert_eq!(
        small,
        Err(ParseError::FromStrError(
            "number too small to fit in target type".to_string()
        ))
    );
    let optional: Result<Option<u64>, ParseError> = Text::parse("x");
    assert_eq!(optional, Err(invalid_digit()));
}

#[test]
fn a_named_text_reports_the_name_of_what_it_expects() {
    let word: Result<u16, ParseError> = NamedText::parse("Eighty");
    assert_eq!(
        word,
        Err(ParseError::InvalidFormat {
            required_type: "a number".to_string()
        })
    );
    assert_eq!(word.unwrap_err().to_string(), "Expected a number.".to_string());
    let fine: Result<u16, ParseError> = NamedText::parse(" 80");
    assert_eq!(fine, Ok(80));
    // An optional one reports the message of the failure.
    let optional: Result<Option<u16>, ParseError> = NamedText::parse("Eighty");
    assert_eq!(optional, Err(invalid_digit()));
    let present: Result<Option<u16>, ParseError> = NamedText::parse("80");
    assert_eq!(present, Ok(Some(80)));
}

#[test]
fn a_number_that_is_no_number_is_out_of_range() {
    let word: Result<u16, ParseError> = Number::parse("Eighty");
    assert_eq!(word, Err(out_of_range("0", "65535")));
    let large: Result<u32, ParseError> = Number::parse("4294967296");
    assert_eq!(large, Err(out_of_range("0", "4294967295")));
    let wide: Result<u64, ParseError> = Number::parse("-1");
    assert_eq!(wide, Err(out_of_range("0", "18446744073709551615")));
    let signed: Result<i32, ParseError> = Number::parse("1.5");
    assert_eq!(signed, Err(out_of_range("-2147483648", "2147483647")));
    let long: Result<Option<i64>, ParseError> = Number::parse("9223372036854775808");
    assert_eq!(
        long,
        Err(out_of_range("-9223372036854775808", "9223372036854775807"))
    );
    assert_eq!(
        long.unwrap_err().to_string(),
        "Expected a number between -9223372036854775808 and 9223372036854775807.".to_string()
    );
}

#[test]
fn a_number_is_read_and_written() {
    let port: Result<u16, ParseError> = Number::parse(" 80 ");
    assert_eq!(port, Ok(80));
    let optional: Result<Option<i32>, ParseError> = Number::parse("-7");
    assert_eq!(optional, Ok(Some(-7)));
    assert_eq!(Number::format(&80u16), "80".to_string());
    assert_eq!(Number::format(&Some(-7i32)), "-7".to_string());
    assert_eq!(Number::format(&None::<i32>), "".to_string());
    assert_eq!(NumberOrDefault::format(&12u64), "12".to_string());
}

#[test]
fn a_number_with_default_takes_the_empty_text_as_the_default() {
    let empty: Result<u32, ParseError> = NumberOrDefault::parse("");
    assert_eq!(empty, Ok(0));
    let blank: Result<i64, ParseError> = NumberOrDefault::parse("  ");
    assert_eq!(blank, Ok(0));
    let given: Result<u32, ParseError> = NumberOrDefault::parse("12");
    assert_eq!(given, Ok(12));
    let word: Result<u32, ParseError> = NumberOrDefault::parse("twelve");
    assert_eq!(word, Err(out_of_range("0", "4294967295")));
}

#[test]
fn numbers_survive_the_round_trip() {
    for value in [0u16, 1, 9, 10, 99, 100, 4711, 65535] {
        let parsed: Result<u16, ParseError> = Number::parse(&Number::format(&value));
        assert_eq!(parsed, Ok(value));
        let as_text: Result<u16, ParseError> = Text::parse(&Text::format(&value));
        assert_eq!(as_text, Ok(value));
    }
    for value in [u32::MIN, 4_000_000_000, u32::MAX] {
        let parsed: Result<u32, ParseError> = Number::parse(&Number::format(&value));
        assert_eq!(parsed, Ok(value));
    }
    for value in [u64::MIN, 10_000_000_000_000_000_000, u64::MAX] {
        let parsed: Result<u64, ParseError> = Number::parse(&Number::format(&value));
        assert_eq!(parsed, Ok(value));
    }
    for value in [i32::MIN, -1, 0, 1, i32::MAX] {
        let parsed: Result<i32, ParseError> = Number::parse(&Number::format(&value));
        assert_eq!(parsed, Ok(value));
    }
    for value in [i64::MIN, -10, 0, 10, i64::MAX] {
        let parsed: Result<Option<i64>, ParseError> = Number::parse(&Number::format(&Some(value)));
        assert_eq!(parsed, Ok(Some(value)));
    }
    let absent: Result<Option<i64>, ParseError> = Number::parse(&Number::format(&None::<i64>));
    assert_eq!(absent, Ok(None));
}

#[test]
fn a_list_is_split_at_its_commas() {
    let list: Result<Vec<String>, ParseError> = Text::parse(" a, b b ,,c , ");
    assert_eq!(
        list,
        Ok(vec!["a".to_string(), "b b".to_string(), "c".to_string()])
    );
    let numbers: Result<Vec<u16>, ParseError> = Text::parse("1,2, 3");
    assert_eq!(numbers, Ok(vec![1, 2, 3]));
    let one: Result<Vec<u16>, ParseError> = Text::parse("7");
    assert_eq!(one, Ok(vec![7]));
}

#[test]
fn a_list_without_items_is_the_empty_list() {
    let empty: Result<Vec<String>, ParseError> = Text::parse("");
    assert_eq!(empty, Ok(vec![]));
    let blank: Result<Vec<u16>, ParseError> = Text::parse("   ");
    assert_eq!(blank, Ok(vec![]));
    let commas: Result<Vec<u16>, ParseError> = Text::parse(" , ,, ");
    assert_eq!(commas, Ok(vec![]));
    let named: Result<Vec<u16>, ParseError> = NamedText::parse(",");
    assert_eq!(named, Ok(vec![]));
}

#[test]
fn one_item_that_fails_fails_the_list() {
    let list: Result<Vec<u16>, ParseError> = Text::parse("1, x, 70000");
    assert_eq!(list, Err(invalid_digit()));
    let other: Result<Vec<u16>, ParseError> = Text::parse("1, 70000, x");
    assert_eq!(
        other,
        Err(ParseError::FromStrError(
            "number too large to fit in target type".to_string()
        ))
    );
    let named: Result<Vec<u16>, ParseError> = NamedText::parse("1, x");
    assert_eq!(
        named,
        Err(ParseError::InvalidFormat {
            required_type: "a number".to_string()
        })
    );
    let fine: Result<Vec<u16>, ParseError> = NamedText::parse("1, 2");
    assert_eq!(fine, Ok(vec![1, 2]));
}

#[test]
fn a_list_is_written_with_a_comma_and_a_space_between_its_items() {
    assert_eq!(Text::format(&vec![1u16, 2, 3]), "1, 2, 3".to_string());
    assert_eq!(Text::format(&vec!["a".to_string()]), "a".to_string());
    assert_eq!(Text::format(&Vec::<String>::new()), "".to_string());
    assert_eq!(NamedText::format(&vec![10u32, 20]), "10, 20".to_string());
    assert_eq!(write_list(&vec![-1i32, 0, 1]), "-1, 0, 1".to_string());
    let back: Result<Vec<u16>, ParseError> = Text::parse(&Text::format(&vec![1u16, 2, 3]));
    assert_eq!(back, Ok(vec![1, 2, 3]));
}

#[test]
fn the_scalar_of_an_input_is_read_from_the_trimmed_text() {
    let nothing: Option<Result<u16, String>> = read_scalar("  ");
    assert_eq!(nothing, None);
    let value: Option<Result<u16, String>> = read_scalar(" 12 ");
    assert_eq!(value, Some(Ok(12)));
    let failure: Option<Result<u16, String>> = read_scalar("twelve");
    assert_eq!(
        failure,
        Some(Err("invalid digit found in string".to_string()))
    );
    let text: Option<Result<String, String>> = read_scalar(" a b ");
    assert_eq!(text, Some(Ok("a b".to_string())));
}

#[test]
fn the_items_of_a_list_are_read_one_by_one() {
    let values: Result<Vec<i64>, String> = read_list("-1, +1");
    assert_eq!(values, Ok(vec![-1, 1]));
    let failure: Result<Vec<i64>, String> = read_list("1,,a");
    assert_eq!(failure, Err("invalid digit found in string".to_string()));
    let empty: Result<Vec<i64>, String> = read_list("");
    assert_eq!(empty, Ok(vec![]));
}

#[test]
fn a_wide_number_is_narrowed() {
    let fine: Result<u16, ParseError> = narrow_wide(Ok(80));
    assert_eq!(fine, Ok(80));
    let failed: Result<u16, ParseError> = narrow_wide(Err("whatever".to_string()));
    assert_eq!(failed, Err(out_of_range("0", "65535")));
}

#[test]
fn an_error_shows_as_its_message() {
    assert_eq!(
        ParseError::Required.to_string(),
        "This field is required.".to_string()
    );
    assert_eq!(
        ParseError::InvalidFormat {
            required_type: "an address".to_string()
        }
        .to_string(),
        "Expected an address.".to_string()
    );
    assert_eq!(
        ParseError::FromStrError("invalid digit found in string".to_string()).to_string(),
        "invalid digit found in string.".to_string()
    );
    assert_eq!(
        ParseError::NumberOutOfRange {
            required_type: "a port".to_string(),
            min: "1".to_string(),
            max: "65535".to_string()
        }
        .to_string(),
        "Expected a port between 1 and 65535.".to_string()
    );
}

#[test]
fn an_error_is_cloned_exactly() {
    let errors = vec![
        ParseError::Required,
        ParseError::InvalidFormat {
            required_type: "an address".to_string(),
        },
        ParseError::FromStrError("no".to_string()),
        ParseError::NumberOutOfRange {
            required_type: "a port".to_string(),
            min: "1".to_string(),
            max: "65535".to_string(),
        },
    ];
    for error in errors.iter() {
        assert_eq!(&error.clone(), error);
    }
    assert_ne!(errors[0], errors[2]);
}

#[test]
fn an_outcome_differs_from_the_pristine_model_unless_it_is_equal_to_it() {
    assert_eq!(differs_from(&1u16, Ok(1)), false);
    assert_eq!(differs_from(&1u16, Ok(2)), true);
    assert_eq!(differs_from(&1u16, Err(ParseError::Required)), true);
    assert_eq!(differs_from(&"a".to_string(), Ok("a".to_string())), false);
}
