use xero_rs_async::util::format_xero_date;
use xero_rs_async::util::parse_xero_date;
use xero_rs_async::util::parse_unsigned;
use xero_rs_async::util::XeroDateError;

#[test]
fn a_date_with_an_offset_is_read_up_to_the_offset() {
    assert_eq!(parse_xero_date("/Date(1750136176637+0000)/"), Ok(1750136176637));
    assert_eq!(parse_xero_date("/Date(1750136176637-0500)/"), Ok(1750136176637));
    assert_eq!(parse_xero_date("/Date(1750136176637)/"), Ok(1750136176637));
    assert_eq!(parse_xero_date("/Date(0)/"), Ok(0));
}

#[test]
fn the_wrapping_of_a_date_may_be_missing_or_repeated() {
    assert_eq!(parse_xero_date("1750136176637"), Ok(1750136176637));
    assert_eq!(parse_xero_date("/Date(/Date(42)/)/"), Ok(42));
    assert_eq!(parse_xero_date("/Date(42"), Ok(42));
    assert_eq!(parse_xero_date("42)/)/"), Ok(42));
    assert_eq!(parse_xero_date("0042+1"), Ok(42));
}

#[test]
fn a_date_without_digits_is_empty() {
    for text in ["", "/Date()/", "/Date(", ")/", "/Date(+0000)/", "/Date(-1000)/", "-5"] {
        assert_eq!(parse_xero_date(text), Err(XeroDateError::Empty), "{}", text);
    }
}

#[test]
fn a_date_with_something_else_than_digits_is_invalid() {
    for text in ["/Date(12a4)/", "/Date( 12)/", "Date(12)", "/date(12)/", "/Date(12.5)/", "/Date(١٢)/"] {
        assert_eq!(parse_xero_date(text), Err(XeroDateError::InvalidDigit), "{}", text);
    }
}

#[test]
fn a_date_beyond_64_bits_is_too_large() {
    assert_eq!(
        parse_xero_date("/Date(9223372036854775808)/"),
        Err(XeroDateError::TooLarge)
    );
    assert_eq!(
        parse_xero_date("/Date(99999999999999999999999)/"),
        Err(XeroDateError::TooLarge)
    );
    // The number is too large before the letter is reached.
    assert_eq!(
        parse_xero_date("/Date(99999999999999999999x)/"),
        Err(XeroDateError::TooLarge)
    );
    // The letter is reached before the number is too large.
    assert_eq!(
        parse_xero_date("/Date(9x9999999999999999999)/"),
        Err(XeroDateError::InvalidDigit)
    );
}

#[test]
fn a_date_beyond_the_calendar_is_out_of_range() {
    assert_eq!(
        parse_xero_date("/Date(9223372036854775807)/"),
        Err(XeroDateError::OutOfRange)
    );
    assert_eq!(parse_xero_date("/Date(8210266876799999)/"), Ok(8210266876799999));
    assert_eq!(
        parse_xero_date("/Date(8210266876800000)/"),
        Err(XeroDateError::OutOfRange)
    );
}

#[test]
fn reading_a_date_agrees_with_chrono_and_std() {
    for text in ["1750136176637", "", "12a", "9223372036854775808", "007"] {
        let expected = match text.parse::<i64>() {
            Ok(n) => chrono::DateTime::from_timestamp_millis(n)
                .map(|d| d.timestamp_millis())
                .ok_or_else(|| "Invalid timestamp value".to_string()),
            Err(e) => Err(format!("Invalid timestamp: {}", e)),
        };
        let got = parse_xero_date(text).map_err(|e| e.message());
        assert_eq!(got, expected, "{}", text);
    }
}

#[test]
fn the_messages_of_date_errors() {
    assert_eq!(
        XeroDateError::Empty.message(),
        "Invalid timestamp: cannot parse integer from empty string"
    );
    assert_eq!(
        XeroDateError::InvalidDigit.message(),
        "Invalid timestamp: invalid digit found in string"
    );
    assert_eq!(
        XeroDateError::TooLarge.message(),
        "Invalid timestamp: number too large to fit in target type"
    );
    assert_eq!(XeroDateError::OutOfRange.message(), "Invalid timestamp value");
}

#[test]
fn a_date_is_written_with_its_milliseconds_between_the_wrapping() {
    assert_eq!(format_xero_date(1750136176637), "/Date(1750136176637)/");
    assert_eq!(format_xero_date(0), "/Date(0)/");
    assert_eq!(format_xero_date(-1), "/Date(-1)/");
    assert_eq!(format_xero_date(i64::MIN), "/Date(-9223372036854775808)/");
    assert_eq!(format_xero_date(i64::MAX), "/Date(9223372036854775807)/");
}

#[test]
fn a_written_date_reads_back() {
    for millis in [0, 1, 9, 10, 947638923004, 1750136176637] {
        assert_eq!(parse_xero_date(&format_xero_date(millis)), Ok(millis));
    }
    assert_eq!(parse_xero_date(&format_xero_date(-1)), Err(XeroDateError::Empty));
}

#[test]
fn an_unsigned_number_is_read_from_a_prefix_of_the_characters() {
    let chars: Vec<char> = "12345".chars().collect();
    assert_eq!(parse_unsigned(&chars, 5), Ok(12345));
    assert_eq!(parse_unsigned(&chars, 2), Ok(12));
    assert_eq!(parse_unsigned(&chars, 0), Err(XeroDateError::Empty));
    let max: Vec<char> = "9223372036854775807".chars().collect();
    assert_eq!(parse_unsigned(&max, max.len()), Ok(i64::MAX));
}
