use webuntis::discord::{parse_webhook_id, validate_url, Color, Field};
use webuntis::entries::{check_format_version, single_day, string_or_empty, vec_or_empty, Day,
    Status, FORMAT_VERSION};
use webuntis::error::{Error, UrlPart};
use webuntis::untis::{error_snippet, extract_error};
use webuntis::validate::{generic_token, school, untis_token};

#[test]
fn school_names_are_lowercase_with_dashes() {
    assert!(school("my-school").is_ok());
    assert_eq!(school("").unwrap_err(), Error::EmptyValue);
    assert_eq!(
        school("My-School").unwrap_err(),
        Error::InvalidCharacter { found: 'M' }
    );
    assert_eq!(
        school("school7").unwrap_err(),
        Error::InvalidCharacter { found: '7' }
    );
}

#[test]
fn generic_tokens_use_the_token_charset() {
    assert!(generic_token("abc-DEF_012.xyz").is_ok());
    assert_eq!(generic_token("").unwrap_err(), Error::EmptyValue);
    assert_eq!(
        generic_token("abc$def").unwrap_err(),
        Error::InvalidCharacter { found: '$' }
    );
}

#[test]
fn session_tokens_need_three_parts() {
    assert!(untis_token("aaa.bbb.ccc").is_ok());
    assert_eq!(
        untis_token("aaa").unwrap_err(),
        Error::WrongTokenPartCount { count: 1 }
    );
    assert_eq!(
        untis_token("aaa.bbb").unwrap_err(),
        Error::WrongTokenPartCount { count: 2 }
    );
    assert_eq!(
        untis_token("aaa.bbb.ccc.ddd").unwrap_err(),
        Error::WrongTokenPartCount { count: 4 }
    );
}

#[test]
fn session_token_parts_are_validated_in_order() {
    assert_eq!(untis_token("aaa..ccc").unwrap_err(), Error::EmptyValue);
    assert_eq!(
        untis_token("a!a.bbb.ccc").unwrap_err(),
        Error::InvalidCharacter { found: '!' }
    );
    // A bad character in an early part wins over a wrong part count.
    assert_eq!(
        untis_token("a!a.bbb").unwrap_err(),
        Error::InvalidCharacter { found: '!' }
    );
    // Three good parts win over a bad character in a fourth.
    assert_eq!(
        untis_token("aaa.bbb.ccc.d!d").unwrap_err(),
        Error::WrongTokenPartCount { count: 4 }
    );
}

fn segments(parts: &[&str]) -> Vec<String> {
    parts.iter().map(|p| p.to_string()).collect()
}

#[test]
fn a_well_formed_webhook_url_is_accepted() {
    let segs = segments(&["api", "webhooks", "1234567890", "token-token_token"]);
    assert!(validate_url("https", "discord.com", &segs, &None, &None).is_ok());
}

#[test]
fn webhook_urls_are_rejected_part_by_part() {
    let segs = segments(&["api", "webhooks", "1234567890", "token-token_token"]);
    assert_eq!(
        validate_url("http", "discord.com", &segs, &None, &None).unwrap_err(),
        Error::UrlPartMismatch { part: UrlPart::Scheme }
    );
    assert_eq!(
        validate_url("https", "example.com", &segs, &None, &None).unwrap_err(),
        Error::UrlPartMismatch { part: UrlPart::Host }
    );
    let short = segments(&["api", "webhooks", "1234567890"]);
    assert_eq!(
        validate_url("https", "discord.com", &short, &None, &None).unwrap_err(),
        Error::WrongSegmentCount { count: 3 }
    );
    let wrong_first = segments(&["v10", "webhooks", "1234567890", "tok"]);
    assert_eq!(
        validate_url("https", "discord.com", &wrong_first, &None, &None).unwrap_err(),
        Error::UrlPartMismatch { part: UrlPart::ApiSegment }
    );
    let wrong_second = segments(&["api", "channels", "1234567890", "tok"]);
    assert_eq!(
        validate_url("https", "discord.com", &wrong_second, &None, &None).unwrap_err(),
        Error::UrlPartMismatch { part: UrlPart::WebhooksSegment }
    );
    let bad_id = segments(&["api", "webhooks", "12a4", "tok"]);
    assert_eq!(
        validate_url("https", "discord.com", &bad_id, &None, &None).unwrap_err(),
        Error::InvalidWebhookId
    );
    let bad_token = segments(&["api", "webhooks", "1234567890", "t$k"]);
    assert_eq!(
        validate_url("https", "discord.com", &bad_token, &None, &None).unwrap_err(),
        Error::InvalidCharacter { found: '$' }
    );
    assert_eq!(
        validate_url("https", "discord.com", &segs, &Some("wait=true".to_string()), &None)
            .unwrap_err(),
        Error::UnexpectedQuery
    );
    assert_eq!(
        validate_url("https", "discord.com", &segs, &None, &Some("top".to_string()))
            .unwrap_err(),
        Error::UnexpectedFragment
    );
}

#[test]
fn webhook_ids_are_decimal_machine_words() {
    assert_eq!(parse_webhook_id("0").unwrap(), 0);
    assert_eq!(parse_webhook_id("1234567890").unwrap(), 1234567890);
    assert_eq!(
        parse_webhook_id("18446744073709551615").unwrap(),
        u64::MAX
    );
    assert_eq!(
        parse_webhook_id("18446744073709551616").unwrap_err(),
        Error::InvalidWebhookId
    );
    assert_eq!(parse_webhook_id("").unwrap_err(), Error::InvalidWebhookId);
    assert_eq!(parse_webhook_id("12 34").unwrap_err(), Error::InvalidWebhookId);
    assert_eq!(parse_webhook_id("-1").unwrap_err(), Error::InvalidWebhookId);
}

#[test]
fn colors_pack_into_one_number() {
    assert_eq!(Color::new(228, 24, 17).to_discord(), 0xE41811);
    assert_eq!(Color::new(146, 23, 237).to_discord(), 0x9217ED);
    assert_eq!(Color::new(0, 0, 0).to_discord(), 0);
    assert_eq!(Color::new(255, 255, 255).to_discord(), 0xFFFFFF);
}

#[test]
fn fields_are_inline_name_value_pairs() {
    let field = Field::new("Subject", "Math");
    assert_eq!(field.name, "Subject");
    assert_eq!(field.value, "Math");
    assert!(field.inline);
}

#[test]
fn format_version_is_a_trip_wire() {
    assert!(check_format_version(FORMAT_VERSION).is_ok());
    assert_eq!(
        check_format_version(FORMAT_VERSION + 1).unwrap_err(),
        Error::SchemaMismatch { expected: FORMAT_VERSION, actual: FORMAT_VERSION + 1 }
    );
}

#[test]
fn a_single_date_fetch_must_return_one_day() {
    let day = Day {
        date: webuntis::datetime::Date { year: 2024, month: 9, day: 2 },
        status: Status::Regular,
        grid_entries: vec![],
    };
    assert_eq!(single_day(vec![day.clone()]).unwrap(), day);
    assert_eq!(
        single_day(vec![]).unwrap_err(),
        Error::WrongDayCount { count: 0 }
    );
    assert_eq!(
        single_day(vec![day.clone(), day]).unwrap_err(),
        Error::WrongDayCount { count: 2 }
    );
}

#[test]
fn boundary_normalization_fills_absent_values() {
    assert_eq!(string_or_empty(Some("x".to_string())), "x");
    assert_eq!(string_or_empty(None), "");
    assert_eq!(vec_or_empty(Some(vec![1, 2])), vec![1, 2]);
    assert_eq!(vec_or_empty::<i32>(None), Vec::<i32>::new());
}

#[test]
fn error_summaries_prefer_the_most_specific_message() {
    assert_eq!(
        extract_error(Some("boom".to_string()), Some(vec!["a".to_string()]), None),
        "boom"
    );
    assert_eq!(
        extract_error(Some(String::new()), Some(vec!["a".to_string(), "b".to_string()]), None),
        "a | b"
    );
    assert_eq!(
        extract_error(None, Some(vec!["only".to_string()]), None),
        "only"
    );
    assert_eq!(
        extract_error(None, Some(vec![]), Some("E42".to_string())),
        "E42"
    );
    assert_eq!(extract_error(None, None, Some(String::new())), "<unknown>");
    assert_eq!(extract_error(None, None, None), "<unknown>");
}

#[test]
fn error_snippets_show_a_window_with_ellipses() {
    // A short payload is shown whole when the column is in it.
    assert_eq!(error_snippet("short", 2), "short");
    assert_eq!(error_snippet("", 0), "");
    // A column far past the end leaves nothing to show.
    assert_eq!(error_snippet("short", 400), "...");
    // A long payload is cut on both sides of the column.
    let long: String = "x".repeat(200);
    let snippet = error_snippet(&long, 100);
    assert_eq!(snippet.len(), 3 + 100 + 3);
    assert!(snippet.starts_with("..."));
    assert!(snippet.ends_with("..."));
    // At the very start, only the tail is cut.
    let head = error_snippet(&long, 0);
    assert_eq!(head, format!("{}...", "x".repeat(50)));
}
