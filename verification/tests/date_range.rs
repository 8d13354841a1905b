use cv_render::render_model::{date_token_month_ok, format_range, parse_date};

#[test]
fn zh_closed_range() {
    assert_eq!(format_range("2019-06", Some("2022-01"), "zh"), "2019.6 -- 2022.1");
}

#[test]
fn zh_open_range() {
    assert_eq!(format_range("2021-03", None, "zh"), "2021.3 至今");
}

#[test]
fn en_open_range() {
    assert_eq!(format_range("2021-03", None, "en"), "Mar 2021 -- Present");
}

#[test]
fn en_closed_range() {
    assert_eq!(format_range("2019-06", Some("2022-01"), "en"), "Jun 2019 -- Jan 2022");
}

#[test]
fn month_boundaries() {
    assert_eq!(format_range("2020-1", None, "en"), "Jan 2020 -- Present");
    assert_eq!(format_range("2020-12", None, "en"), "Dec 2020 -- Present");
}

#[test]
fn unknown_locale_falls_back_to_english() {
    assert_eq!(format_range("2019-06", Some("2022-01"), "fr"), "Jun 2019 -- Jan 2022");
    assert_eq!(format_range("2021-03", None, ""), "Mar 2021 -- Present");
}

#[test]
fn malformed_start_gives_empty_string() {
    assert_eq!(format_range("abcd", None, "en"), "");
    assert_eq!(format_range("2020", None, "en"), "");
    assert_eq!(format_range("abcd", Some("2022-01"), "en"), "");
    assert_eq!(format_range("2020", Some("2022-01"), "zh"), "");
    assert_eq!(format_range("", None, "en"), "");
    assert_eq!(format_range("2020-", Some("2022-01"), "en"), "");
    assert_eq!(format_range("-05", None, "zh"), "");
}

#[test]
fn unparsable_end_gives_open_range() {
    assert_eq!(format_range("2019-06", Some("garbage"), "en"), "Jun 2019 -- Present");
    assert_eq!(format_range("2019-06", Some(""), "zh"), "2019.6 至今");
}

#[test]
fn leading_plus_parses_as_str_parse_does() {
    assert_eq!(format_range("+2021-+3", None, "en"), "Mar 2021 -- Present");
    assert_eq!(format_range("+-3", None, "en"), "");
}

#[test]
fn zh_month_is_not_zero_padded() {
    assert_eq!(format_range("2020-09", Some("2020-10"), "zh"), "2020.9 -- 2020.10");
}

#[test]
fn out_of_range_numbers_fail_to_parse() {
    // year beyond u32, month beyond u8
    assert_eq!(format_range("4294967296-01", None, "en"), "");
    assert_eq!(format_range("2020-256", None, "en"), "");
    // the widest values that still parse, under "zh" where no table is consulted
    assert_eq!(format_range("4294967295-255", None, "zh"), "4294967295.255 至今");
}

#[test]
fn parse_date_splits_at_first_dash() {
    let ym = parse_date("2021-03").unwrap();
    assert_eq!(ym.year, 2021);
    assert_eq!(ym.month, 3);
    // a second dash lands in the month part, which then fails to parse
    assert!(parse_date("2020-03-04").is_none());
    assert!(parse_date("abcd").is_none());
    assert!(parse_date("2020").is_none());
    assert!(parse_date("20 20-03").is_none());
}

#[test]
fn month_range_check() {
    assert!(date_token_month_ok("2020-03", "en"));
    assert!(!date_token_month_ok("2020-13", "en"));
    assert!(!date_token_month_ok("2020-0", "en"));
    assert!(date_token_month_ok("2020-13", "zh"));
    assert!(date_token_month_ok("abcd", "en"));
}
