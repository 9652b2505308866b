use mal_api::date::{count_hyphens, find_field_end, parse_field, parse_u16, PartialDate};

fn date(year: u16, month: Option<u16>, day: Option<u16>) -> Option<PartialDate> {
    Some(PartialDate { year, month, day })
}

#[test]
fn full_date() {
    assert_eq!(PartialDate::parse("2017-10-23"), date(2017, Some(10), Some(23)));
    assert_eq!(PartialDate::parse("1998-01-05"), date(1998, Some(1), Some(5)));
}

#[test]
fn year_and_month() {
    assert_eq!(PartialDate::parse("2017-10"), date(2017, Some(10), None));
}

#[test]
fn year_alone() {
    assert_eq!(PartialDate::parse("2017"), date(2017, None, None));
    assert_eq!(PartialDate::parse("0"), date(0, None, None));
    assert_eq!(PartialDate::parse("65535"), date(65535, None, None));
}

#[test]
fn no_year_no_date() {
    assert_eq!(PartialDate::parse(""), None);
    assert_eq!(PartialDate::parse("abcd"), None);
    assert_eq!(PartialDate::parse("65536"), None);
    assert_eq!(PartialDate::parse("99999999999999999999999"), None);
    assert_eq!(PartialDate::parse("-2017"), None);
    assert_eq!(PartialDate::parse("-"), None);
    assert_eq!(PartialDate::parse(" 2017"), None);
    assert_eq!(PartialDate::parse("2017 "), None);
    assert_eq!(PartialDate::parse("20_17"), None);
    assert_eq!(PartialDate::parse("+"), None);
    assert_eq!(PartialDate::parse("２０１７"), None);
}

#[test]
fn month_or_day_that_is_no_number_is_absent() {
    assert_eq!(PartialDate::parse("2017-xx"), date(2017, None, None));
    assert_eq!(PartialDate::parse("2017-"), date(2017, None, None));
    assert_eq!(PartialDate::parse("2017-10-"), date(2017, Some(10), None));
    assert_eq!(PartialDate::parse("2017--23"), date(2017, None, Some(23)));
    assert_eq!(PartialDate::parse("2017-10-2x"), date(2017, Some(10), None));
    assert_eq!(PartialDate::parse("2017-70000-1"), date(2017, None, Some(1)));
}

#[test]
fn a_third_hyphen_takes_the_day_away() {
    assert_eq!(PartialDate::parse("2017-10-23-01"), date(2017, Some(10), None));
    assert_eq!(PartialDate::parse("2017-10-23-"), date(2017, Some(10), None));
    assert_eq!(PartialDate::parse("2017----"), date(2017, None, None));
}

#[test]
fn numbers_are_read_as_the_standard_library_reads_them() {
    for text in ["2017", "+2017", "002017", "+0", "65535", "65536", "", "+", "++1", "+-1", "-1", "1a"]
    {
        let expected = text.parse::<u16>().ok();
        assert_eq!(parse_u16(text.as_bytes(), 0, text.len()), expected, "{:?}", text);
    }
    assert_eq!(PartialDate::parse("+2017-+10-+23"), date(2017, Some(10), Some(23)));
    assert_eq!(PartialDate::parse("2017-13-40"), date(2017, Some(13), Some(40)));
}

#[test]
fn numbers_inside_a_text() {
    let text = b"ab123cd";
    assert_eq!(parse_u16(text, 2, 5), Some(123));
    assert_eq!(parse_u16(text, 2, 6), None);
    assert_eq!(parse_u16(text, 3, 3), None);
    assert_eq!(parse_u16(text, 4, 5), Some(3));
}

#[test]
fn hyphens_and_fields() {
    assert_eq!(count_hyphens(b""), 0);
    assert_eq!(count_hyphens(b"2017"), 0);
    assert_eq!(count_hyphens(b"2017-10-23"), 2);
    assert_eq!(count_hyphens(b"---"), 3);
    let text = b"2017-10-23";
    assert_eq!(find_field_end(text, 0), 4);
    assert_eq!(find_field_end(text, 4), 4);
    assert_eq!(find_field_end(text, 5), 7);
    assert_eq!(find_field_end(text, 8), 10);
    assert_eq!(find_field_end(text, 10), 10);
}

#[test]
fn fields_with_their_numbers() {
    let text = b"2017-10-xx-";
    assert_eq!(parse_field(text, 0), (Some(2017), 4));
    assert_eq!(parse_field(text, 5), (Some(10), 7));
    assert_eq!(parse_field(text, 8), (None, 10));
    assert_eq!(parse_field(text, 11), (None, 11));
    assert_eq!(parse_field(text, 2), (Some(17), 4));
    assert_eq!(parse_field(text, 4), (None, 4));
}
