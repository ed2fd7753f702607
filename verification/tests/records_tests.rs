use screen_time::records::{get_records, parse_decimal_u64, RecordsError};

#[test]
fn reads_records_under_a_header() {
    let records = get_records("class,name,time\nfirefox,Mozilla Firefox,42\nAlacritty,zsh,7\n")
        .expect("the table should parse");
    assert_eq!(records.len(), 2);
    assert_eq!(records[0].class, "firefox");
    assert_eq!(records[0].name, "Mozilla Firefox");
    assert_eq!(records[0].time, 42);
    assert_eq!(records[1].class, "Alacritty");
    assert_eq!(records[1].name, "zsh");
    assert_eq!(records[1].time, 7);
}

#[test]
fn header_order_does_not_matter() {
    let records = get_records("time,name,class\n3,a title,a class\n")
        .expect("the table should parse");
    assert_eq!(records.len(), 1);
    assert_eq!(records[0].class, "a class");
    assert_eq!(records[0].name, "a title");
    assert_eq!(records[0].time, 3);
}

#[test]
fn quoted_fields_are_unquoted() {
    let records = get_records("class,name,time\n\"a,\"\"b\"\"\",c,1\n")
        .expect("the table should parse");
    assert_eq!(records.len(), 1);
    assert_eq!(records[0].class, "a,\"b\"");
    assert_eq!(records[0].name, "c");
}

#[test]
fn empty_text_gives_no_records() {
    let records = get_records("").expect("empty text should parse");
    assert_eq!(records.len(), 0);
}

#[test]
fn a_header_alone_gives_no_records() {
    let records = get_records("class,name,time\n").expect("a lone header should parse");
    assert_eq!(records.len(), 0);
}

#[test]
fn a_missing_column_is_a_shape_error() {
    assert_eq!(get_records("class,name\na,b\n").unwrap_err(), RecordsError::Shape);
}

#[test]
fn a_time_field_that_is_no_number_is_a_shape_error() {
    assert_eq!(get_records("class,name,time\na,b,soon\n").unwrap_err(), RecordsError::Shape);
}

#[test]
fn a_ragged_row_is_a_syntax_error() {
    assert_eq!(get_records("class,name,time\na,b\n").unwrap_err(), RecordsError::Syntax);
}

#[test]
fn decimal_parsing_reads_plain_and_plus_signed_numbers() {
    assert_eq!(parse_decimal_u64("0"), Some(0));
    assert_eq!(parse_decimal_u64("42"), Some(42));
    assert_eq!(parse_decimal_u64("+123"), Some(123));
    assert_eq!(parse_decimal_u64("007"), Some(7));
    assert_eq!(parse_decimal_u64("18446744073709551615"), Some(u64::MAX));
}

#[test]
fn decimal_parsing_rejects_what_writes_no_number() {
    assert_eq!(parse_decimal_u64(""), None);
    assert_eq!(parse_decimal_u64("+"), None);
    assert_eq!(parse_decimal_u64("-1"), None);
    assert_eq!(parse_decimal_u64("1 2"), None);
    assert_eq!(parse_decimal_u64(" 42"), None);
    assert_eq!(parse_decimal_u64("4a"), None);
    assert_eq!(parse_decimal_u64("18446744073709551616"), None);
    assert_eq!(parse_decimal_u64("99999999999999999999999"), None);
}
