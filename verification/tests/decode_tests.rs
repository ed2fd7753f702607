use screen_time::decode::{parse_string_property, parse_wm_class, PropertyReply};

fn reply(format: u8, value: &[u8]) -> PropertyReply {
    PropertyReply { format, length: value.len() as u32, value: value.to_vec() }
}

#[test]
fn legacy_pair_splits_at_the_first_null() {
    let (instance, class) = parse_wm_class(&reply(8, b"firefox\0Firefox\0"));
    assert_eq!(instance, "firefox");
    assert_eq!(class, "Firefox");
}

#[test]
fn legacy_class_without_trailing_null_is_kept_whole() {
    let (instance, class) = parse_wm_class(&reply(8, b"a\0bc"));
    assert_eq!(instance, "a");
    assert_eq!(class, "bc");
}

#[test]
fn legacy_later_nulls_stay_inside_the_class() {
    let (instance, class) = parse_wm_class(&reply(8, b"a\0b\0c"));
    assert_eq!(instance, "a");
    assert_eq!(class, "b\0c");
}

#[test]
fn legacy_missing_null_gives_the_sentinel() {
    let (instance, class) = parse_wm_class(&reply(8, b"onlyinstance"));
    assert_eq!(instance, "Missing null byte");
    assert_eq!(class, "Missing null byte");
}

#[test]
fn legacy_empty_buffer_gives_the_missing_null_sentinel() {
    let (instance, class) = parse_wm_class(&reply(8, b""));
    assert_eq!(instance, "Missing null byte");
    assert_eq!(class, "Missing null byte");
}

#[test]
fn legacy_wrong_format_gives_the_sentinel() {
    let (instance, class) = parse_wm_class(&reply(32, b"firefox\0Firefox\0"));
    assert_eq!(instance, "Malformed property: wrong format");
    assert_eq!(class, "Malformed property: wrong format");
}

#[test]
fn legacy_invalid_instance_keeps_the_valid_class() {
    let (instance, class) = parse_wm_class(&reply(8, b"\xff\xfe\0ok\0"));
    assert_eq!(instance, "Invalid utf8");
    assert_eq!(class, "ok");
}

#[test]
fn legacy_invalid_class_keeps_the_valid_instance() {
    let (instance, class) = parse_wm_class(&reply(8, b"ok\0\xff\xfe\0"));
    assert_eq!(instance, "ok");
    assert_eq!(class, "Invalid utf8");
}

#[test]
fn legacy_lone_null_decodes_to_two_empty_fields() {
    let (instance, class) = parse_wm_class(&reply(8, b"\0"));
    assert_eq!(instance, "");
    assert_eq!(class, "");
}

#[test]
fn title_decodes_utf8() {
    assert_eq!(parse_string_property(&reply(8, b"Mozilla Firefox")), "Mozilla Firefox");
}

#[test]
fn title_decodes_multibyte_utf8() {
    assert_eq!(parse_string_property(&reply(8, "p\u{e4}iv\u{e4}".as_bytes())), "p\u{e4}iv\u{e4}");
}

#[test]
fn title_invalid_utf8_gives_the_sentinel() {
    assert_eq!(parse_string_property(&reply(8, b"\xff\xff")), "Invalid utf8");
}

#[test]
fn title_empty_buffer_decodes_to_the_empty_string() {
    assert_eq!(parse_string_property(&reply(8, b"")), "");
}

#[test]
fn title_ignores_the_declared_format() {
    assert_eq!(parse_string_property(&reply(32, b"abc")), "abc");
}
