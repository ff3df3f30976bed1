use sregame::attribute::{count_to_i64, wide_to_i64, wide_to_u64, AttrValue, Attribute};
use sregame::speed::reading_speed;
use sregame::text::{preview, starts_with, str_eq, PREVIEW_CHARS};

#[test]
fn preview_of_short_line_is_the_line() {
    assert_eq!(preview("Hello there."), "Hello there.");
    assert_eq!(preview(""), "");
}

#[test]
fn preview_of_exactly_fifty_characters_is_the_line() {
    let line = "x".repeat(50);
    assert_eq!(preview(&line), line);
}

#[test]
fn preview_of_long_line_is_first_fifty_characters() {
    let line: String = (0..120).map(|i| char::from(b'a' + (i % 26) as u8)).collect();
    let p = preview(&line);
    assert_eq!(p.chars().count(), PREVIEW_CHARS);
    assert_eq!(p, line[..50]);
    let fifty_one = "y".repeat(51);
    assert_eq!(preview(&fifty_one), "y".repeat(50));
}

#[test]
fn preview_counts_characters_not_bytes() {
    let line = "é".repeat(60);
    let p = preview(&line);
    assert_eq!(p.chars().count(), 50);
    assert_eq!(p, "é".repeat(50));
    let short = "ü".repeat(30);
    assert_eq!(short.len(), 60);
    assert_eq!(preview(&short), short);
}

#[test]
fn starts_with_agrees_with_std() {
    let cases = [
        ("http://a", "http://"),
        ("https://a", "http://"),
        ("http:/", "http://"),
        ("", ""),
        ("abc", ""),
        ("", "a"),
        ("héllo", "hé"),
        ("héllo", "he"),
    ];
    for (text, prefix) in cases {
        assert_eq!(starts_with(text, prefix), text.starts_with(prefix), "{:?} {:?}", text, prefix);
    }
}

#[test]
fn str_eq_compares_contents() {
    assert!(str_eq("down", "down"));
    assert!(!str_eq("down", "Down"));
    assert!(!str_eq("down", "dow"));
    assert!(str_eq("", ""));
}

#[test]
fn reading_speed_is_chars_per_second_in_thousandths() {
    assert_eq!(reading_speed(45, 6000), 7500);
    assert_eq!(reading_speed(10, 2000), 5000);
    assert_eq!(reading_speed(1, 3000), 333);
    assert_eq!(reading_speed(0, 1234), 0);
    assert_eq!(reading_speed(100, 1), 100_000_000);
}

#[test]
fn reading_speed_is_zero_when_no_time_passed() {
    assert_eq!(reading_speed(0, 0), 0);
    assert_eq!(reading_speed(45, 0), 0);
    assert_eq!(reading_speed(usize::MAX, 0), 0);
}

#[test]
fn reading_speed_does_not_overflow() {
    let expected = (usize::MAX as u128) * 1_000_000;
    assert_eq!(reading_speed(usize::MAX, 1), expected);
    assert_eq!(reading_speed(usize::MAX, u128::MAX), 0);
}

#[test]
fn counts_saturate_into_attribute_values() {
    assert_eq!(count_to_i64(0), 0);
    assert_eq!(count_to_i64(42), 42);
    assert_eq!(count_to_i64(usize::MAX), i64::MAX);
    assert_eq!(wide_to_i64(7500), 7500);
    assert_eq!(wide_to_i64(i64::MAX as u128), i64::MAX);
    assert_eq!(wide_to_i64(i64::MAX as u128 + 1), i64::MAX);
    assert_eq!(wide_to_i64(u128::MAX), i64::MAX);
    assert_eq!(wide_to_u64(5), 5);
    assert_eq!(wide_to_u64(u64::MAX as u128), u64::MAX);
    assert_eq!(wide_to_u64(u64::MAX as u128 + 1), u64::MAX);
}

#[test]
fn attribute_constructors_keep_key_and_value() {
    let a = Attribute::integer("line.index", 3);
    assert_eq!(a.key, "line.index");
    assert!(matches!(a.value, AttrValue::Int(3)));
    let b = Attribute::text("npc.name", "Mando");
    assert_eq!(b.key, "npc.name");
    assert!(matches!(b.value, AttrValue::Text(ref s) if s == "Mando"));
    let c = Attribute::flag("dialogue.completed", true);
    assert_eq!(c.key, "dialogue.completed");
    assert!(matches!(c.value, AttrValue::Flag(true)));
}
