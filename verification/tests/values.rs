use page_recording::json::{js_string, JsonNumber, JsonValue};
use page_recording::text::{
    ascii_lowercase, contains, decimal_text, ends_with, is_blank, same_text, take_chars,
};
use page_recording::time::{TimePoint, TimeSpan};

#[test]
fn literals_agree_with_the_serializer_and_read_back() {
    let mut all = String::new();
    for c in 0u32..0x300 {
        all.push(char::from_u32(c).unwrap());
    }
    all.push_str("\u{2028}\u{1F600}</script>");
    let literal = js_string(&all);
    assert_eq!(literal, serde_json::to_string(&all).unwrap());
    let back: String = serde_json::from_str(&literal).unwrap();
    assert_eq!(back, all);
    assert_eq!(js_string(""), "\"\"");
    assert_eq!(js_string("\u{7}\u{8}\u{1f}\""), "\"\\u0007\\b\\u001f\\\"\"");
}

#[test]
fn members_are_found_by_name() {
    let object = JsonValue::empty_object()
        .with("a", JsonValue::Bool(true))
        .with("b", JsonValue::text("x"))
        .with("a", JsonValue::Null);
    assert_eq!(object.get("a").and_then(|v| v.as_bool()), Some(true));
    assert_eq!(object.get("b").and_then(|v| v.as_str()), Some("x"));
    assert!(object.get("c").is_none());
    assert!(object.is_object());
    assert!(!JsonValue::Null.with("a", JsonValue::Null).is_object());
    assert!(JsonValue::Array(Vec::new()).get("a").is_none());
    let big = JsonValue::Number(JsonNumber::Unsigned(u64::MAX));
    assert_eq!((big.as_u64(), big.as_i64()), (Some(u64::MAX), None));
    let low = JsonValue::Number(JsonNumber::Negative(-3));
    assert_eq!((low.as_u64(), low.as_i64()), (None, Some(-3)));
    let part = JsonValue::Number(JsonNumber::Decimal("1.5".to_string()));
    assert_eq!((part.as_u64(), part.as_i64()), (None, None));
    assert!(part.as_number().is_some());
}

#[test]
fn texts_are_searched_and_cut() {
    assert!(contains("abcabd", "abd"));
    assert!(contains("x", ""));
    assert!(!contains("ab", "abc"));
    assert!(ends_with("a.webm", ".webm"));
    assert!(!ends_with("webm", ".webm"));
    assert!(same_text("é", "é"));
    assert_eq!(ascii_lowercase("ÄBZaz@["), "Äbzaz@[");
    assert_eq!(take_chars("añb", 2), "añ");
    assert_eq!(take_chars("añb", 9), "añb");
    assert_eq!(decimal_text(0), "0");
    assert_eq!(decimal_text(u64::MAX), u64::MAX.to_string());
}

#[test]
fn white_space_is_that_of_trimming() {
    for c in (0u32..0x4000).filter_map(char::from_u32) {
        let text = c.to_string();
        assert_eq!(is_blank(&text), text.trim().is_empty(), "U+{:X}", c as u32);
    }
    assert!(is_blank(""));
    assert!(!is_blank(" a "));
}

#[test]
fn spans_and_readings() {
    let now = TimePoint { nanos: 10 };
    assert_eq!(now.plus(TimeSpan::from_millis(1)).nanos, 1_000_010);
    assert_eq!(now.checked_sub(TimeSpan { nanos: 11 }), None);
    assert_eq!(now.duration_since(TimePoint { nanos: 11 }), TimeSpan::zero());
    assert_eq!(now.checked_duration_since(TimePoint { nanos: 3 }), Some(TimeSpan { nanos: 7 }));
    assert!(now.is_after(TimePoint { nanos: 9 }) && !now.is_after(now));
    assert!(TimeSpan::zero().is_zero());
    assert_eq!(TimeSpan::from_secs(2).as_millis(), 2_000);
}
