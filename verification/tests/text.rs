use deriv_client::text::{push_decimal, push_quoted, same_text};

#[test]
fn quoting_appends_a_json_string_literal() {
    let mut out = String::from("x=");
    push_quoted(&mut out, "R_50");
    assert_eq!(out, "x=\"R_50\"");
    let mut out = String::new();
    push_quoted(&mut out, "");
    assert_eq!(out, "\"\"");
    let mut out = String::new();
    push_quoted(&mut out, "\"\\/\u{0}\u{7}\u{8}\t\n\u{b}\u{c}\r\u{e}\u{1f} \u{7f}");
    assert_eq!(out, "\"\\\"\\\\/\\u0000\\u0007\\b\\t\\n\\u000b\\f\\r\\u000e\\u001f \u{7f}\"");
}

#[test]
fn quoting_agrees_with_the_serializer() {
    for code in 0u32..0x250 {
        let c = char::from_u32(code).expect("a scalar value");
        let text = format!("a{}b", c);
        let mut out = String::new();
        push_quoted(&mut out, &text);
        let expected = serde_json::to_string(&serde_json::Value::String(text)).unwrap();
        assert_eq!(out, expected, "U+{:04X}", code);
    }
}

#[test]
fn decimal_appends_the_digits() {
    for (n, digits) in [(0u64, "0"), (9, "9"), (10, "10"), (1905, "1905"), (u64::MAX, "18446744073709551615")] {
        let mut out = String::from("n:");
        push_decimal(&mut out, n);
        assert_eq!(out, format!("n:{}", digits));
    }
}

#[test]
fn texts_are_compared_by_their_characters() {
    assert!(same_text("", ""));
    assert!(same_text("ticks", "ticks"));
    assert!(same_text("é€𝄞", "é€𝄞"));
    assert!(!same_text("ticks", "tick"));
    assert!(!same_text("tick", "ticks"));
    assert!(!same_text("ticks", "tocks"));
    assert!(!same_text("", " "));
    assert!(!same_text("é", "e"));
}
