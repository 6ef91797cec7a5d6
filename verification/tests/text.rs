use scratch_test_spec::text::{chars_of, contains_text, to_uppercase, trim_whitespace};
use scratch_test_spec::value::{bool_text, int_text, nat_text};
use scratch_test_spec::render::DebugText;
use scratch_test_spec::spec::{Criterion, Selector};
use scratch_test_spec::{FloatNum, Number, SValue};

#[test]
fn decimal_texts() {
    assert_eq!(int_text(0), "0");
    assert_eq!(int_text(45), "45");
    assert_eq!(int_text(-7), "-7");
    assert_eq!(int_text(i64::MIN), "-9223372036854775808");
    assert_eq!(int_text(i64::MAX), "9223372036854775807");
    assert_eq!(nat_text(1000), "1000");
    assert_eq!(bool_text(true), "true");
    assert_eq!(bool_text(false), "false");
}

#[test]
fn uppercase_texts() {
    assert_eq!(to_uppercase("abc xyz 12"), "ABC XYZ 12");
    assert_eq!(to_uppercase("straße"), "STRASSE");
    assert_eq!(to_uppercase(""), "");
    let (a, b) = ("ab", "ßc");
    assert_eq!(to_uppercase(&format!("{a}{b}")), format!("{}{}", to_uppercase(a), to_uppercase(b)));
}

#[test]
fn trimmed_texts() {
    assert_eq!(trim_whitespace("  a b \t\n"), "a b");
    assert_eq!(trim_whitespace("   "), "");
    assert_eq!(trim_whitespace(""), "");
    assert_eq!(trim_whitespace("\u{2003}x\u{00a0}"), "x");
    let once = trim_whitespace("  twice  ");
    assert_eq!(trim_whitespace(&once), once);
}

#[test]
fn contained_texts() {
    assert!(contains_text("hello", "ell"));
    assert!(contains_text("hello", ""));
    assert!(contains_text("hello", "hello"));
    assert!(!contains_text("hello", "hello!"));
    assert!(!contains_text("", "a"));
    assert_eq!(chars_of("äb"), vec!['ä', 'b']);
}

#[test]
fn debug_renderings() {
    assert_eq!(SValue::Text("a\"b".to_string()).debug_text(), "Text(\"a\\\"b\")");
    assert_eq!(SValue::Int(-3).debug_text(), "Int(-3)");
    assert_eq!(SValue::Bool(false).debug_text(), "Bool(false)");
    let half = FloatNum { bits: 0.5f64.to_bits(), display: "0.5".to_string(), debug: "0.5".to_string() };
    assert_eq!(SValue::Float(half.clone()).to_text(), "0.5");
    assert_eq!(Number::Float(half.clone()).debug_text(), "Float(0.5)");
    assert_eq!(Selector::NthLineFromStart { n: 2 }.debug_text(), "NthLineFromStart { n: 2 }");
    assert_eq!(
        Criterion::EqualNumbers { other: Number::Int(3), float_tolerance: Some(half) }.debug_text(),
        "EqualNumbers { other: Int(3), float_tolerance: Some(0.5) }"
    );
    assert_eq!(
        Criterion::OneOf { options: vec!["a".to_string(), "b".to_string()] }.debug_text(),
        "OneOf { options: [\"a\", \"b\"] }"
    );
}
