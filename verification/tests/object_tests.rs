use bezier_scene::qobject::MyObjectRust;
use bezier_scene::text::{i64_to_string, u64_to_string};

#[test]
fn increment_counts_up_from_default() {
    let mut o = MyObjectRust::default();
    assert_eq!(o.number, 0);
    for _ in 0..5 {
        o.increment_number();
    }
    assert_eq!(o.number, 5);
    assert_eq!(o.string, String::new());
}

#[test]
fn increment_wraps_after_the_largest_value() {
    let mut o = MyObjectRust { number: i32::MAX, string: String::new() };
    o.increment_number();
    assert_eq!(o.number, i32::MIN);
    o.increment_number();
    assert_eq!(o.number, i32::MIN + 1);
}

#[test]
fn say_hi_mentions_text_and_number() {
    let o = MyObjectRust::default();
    let msg = o.say_hi("hello", 5);
    assert_eq!(msg, "Hi from Rust! String is 'hello' and number is 5");
    assert!(msg.contains("hello"));
    assert!(msg.contains("5"));
    // No state mutation on the exposed object.
    assert_eq!(o.number, 0);
    assert_eq!(o.string, String::new());
}

#[test]
fn say_hi_renders_negative_numbers() {
    let o = MyObjectRust::default();
    let msg = o.say_hi("x", -7);
    assert_eq!(msg, "Hi from Rust! String is 'x' and number is -7");
    assert!(msg.contains("-7"));
}

#[test]
fn decimal_rendering_is_exact() {
    assert_eq!(u64_to_string(0), "0");
    assert_eq!(u64_to_string(9), "9");
    assert_eq!(u64_to_string(10), "10");
    assert_eq!(u64_to_string(1_234_567_890), "1234567890");
    assert_eq!(u64_to_string(u64::MAX), "18446744073709551615");
    assert_eq!(i64_to_string(-42), "-42");
    assert_eq!(i64_to_string(7), "7");
    assert_eq!(i64_to_string(i64::MIN), "-9223372036854775808");
    assert_eq!(i64_to_string(i32::MIN as i64), "-2147483648");
}
