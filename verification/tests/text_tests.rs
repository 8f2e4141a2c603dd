use cloud_ops::text::i32_to_dec_string;
use cloud_ops::text::str_eq;
use cloud_ops::text::u64_to_dec_string;

#[test]
fn decimal_rendering_of_naturals() {
    assert_eq!(u64_to_dec_string(0), "0");
    assert_eq!(u64_to_dec_string(7), "7");
    assert_eq!(u64_to_dec_string(10), "10");
    assert_eq!(u64_to_dec_string(90210), "90210");
    assert_eq!(u64_to_dec_string(u64::MAX), "18446744073709551615");
}

#[test]
fn decimal_rendering_of_signed_values() {
    assert_eq!(i32_to_dec_string(0), "0");
    assert_eq!(i32_to_dec_string(6379), "6379");
    assert_eq!(i32_to_dec_string(-1), "-1");
    assert_eq!(i32_to_dec_string(i32::MIN), "-2147483648");
    assert_eq!(i32_to_dec_string(i32::MAX), "2147483647");
}

#[test]
fn string_equality_by_characters() {
    assert!(str_eq("", ""));
    assert!(str_eq("abc", "abc"));
    assert!(!str_eq("abc", "abd"));
    assert!(!str_eq("abc", "ab"));
    assert!(str_eq("naïve", "naïve"));
    assert!(!str_eq("naïve", "naive"));
}
