use axum_sample::decimal::decimal_string;

#[test]
fn decimal_matches_display() {
    for n in [0i64, 1, 7, 9, 10, 42, 100, 12345, -1, -10, -120, i64::MAX, i64::MIN, i64::MIN + 1] {
        assert_eq!(decimal_string(n), n.to_string());
    }
}

#[test]
fn decimal_of_zero_and_negative() {
    assert_eq!(decimal_string(0), "0");
    assert_eq!(decimal_string(-9223372036854775808), "-9223372036854775808");
}
