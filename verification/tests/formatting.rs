use dfa_visualizer::numfmt::{decimal_digits, format_integer, format_number, format_rank, unsigned_magnitude};

#[test]
fn format_number_small_values_have_no_separator() {
    assert_eq!(format_number(0), "0");
    assert_eq!(format_number(7), "7");
    assert_eq!(format_number(999), "999");
}

#[test]
fn format_number_groups_thousands() {
    assert_eq!(format_number(1000), "1,000");
    assert_eq!(format_number(12345), "12,345");
    assert_eq!(format_number(123456), "123,456");
    assert_eq!(format_number(1234567), "1,234,567");
}

#[test]
fn format_number_largest_value() {
    assert_eq!(format_number(u64::MAX), "18,446,744,073,709,551,615");
}

#[test]
fn format_number_round_trip_on_values() {
    for v in [0u64, 5, 42, 1000, 99999, 1000000, 123456789012, u64::MAX] {
        let text = format_number(v);
        let stripped: String = text.chars().filter(|c| *c != ',').collect();
        assert_eq!(stripped, v.to_string());
        assert_eq!(stripped.parse::<u64>().unwrap(), v);
    }
}

#[test]
fn decimal_digits_of_values() {
    assert_eq!(decimal_digits(0), vec!['0']);
    assert_eq!(decimal_digits(905), vec!['9', '0', '5']);
}

#[test]
fn format_rank_positive() {
    assert_eq!(format_rank(1), "1");
    assert_eq!(format_rank(15234), "15,234");
    assert_eq!(format_rank(0), "0");
}

#[test]
fn format_rank_negative_marks_bound() {
    assert_eq!(format_rank(-5000), "5,000+");
    assert_eq!(format_rank(-1), "1+");
}

#[test]
fn format_rank_extremes() {
    assert_eq!(format_rank(i64::MIN), "9,223,372,036,854,775,808+");
    assert_eq!(format_rank(i64::MAX), "9,223,372,036,854,775,807");
}

#[test]
fn magnitude_of_extremes() {
    assert_eq!(unsigned_magnitude(i64::MIN), 9223372036854775808u64);
    assert_eq!(unsigned_magnitude(-3), 3);
    assert_eq!(unsigned_magnitude(12), 12);
}

#[test]
fn format_integer_matches_display() {
    for v in [0i64, 1, -1, 250, -98765, i64::MAX, i64::MIN] {
        assert_eq!(format_integer(v), v.to_string());
    }
}
