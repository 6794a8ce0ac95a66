use landscape_settings::text::decimal_string;
use landscape_settings::text::identifier_string;

#[test]
fn decimal_of_single_digits() {
    let digits = ["0", "1", "2", "3", "4", "5", "6", "7", "8", "9"];
    for (n, digit) in digits.iter().enumerate() {
        assert_eq!(decimal_string(n), *digit);
    }
}

#[test]
fn decimal_of_longer_numbers() {
    assert_eq!(decimal_string(10), "10");
    assert_eq!(decimal_string(11), "11");
    assert_eq!(decimal_string(99), "99");
    assert_eq!(decimal_string(100), "100");
    assert_eq!(decimal_string(101), "101");
    assert_eq!(decimal_string(255), "255");
    assert_eq!(decimal_string(1000), "1000");
    assert_eq!(decimal_string(1234567890), "1234567890");
    assert_eq!(decimal_string(9080706050), "9080706050");
}

#[test]
fn decimal_of_the_largest_number() {
    assert_eq!(decimal_string(usize::MAX), usize::MAX.to_string());
}

#[test]
fn decimal_agrees_with_the_standard_library() {
    for n in 0..2000usize {
        assert_eq!(decimal_string(n), n.to_string());
    }
}

#[test]
fn identifier_is_the_name_when_there_is_one() {
    assert_eq!(identifier_string(&"Runtime".to_string(), 3), "Runtime");
    assert_eq!(identifier_string(&" ".to_string(), 3), " ");
    assert_eq!(identifier_string(&"7".to_string(), 3), "7");
}

#[test]
fn identifier_is_the_position_when_there_is_no_name() {
    assert_eq!(identifier_string(&String::new(), 0), "0");
    assert_eq!(identifier_string(&String::new(), 3), "3");
    assert_eq!(identifier_string(&String::new(), 42), "42");
}
