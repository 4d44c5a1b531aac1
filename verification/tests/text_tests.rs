use counter_tui::text::push_decimal;

fn decimal_of(n: isize) -> String {
    let mut text = String::new();
    push_decimal(&mut text, n);
    text
}

#[test]
fn zero_is_one_digit() {
    assert_eq!(decimal_of(0), "0");
}

#[test]
fn single_digits() {
    assert_eq!(decimal_of(7), "7");
    assert_eq!(decimal_of(9), "9");
}

#[test]
fn several_digits_most_significant_first() {
    assert_eq!(decimal_of(10), "10");
    assert_eq!(decimal_of(12345), "12345");
    assert_eq!(decimal_of(9007), "9007");
}

#[test]
fn negative_numbers_carry_a_minus_sign() {
    assert_eq!(decimal_of(-1), "-1");
    assert_eq!(decimal_of(-10), "-10");
    assert_eq!(decimal_of(-98765), "-98765");
}

#[test]
fn the_ends_of_the_range() {
    assert_eq!(decimal_of(isize::MAX), format!("{}", isize::MAX));
    assert_eq!(decimal_of(isize::MIN), format!("{}", isize::MIN));
}

#[test]
fn decimal_is_appended_to_what_is_there() {
    let mut text = String::from("Counter: ");
    push_decimal(&mut text, 42);
    assert_eq!(text, "Counter: 42");
    push_decimal(&mut text, -3);
    assert_eq!(text, "Counter: 42-3");
}

#[test]
fn agrees_with_the_standard_formatting() {
    let mut n: isize = -1000;
    while n <= 1000 {
        assert_eq!(decimal_of(n), format!("{}", n));
        n += 1;
    }
}
