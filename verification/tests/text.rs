use trawler_mysql::text::{push_decimal, push_joined};

#[test]
fn decimal_of_zero_is_one_digit() {
    let mut s = String::new();
    push_decimal(&mut s, 0);
    assert_eq!(s, "0");
}

#[test]
fn decimal_keeps_every_digit() {
    let mut s = String::from("x");
    push_decimal(&mut s, 18446744073709551615);
    assert_eq!(s, "x18446744073709551615");
    let mut t = String::new();
    push_decimal(&mut t, 1050);
    assert_eq!(t, "1050");
}

#[test]
fn joined_puts_the_separator_between_neighbours_only() {
    let mut s = String::new();
    push_joined(&mut s, &vec![3, 14, 15], ", ");
    assert_eq!(s, "3, 14, 15");
    let mut one = String::new();
    push_joined(&mut one, &vec![7], ",");
    assert_eq!(one, "7");
    let mut none = String::from("IN (");
    push_joined(&mut none, &vec![], ",");
    assert_eq!(none, "IN (");
}
