use oxidize::text::{concat2, concat3, concat4, concat5, decimal, str_equal};

#[test]
fn equal_strings_are_equal() {
    assert!(str_equal("", ""));
    assert!(str_equal("python", "python"));
    assert!(str_equal("b\u{e9}f", "b\u{e9}f"));
}

#[test]
fn different_strings_are_different() {
    assert!(!str_equal("python", "Python"));
    assert!(!str_equal("python", "pytho"));
    assert!(!str_equal("", "p"));
    assert!(!str_equal("b\u{e9}f", "bef"));
    assert!(!str_equal("ab", "ba"));
}

#[test]
fn decimal_writes_the_usual_numeral() {
    assert_eq!(decimal(0), "0");
    assert_eq!(decimal(7), "7");
    assert_eq!(decimal(9), "9");
    assert_eq!(decimal(10), "10");
    assert_eq!(decimal(99), "99");
    assert_eq!(decimal(100), "100");
    assert_eq!(decimal(1_000_000), "1000000");
    assert_eq!(decimal(1234567890), "1234567890");
    assert_eq!(decimal(u64::MAX), "18446744073709551615");
}

#[test]
fn decimal_agrees_with_the_standard_formatter() {
    let mut n: u64 = 1;
    for _ in 0..200 {
        assert_eq!(decimal(n), format!("{}", n));
        n = n.wrapping_mul(6364136223846793005).wrapping_add(1442695040888963407);
    }
}

#[test]
fn pieces_are_joined_in_order() {
    assert_eq!(concat2("a", "b"), "ab");
    assert_eq!(concat3("a", "", "c"), "ac");
    assert_eq!(concat4("1", "2", "3", "4"), "1234");
    assert_eq!(concat5("x", "-", "y", "-", "z"), "x-y-z");
    assert_eq!(concat5("", "", "", "", ""), "");
}
