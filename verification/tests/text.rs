use swmon::text::{decimal, joined};

#[test]
fn decimal_writes_every_length() {
    assert_eq!(decimal(0), "0");
    assert_eq!(decimal(7), "7");
    assert_eq!(decimal(10), "10");
    assert_eq!(decimal(99), "99");
    assert_eq!(decimal(100), "100");
    assert_eq!(decimal(255), "255");
    assert_eq!(decimal(4096), "4096");
    assert_eq!(decimal(65535), "65535");
}

#[test]
fn decimal_agrees_with_std_on_all_small_numbers() {
    for n in 0..=1000u16 {
        assert_eq!(decimal(n), format!("{}", n));
    }
}

#[test]
fn joined_puts_the_second_behind_the_first() {
    assert_eq!(joined("ab", "cd"), "abcd");
    assert_eq!(joined("", "cd"), "cd");
    assert_eq!(joined("ab", ""), "ab");
}
