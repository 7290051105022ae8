use ep::numeral::{write_decimal, write_hex4};
use ep::output::Output;

fn plain(out: &Vec<Output>) -> String {
    let mut s = String::new();
    for item in out {
        match item {
            Output::Char(c) => s.push(*c),
            other => panic!("unexpected item {:?}", other),
        }
    }
    s
}

fn decimal_of(n: usize) -> String {
    let mut out = Vec::new();
    write_decimal(&mut out, n);
    plain(&out)
}

fn hex_of(code: u16) -> String {
    let mut out = Vec::new();
    write_hex4(&mut out, code);
    plain(&out)
}

#[test]
fn decimal_of_small_numbers() {
    assert_eq!(decimal_of(0), "0");
    assert_eq!(decimal_of(7), "7");
    assert_eq!(decimal_of(9), "9");
}

#[test]
fn decimal_of_larger_numbers() {
    assert_eq!(decimal_of(10), "10");
    assert_eq!(decimal_of(99), "99");
    assert_eq!(decimal_of(100), "100");
    assert_eq!(decimal_of(1234567), "1234567");
    assert_eq!(decimal_of(usize::MAX), format!("{}", usize::MAX));
}

#[test]
fn decimal_agrees_with_the_standard_formatting() {
    for n in 0..2000usize {
        assert_eq!(decimal_of(n), format!("{}", n));
    }
}

#[test]
fn decimal_appends_to_what_is_there() {
    let mut out = vec![Output::Bold];
    write_decimal(&mut out, 42);
    assert_eq!(out, vec![Output::Bold, Output::Char('4'), Output::Char('2')]);
}

#[test]
fn hex_is_lowercase_and_four_digits_wide() {
    assert_eq!(hex_of(0x1234), "1234");
    assert_eq!(hex_of(0xa239), "a239");
    assert_eq!(hex_of(0xffff), "ffff");
    assert_eq!(hex_of(0xABCD), "abcd");
}

#[test]
fn hex_keeps_leading_zeros() {
    assert_eq!(hex_of(0), "0000");
    assert_eq!(hex_of(0x1), "0001");
    assert_eq!(hex_of(0xab), "00ab");
    assert_eq!(hex_of(0x0f00), "0f00");
}

#[test]
fn hex_agrees_with_the_standard_formatting() {
    for code in 0..=u16::MAX {
        assert_eq!(hex_of(code), format!("{:04x}", code));
    }
}
