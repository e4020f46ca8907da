use rusths::text::{
    contains_char, push_decimal, push_decimal_u64, push_decimal_usize, push_hex_i32, push_hex_u64,
};

fn dec(n: i64) -> String {
    let mut s = String::new();
    push_decimal(&mut s, n);
    s
}

fn hex(n: i32) -> String {
    let mut s = String::new();
    push_hex_i32(&mut s, n);
    s
}

#[test]
fn decimal_rendering() {
    assert_eq!(dec(0), "0");
    assert_eq!(dec(7), "7");
    assert_eq!(dec(10), "10");
    assert_eq!(dec(6666666), "6666666");
    assert_eq!(dec(-1), "-1");
    assert_eq!(dec(-120), "-120");
    assert_eq!(dec(i64::MAX), "9223372036854775807");
    assert_eq!(dec(i64::MIN), "-9223372036854775808");
}

#[test]
fn decimal_appends_to_what_is_there() {
    let mut s = String::from("n=");
    push_decimal_u64(&mut s, u64::MAX);
    assert_eq!(s, "n=18446744073709551615");
    let mut s = String::from("size ");
    push_decimal_usize(&mut s, 2097152);
    assert_eq!(s, "size 2097152");
}

#[test]
fn hexadecimal_rendering() {
    assert_eq!(hex(0), "0");
    assert_eq!(hex(0xB), "b");
    assert_eq!(hex(0xF), "f");
    assert_eq!(hex(0x10), "10");
    assert_eq!(hex(0xCE5F), "ce5f");
    assert_eq!(hex(i32::MAX), "7fffffff");
    assert_eq!(hex(-1), "ffffffff");
    assert_eq!(hex(i32::MIN), "80000000");
    let mut s = String::from("x");
    push_hex_u64(&mut s, 0xDEADBEEF);
    assert_eq!(s, "xdeadbeef");
}

#[test]
fn hexadecimal_agrees_with_format() {
    for n in [1, 9, 10, 15, 16, 255, 256, 0xD90C, -2, -255, i32::MIN + 1] {
        assert_eq!(hex(n), format!("{:x}", n));
    }
}

#[test]
fn character_search() {
    assert!(contains_char("a,b", ','));
    assert!(!contains_char("ab", ','));
    assert!(!contains_char("", 'a'));
    assert!(contains_char("x\0", '\0'));
    assert!(contains_char("代码", '码'));
}
