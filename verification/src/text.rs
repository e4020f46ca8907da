//! Building request text: appending pieces and rendering integers.

use vstd::prelude::*;
use vstd::string::StringExecFns;

verus! {

/// `String::push` appends exactly the given character.
pub assume_specification[ String::push ](s: &mut String, ch: char)
    ensures
        final(s)@ == old(s)@.push(ch),
;

/// The character that stands for a digit below ten.
pub open spec fn digit_char(d: nat) -> char
    recommends
        d < 10,
{
    (('0' as u8) + (d as u8)) as char
}

/// The decimal digits of a natural number, most significant first, without
/// leading zeros (zero itself is the single digit `0`).
pub open spec fn decimal_nat(n: nat) -> Seq<char>
    decreases n,
{
    if n < 10 {
        seq![digit_char(n)]
    } else {
        decimal_nat(n / 10).push(digit_char(n % 10))
    }
}

/// The decimal rendering of an integer: a minus sign for a negative number,
/// then the digits of its magnitude.
pub open spec fn decimal(n: int) -> Seq<char> {
    if n < 0 {
        seq!['-'] + decimal_nat((-n) as nat)
    } else {
        decimal_nat(n as nat)
    }
}

/// Appends the decimal digits of `n` to `out`.
pub fn push_decimal_u64(out: &mut String, n: u64)
    ensures
        final(out)@ == old(out)@ + decimal_nat(n as nat),
    decreases n,
{
    if n >= 10 {
        push_decimal_u64(out, n / 10);
    }
    let d: u8 = (n % 10) as u8;
    let c: char = (48u8 + d) as char;
    out.push(c);
    proof {
        assert(c == digit_char((n % 10) as nat));
        if n < 10 {
            assert(final(out)@ =~= old(out)@ + decimal_nat(n as nat));
        } else {
            assert(final(out)@ =~= old(out)@ + decimal_nat(n as nat));
        }
    }
}

/// Appends the decimal rendering of `n` to `out`.
pub fn push_decimal(out: &mut String, n: i64)
    ensures
        final(out)@ == old(out)@ + decimal(n as int),
{
    if n < 0 {
        out.push('-');
        let m: u64 = if n == i64::MIN {
            9223372036854775808u64
        } else {
            (-n) as u64
        };
        push_decimal_u64(out, m);
        assert(final(out)@ =~= old(out)@ + decimal(n as int));
    } else {
        push_decimal_u64(out, n as u64);
    }
}

/// Appends the decimal rendering of a size to `out`.
pub fn push_decimal_usize(out: &mut String, n: usize)
    ensures
        final(out)@ == old(out)@ + decimal(n as int),
{
    push_decimal_u64(out, n as u64);
}

/// The character that stands for a hexadecimal digit, in lower case.
pub open spec fn hex_digit_char(d: nat) -> char
    recommends
        d < 16,
{
    if d < 10 {
        digit_char(d)
    } else {
        (('a' as u8) + ((d - 10) as u8)) as char
    }
}

/// The hexadecimal digits of a natural number in lower case, most
/// significant first, without leading zeros.
pub open spec fn hex_nat(n: nat) -> Seq<char>
    decreases n,
{
    if n < 16 {
        seq![hex_digit_char(n)]
    } else {
        hex_nat(n / 16).push(hex_digit_char(n % 16))
    }
}

/// The hexadecimal rendering of a 32-bit integer: the digits of the number
/// itself where it is not negative, and of the number plus 2^32 otherwise.
pub open spec fn hex_i32(n: i32) -> Seq<char> {
    if n < 0 {
        hex_nat((n + 0x1_0000_0000) as nat)
    } else {
        hex_nat(n as nat)
    }
}

/// Appends the hexadecimal digits of `n` to `out`.
pub fn push_hex_u64(out: &mut String, n: u64)
    ensures
        final(out)@ == old(out)@ + hex_nat(n as nat),
    decreases n,
{
    if n >= 16 {
        push_hex_u64(out, n / 16);
    }
    let d: u8 = (n % 16) as u8;
    let c: char = if d < 10 {
        (48u8 + d) as char
    } else {
        (97u8 + (d - 10)) as char
    };
    out.push(c);
    proof {
        assert(c == hex_digit_char((n % 16) as nat));
        assert(final(out)@ =~= old(out)@ + hex_nat(n as nat));
    }
}

/// Appends the hexadecimal rendering of `n` to `out`.
pub fn push_hex_i32(out: &mut String, n: i32)
    ensures
        final(out)@ == old(out)@ + hex_i32(n),
{
    let m: u64 = if n < 0 {
        (n as i64 + 0x1_0000_0000i64) as u64
    } else {
        n as u64
    };
    push_hex_u64(out, m);
}

/// Whether the character `c` occurs in `s`.
pub fn contains_char(s: &str, c: char) -> (found: bool)
    ensures
        found == s@.contains(c),
{
    broadcast use vstd::string::axiom_spec_iter;
    let mut found = false;
    for x in it: s.chars()
        invariant
            it.seq() == s@,
            found ==> s@.contains(c),
            !found ==> forall|j: int| 0 <= j < it.index() ==> s@[j] != c,
    {
        if x == c {
            found = true;
            assert(s@[it.index() as int] == c);
        }
    }
    found
}

} // verus!
