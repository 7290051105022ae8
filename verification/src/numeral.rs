//! Numbers written out as text: decimal counts and four-digit hexadecimal codes.

use vstd::prelude::*;
use crate::output::{text, Output};

verus! {

/// The lowercase hexadecimal digit of a value below sixteen.
pub open spec fn hex_digit(v: int) -> char
    recommends
        0 <= v < 16,
{
    "0123456789abcdef"@[v]
}

/// The value of a lowercase hexadecimal digit.
pub open spec fn hex_value(c: char) -> int {
    if '0' as u32 <= c as u32 && c as u32 <= '9' as u32 {
        c as u32 - '0' as u32
    } else {
        c as u32 - 'a' as u32 + 10
    }
}

/// A 16-bit code as four lowercase hexadecimal digits, leading zeros kept.
pub open spec fn hex4(code: u16) -> Seq<char> {
    seq![
        hex_digit(code as int / 4096),
        hex_digit(code as int / 256 % 16),
        hex_digit(code as int / 16 % 16),
        hex_digit(code as int % 16),
    ]
}

/// The decimal digit of a value below ten.
pub open spec fn decimal_digit(v: int) -> char
    recommends
        0 <= v < 10,
{
    "0123456789"@[v]
}

/// A number in decimal, without leading zeros.
pub open spec fn decimal(n: nat) -> Seq<char>
    decreases n,
{
    if n < 10 {
        seq![decimal_digit(n as int)]
    } else {
        decimal(n / 10).push(decimal_digit(n as int % 10))
    }
}

/// The number that a string of decimal digits stands for.
pub open spec fn decimal_value(digits: Seq<char>) -> int
    decreases digits.len(),
{
    if digits.len() == 0 {
        0
    } else {
        decimal_value(digits.drop_last()) * 10 + (digits.last() as u32 - '0' as u32)
    }
}

/// Every hexadecimal digit is one of `0`-`9`, `a`-`f`, and stands for its value.
pub proof fn hex_digit_reads_back(v: int)
    requires
        0 <= v < 16,
    ensures
        hex_value(hex_digit(v)) == v,
        ('0' as u32 <= hex_digit(v) as u32 <= '9' as u32) || ('a' as u32 <= hex_digit(v) as u32
            <= 'f' as u32),
{
    reveal_strlit("0123456789abcdef");
}

/// The four digits of a code, read as a hexadecimal number, give the code back:
/// two codes are written alike only if they are the same code.
pub proof fn hex4_reads_back(code: u16)
    ensures
        hex4(code).len() == 4,
        hex_value(hex4(code)[0]) * 4096 + hex_value(hex4(code)[1]) * 256 + hex_value(
            hex4(code)[2],
        ) * 16 + hex_value(hex4(code)[3]) == code,
{
    let c = code as int;
    hex_digit_reads_back(c / 4096);
    hex_digit_reads_back(c / 256 % 16);
    hex_digit_reads_back(c / 16 % 16);
    hex_digit_reads_back(c % 16);
}

/// The digits of a number, read as a decimal number, give the number back.
pub proof fn decimal_reads_back(n: nat)
    ensures
        decimal_value(decimal(n)) == n,
        decimal(n).len() >= 1,
    decreases n,
{
    reveal_strlit("0123456789");
    if n < 10 {
        assert(decimal(n).drop_last() =~= Seq::<char>::empty());
        assert(decimal_value(decimal(n).drop_last()) == 0);
    } else {
        decimal_reads_back(n / 10);
        assert(decimal(n).drop_last() =~= decimal(n / 10));
    }
}

/// Appends the four hexadecimal digits of `code`.
pub fn write_hex4(out: &mut Vec<Output>, code: u16)
    ensures
        final(out)@ == old(out)@ + text(hex4(code)),
{
    let digits = "0123456789abcdef";
    proof {
        reveal_strlit("0123456789abcdef");
    }
    let d3: usize = (code / 4096) as usize;
    let d2: usize = (code / 256 % 16) as usize;
    let d1: usize = (code / 16 % 16) as usize;
    let d0: usize = (code % 16) as usize;
    out.push(Output::Char(digits.get_char(d3)));
    out.push(Output::Char(digits.get_char(d2)));
    out.push(Output::Char(digits.get_char(d1)));
    out.push(Output::Char(digits.get_char(d0)));
    assert(out@ =~= old(out)@ + text(hex4(code)));
}

/// Appends `n` in decimal.
pub fn write_decimal(out: &mut Vec<Output>, n: usize)
    ensures
        final(out)@ == old(out)@ + text(decimal(n as nat)),
    decreases n,
{
    let digits = "0123456789";
    proof {
        reveal_strlit("0123456789");
    }
    if n >= 10 {
        write_decimal(out, n / 10);
    }
    let d: usize = n % 10;
    out.push(Output::Char(digits.get_char(d)));
    assert(out@ =~= old(out)@ + text(decimal(n as nat)));
}

} // verus!
