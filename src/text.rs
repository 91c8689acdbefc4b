//! Text building blocks: hexadecimal and decimal renderings of numbers.

use vstd::prelude::*;

verus! {

/// The upper-case hexadecimal digit for a value below sixteen.
pub open spec fn hex_char(d: nat) -> char {
    "0123456789ABCDEF"@[d as int]
}

/// Two hexadecimal digits for a byte.
pub open spec fn hex2(b: u8) -> Seq<char> {
    seq![hex_char(b as nat / 16), hex_char(b as nat % 16)]
}

/// Four hexadecimal digits for a 16-bit value, zero-padded.
pub open spec fn hex4(v: nat) -> Seq<char> {
    seq![
        hex_char((v / 4096) % 16),
        hex_char((v / 256) % 16),
        hex_char((v / 16) % 16),
        hex_char(v % 16),
    ]
}

/// The decimal digits of a number, most significant first, without padding.
pub open spec fn decimal(n: nat) -> Seq<char>
    decreases n,
{
    if n < 10 {
        seq![hex_char(n)]
    } else {
        decimal(n / 10).push(hex_char(n % 10))
    }
}

/// The digit of a value below sixteen, as text.
fn hex_digit(d: u8) -> (r: &'static str)
    requires
        d < 16,
    ensures
        r@ == seq![hex_char(d as nat)],
{
    let digits = "0123456789ABCDEF";
    proof {
        reveal_strlit("0123456789ABCDEF");
    }
    digits.substring_ascii(d as usize, d as usize + 1)
}

/// Appends the two hexadecimal digits of `b`.
pub fn push_hex2(s: &mut String, b: u8)
    ensures
        final(s)@ == old(s)@ + hex2(b),
{
    s.append(hex_digit(b / 16));
    s.append(hex_digit(b % 16));
    assert(s@ =~= old(s)@ + hex2(b));
}

/// Appends the four hexadecimal digits of `v`.
pub fn push_hex4(s: &mut String, v: u16)
    ensures
        final(s)@ == old(s)@ + hex4(v as nat),
{
    s.append(hex_digit((v / 4096 % 16) as u8));
    s.append(hex_digit((v / 256 % 16) as u8));
    s.append(hex_digit((v / 16 % 16) as u8));
    s.append(hex_digit((v % 16) as u8));
    assert(s@ =~= old(s)@ + hex4(v as nat));
}

/// Appends the decimal digits of `n`.
pub fn push_decimal(s: &mut String, n: usize)
    ensures
        final(s)@ == old(s)@ + decimal(n as nat),
    decreases n,
{
    if n >= 10 {
        push_decimal(s, n / 10);
    }
    s.append(hex_digit((n % 10) as u8));
    assert(s@ =~= old(s)@ + decimal(n as nat));
}

} // verus!
