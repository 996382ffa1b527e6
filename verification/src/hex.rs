//! Binary digit strings, their value, and its upper-case hexadecimal form.

use vstd::prelude::*;
use vstd::arithmetic::power2::{
    lemma2_to64, lemma_pow2_adds, lemma_pow2_strictly_increases, lemma_pow2_unfold, pow2,
};

verus! {

/// The number that a run of binary digits denotes, most significant first.
pub open spec fn bits_value(s: Seq<char>) -> nat
    decreases s.len(),
{
    if s.len() == 0 {
        0
    } else {
        2 * bits_value(s.drop_last()) + if s.last() == '1' {
            1nat
        } else {
            0nat
        }
    }
}

/// The upper-case hexadecimal digit for a value below sixteen.
pub open spec fn hex_char(d: nat) -> char {
    if d < 10 {
        crate::decimal::digit_char(d)
    } else if d == 10 {
        'A'
    } else if d == 11 {
        'B'
    } else if d == 12 {
        'C'
    } else if d == 13 {
        'D'
    } else if d == 14 {
        'E'
    } else {
        'F'
    }
}

/// The upper-case hexadecimal numeral of `n`, without leading zeros.
pub open spec fn hex_upper(n: nat) -> Seq<char>
    decreases n,
{
    if n < 16 {
        seq![hex_char(n)]
    } else {
        hex_upper(n / 16).push(hex_char(n % 16))
    }
}

/// `s`, filled on the right with `fill` up to `width` characters.
pub open spec fn pad_right(s: Seq<char>, width: nat, fill: char) -> Seq<char> {
    if s.len() >= width {
        s
    } else {
        s + Seq::new((width - s.len()) as nat, |i: int| fill)
    }
}

/// The Verilog form of a DNA given in binary digits: `h`, then the value in
/// upper-case hexadecimal, filled on the right with zeros to sixteen digits.
pub open spec fn verilog_hex(bits: Seq<char>) -> Seq<char> {
    seq!['h'] + pad_right(hex_upper(bits_value(bits)), 16, '0')
}

pub open spec fn is_upper_hex_digit(c: char) -> bool {
    ('0' <= c <= '9') || ('A' <= c <= 'F')
}

/// The value of an upper-case hexadecimal digit.
pub open spec fn hex_digit_value(c: char) -> nat {
    if '0' <= c <= '9' {
        (c as u32 - 0x30) as nat
    } else {
        (c as u32 - 0x41 + 10) as nat
    }
}

/// The number that a run of upper-case hexadecimal digits denotes.
pub open spec fn hex_value(s: Seq<char>) -> nat
    decreases s.len(),
{
    if s.len() == 0 {
        0
    } else {
        16 * hex_value(s.drop_last()) + hex_digit_value(s.last())
    }
}

pub open spec fn pow16(k: nat) -> nat
    decreases k,
{
    if k == 0 {
        1
    } else {
        16 * pow16((k - 1) as nat)
    }
}

/// A run of `n` binary digits denotes a number below two to the `n`.
pub proof fn lemma_bits_value_bound(s: Seq<char>)
    ensures
        bits_value(s) < pow2(s.len()),
    decreases s.len(),
{
    if s.len() == 0 {
        lemma2_to64();
    } else {
        lemma_bits_value_bound(s.drop_last());
        lemma_pow2_unfold(s.len());
    }
}

/// Sixteen hexadecimal digits reach exactly up to two to the sixty-four.
pub proof fn lemma_pow16_values()
    ensures
        pow16(15) == 0x1000_0000_0000_0000,
        pow16(16) == 0x1_0000_0000_0000_0000,
{
    reveal_with_fuel(pow16, 17);
}

/// Every character of a hexadecimal numeral is an upper-case digit, and
/// the numeral denotes the number it was made from.
pub proof fn lemma_hex_upper_round_trip(n: nat)
    ensures
        hex_upper(n).len() >= 1,
        forall|i: int| 0 <= i < hex_upper(n).len() ==> is_upper_hex_digit(#[trigger] hex_upper(n)[i]),
        hex_value(hex_upper(n)) == n,
    decreases n,
{
    if n < 16 {
        let s = hex_upper(n);
        assert(s.drop_last() =~= Seq::<char>::empty());
        assert(hex_value(s.drop_last()) == 0);
        assert(hex_digit_value(hex_char(n)) == n);
    } else {
        lemma_hex_upper_round_trip(n / 16);
        let s = hex_upper(n);
        assert(s.drop_last() =~= hex_upper(n / 16));
        assert(hex_digit_value(hex_char(n % 16)) == n % 16);
    }
}

pub proof fn lemma_pow16_positive(k: nat)
    ensures
        pow16(k) >= 1,
    decreases k,
{
    if k > 0 {
        lemma_pow16_positive((k - 1) as nat);
    }
}

/// A number below sixteen to the `k` has at most `k` hexadecimal digits, and
/// one of at least sixteen to the `k - 1` has at least `k`.
pub proof fn lemma_hex_upper_len(n: nat, k: nat)
    requires
        k >= 1,
    ensures
        n < pow16(k) ==> hex_upper(n).len() <= k,
        n >= pow16((k - 1) as nat) ==> hex_upper(n).len() >= k,
    decreases k,
{
    reveal_with_fuel(pow16, 2);
    if k >= 2 {
        lemma_pow16_positive((k - 2) as nat);
    }
    if n < 16 {
    } else if k == 1 {
    } else {
        lemma_hex_upper_len(n / 16, (k - 1) as nat);
    }
}

/// Zeros appended on the right multiply the value by sixteen each.
pub proof fn lemma_hex_value_padded(s: Seq<char>, k: nat)
    ensures
        hex_value(s + Seq::new(k, |i: int| '0')) == hex_value(s) * pow16(k),
    decreases k,
{
    let padded = s + Seq::new(k, |i: int| '0');
    if k == 0 {
        assert(padded =~= s);
        assert(hex_value(s) * pow16(0) == hex_value(s)) by (nonlinear_arith)
            requires
                pow16(0) == 1,
        ;
    } else {
        let shorter = s + Seq::new((k - 1) as nat, |i: int| '0');
        assert(padded.drop_last() =~= shorter);
        assert(padded.last() == '0');
        lemma_hex_value_padded(s, (k - 1) as nat);
        assert(hex_value(padded) == 16 * (hex_value(s) * pow16((k - 1) as nat)));
        assert(16 * (hex_value(s) * pow16((k - 1) as nat)) == hex_value(s) * pow16(k))
            by (nonlinear_arith)
            requires
                pow16(k) == 16 * pow16((k - 1) as nat),
        ;
    }
}

/// For a DNA of up to sixty-four significant bits the Verilog form has
/// seventeen characters: `h` and sixteen upper-case hexadecimal digits.
pub proof fn lemma_verilog_hex_shape(bits: Seq<char>)
    requires
        bits_value(bits) < 0x1_0000_0000_0000_0000,
    ensures
        verilog_hex(bits).len() == 17,
        verilog_hex(bits)[0] == 'h',
        forall|i: int| 1 <= i < 17 ==> is_upper_hex_digit(#[trigger] verilog_hex(bits)[i]),
{
    let v = bits_value(bits);
    lemma_pow16_values();
    lemma_hex_upper_len(v, 16);
    lemma_hex_upper_round_trip(v);
    let digits = hex_upper(v);
    let padded = pad_right(digits, 16, '0');
    assert(padded.len() == 16);
    assert forall|i: int| 1 <= i < 17 implies is_upper_hex_digit(#[trigger] verilog_hex(bits)[i]) by {
        assert(verilog_hex(bits)[i] == padded[i - 1]);
        if i - 1 < digits.len() {
            assert(padded[i - 1] == digits[i - 1]);
        } else {
            assert(padded[i - 1] == '0');
        }
    }
}

/// Read back as a number, the sixteen digits of the Verilog form give the
/// DNA's value times sixteen for each zero that was filled in: the value
/// itself where it is zero or has sixteen hexadecimal digits of its own.
pub proof fn lemma_verilog_hex_round_trip(bits: Seq<char>)
    requires
        bits_value(bits) < 0x1_0000_0000_0000_0000,
    ensures
        hex_upper(bits_value(bits)).len() <= 16,
        hex_value(verilog_hex(bits).skip(1)) == bits_value(bits) * pow16(
            (16 - hex_upper(bits_value(bits)).len()) as nat,
        ),
        bits_value(bits) == 0 || bits_value(bits) >= 0x1000_0000_0000_0000 ==> hex_value(
            verilog_hex(bits).skip(1),
        ) == bits_value(bits),
{
    let v = bits_value(bits);
    lemma_pow16_values();
    lemma_hex_upper_len(v, 16);
    lemma_hex_upper_round_trip(v);
    let digits = hex_upper(v);
    let k = (16 - digits.len()) as nat;
    lemma_hex_value_padded(digits, k);
    assert(verilog_hex(bits).skip(1) =~= digits + Seq::new(k, |i: int| '0'));
    if v >= 0x1000_0000_0000_0000 {
        assert(k == 0);
        reveal_with_fuel(pow16, 1);
    }
    if v == 0 {
        assert(v * pow16(k) == 0) by (nonlinear_arith)
            requires
                v == 0,
        ;
    }
}

fn hex_digit_of(d: u128) -> (c: char)
    requires
        d < 16,
    ensures
        c == hex_char(d as nat),
{
    if d == 0 {
        '0'
    } else if d == 1 {
        '1'
    } else if d == 2 {
        '2'
    } else if d == 3 {
        '3'
    } else if d == 4 {
        '4'
    } else if d == 5 {
        '5'
    } else if d == 6 {
        '6'
    } else if d == 7 {
        '7'
    } else if d == 8 {
        '8'
    } else if d == 9 {
        '9'
    } else if d == 10 {
        'A'
    } else if d == 11 {
        'B'
    } else if d == 12 {
        'C'
    } else if d == 13 {
        'D'
    } else if d == 14 {
        'E'
    } else {
        'F'
    }
}

/// Reads up to 128 binary digits as a number.
pub fn bits_to_number(bits: &[char]) -> (value: u128)
    requires
        bits@.len() <= 128,
    ensures
        value == bits_value(bits@),
{
    let mut value: u128 = 0;
    let mut i: usize = 0;
    while i < bits.len()
        invariant
            i <= bits.len() <= 128,
            value == bits_value(bits@.take(i as int)),
        decreases bits.len() - i,
    {
        proof {
            let next = bits@.take(i + 1);
            assert(next.drop_last() =~= bits@.take(i as int));
            lemma_bits_value_bound(next);
            lemma2_to64();
            lemma_pow2_adds(64, 64);
            if i + 1 < 128 {
                lemma_pow2_strictly_increases((i + 1) as nat, 128);
            }
            assert(pow2(128) == 0x1_0000_0000_0000_0000_0000_0000_0000_0000);
        }
        let bit: u128 = if bits[i] == '1' {
            1
        } else {
            0
        };
        value = value * 2 + bit;
        i += 1;
    }
    assert(bits@.take(i as int) =~= bits@);
    value
}

/// Appends the upper-case hexadecimal numeral of `n` to `out`.
pub fn push_hex(out: &mut String, n: u128)
    ensures
        final(out)@ == old(out)@ + hex_upper(n as nat),
    decreases n,
{
    if n >= 16 {
        push_hex(out, n / 16);
    }
    out.push(hex_digit_of(n % 16));
    assert(out@ =~= old(out)@ + hex_upper(n as nat));
}

/// Renders a DNA given in binary digits in its Verilog form.
pub fn format_verilog_hex(bits: &[char]) -> (text: String)
    requires
        bits@.len() <= 128,
    ensures
        text@ == verilog_hex(bits@),
{
    let value = bits_to_number(bits);
    let mut digits = String::new();
    push_hex(&mut digits, value);
    let len = digits.as_str().unicode_len();
    let mut text = String::new();
    text.push('h');
    text.append(digits.as_str());
    let mut k: usize = len;
    while k < 16
        invariant
            len <= k,
            len < 16 ==> k <= 16,
            len >= 16 ==> k == len,
            len == digits@.len(),
            digits@ == hex_upper(bits_value(bits@)),
            text@ == seq!['h'] + digits@ + Seq::new((k - len) as nat, |i: int| '0'),
        decreases 16 - k,
    {
        text.push('0');
        k += 1;
        assert(text@ =~= seq!['h'] + digits@ + Seq::new((k - len) as nat, |i: int| '0'));
    }
    assert(text@ =~= verilog_hex(bits@));
    text
}

} // verus!
