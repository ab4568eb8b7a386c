//! Decimal digits: rendering integers as strings of digit characters and
//! reading digit characters back. The spec functions here are the vocabulary
//! that the name generator and the date formatter use in their contracts.

use vstd::prelude::*;

verus! {

/// The character for one decimal digit.
pub open spec fn digit_char(d: int) -> char {
    if d == 0 {
        '0'
    } else if d == 1 {
        '1'
    } else if d == 2 {
        '2'
    } else if d == 3 {
        '3'
    } else if d == 4 {
        '4'
    } else if d == 5 {
        '5'
    } else if d == 6 {
        '6'
    } else if d == 7 {
        '7'
    } else if d == 8 {
        '8'
    } else {
        '9'
    }
}

/// Whether a character is a decimal digit.
pub open spec fn is_digit(c: char) -> bool {
    48 <= c as int <= 57
}

/// The value of a digit character.
pub open spec fn digit_val(c: char) -> int {
    c as int - 48
}

/// Decimal rendering of a nonnegative integer, without leading zeros
/// (a single zero for 0).
pub open spec fn dec_digits(n: int) -> Seq<char>
    decreases n,
{
    if n < 10 {
        seq![digit_char(n)]
    } else {
        dec_digits(n / 10).push(digit_char(n % 10))
    }
}

/// Two-character rendering of an integer below 100, zero-padded.
pub open spec fn two_digits(n: int) -> Seq<char> {
    seq![digit_char(n / 10 % 10), digit_char(n % 10)]
}

/// Three-character rendering of an integer below 1000, zero-padded.
pub open spec fn three_digits(n: int) -> Seq<char> {
    seq![digit_char(n / 100 % 10), digit_char(n / 10 % 10), digit_char(n % 10)]
}

/// Four-character rendering of an integer below 10000, zero-padded.
pub open spec fn four_digits(n: int) -> Seq<char> {
    seq![
        digit_char(n / 1000 % 10),
        digit_char(n / 100 % 10),
        digit_char(n / 10 % 10),
        digit_char(n % 10),
    ]
}

/// A one-character string slice for one digit.
pub fn digit_str(d: u8) -> (s: &'static str)
    requires
        d < 10,
    ensures
        s@ =~= seq![digit_char(d as int)],
{
    proof {
        reveal_strlit("0");
        reveal_strlit("1");
        reveal_strlit("2");
        reveal_strlit("3");
        reveal_strlit("4");
        reveal_strlit("5");
        reveal_strlit("6");
        reveal_strlit("7");
        reveal_strlit("8");
        reveal_strlit("9");
    }
    match d {
        0 => "0",
        1 => "1",
        2 => "2",
        3 => "3",
        4 => "4",
        5 => "5",
        6 => "6",
        7 => "7",
        8 => "8",
        _ => "9",
    }
}

/// Appends the decimal rendering of `n` to `out`.
pub fn append_u64(out: &mut String, n: u64)
    ensures
        final(out)@ == old(out)@ + dec_digits(n as int),
    decreases n,
{
    if n < 10 {
        out.append(digit_str(n as u8));
    } else {
        append_u64(out, n / 10);
        out.append(digit_str((n % 10) as u8));
        proof {
            assert(old(out)@ + dec_digits(n as int) =~= (old(out)@ + dec_digits(n as int / 10))
                + seq![digit_char(n as int % 10)]);
        }
    }
}

/// The decimal rendering of `n` as a fresh string.
pub fn u64_to_string(n: u64) -> (s: String)
    ensures
        s@ == dec_digits(n as int),
{
    let mut s = String::new();
    append_u64(&mut s, n);
    proof {
        assert(s@ =~= dec_digits(n as int));
    }
    s
}

/// Appends the zero-padded two-digit rendering of `n` to `out`.
pub fn append_two_digits(out: &mut String, n: u32)
    requires
        n < 100,
    ensures
        final(out)@ == old(out)@ + two_digits(n as int),
{
    out.append(digit_str((n / 10) as u8));
    out.append(digit_str((n % 10) as u8));
    proof {
        assert(old(out)@ + two_digits(n as int) =~= (old(out)@
            + seq![digit_char(n as int / 10 % 10)]) + seq![digit_char(n as int % 10)]);
    }
}

/// Appends the zero-padded three-digit rendering of `n` to `out`.
pub fn append_three_digits(out: &mut String, n: u32)
    requires
        n < 1000,
    ensures
        final(out)@ == old(out)@ + three_digits(n as int),
{
    out.append(digit_str((n / 100) as u8));
    out.append(digit_str((n / 10 % 10) as u8));
    out.append(digit_str((n % 10) as u8));
    proof {
        assert(old(out)@ + three_digits(n as int) =~= ((old(out)@
            + seq![digit_char(n as int / 100 % 10)]) + seq![digit_char(n as int / 10 % 10)])
            + seq![digit_char(n as int % 10)]);
    }
}

/// Appends the zero-padded four-digit rendering of `n` to `out`.
pub fn append_four_digits(out: &mut String, n: u32)
    requires
        n < 10000,
    ensures
        final(out)@ == old(out)@ + four_digits(n as int),
{
    out.append(digit_str((n / 1000) as u8));
    out.append(digit_str((n / 100 % 10) as u8));
    out.append(digit_str((n / 10 % 10) as u8));
    out.append(digit_str((n % 10) as u8));
    proof {
        assert(old(out)@ + four_digits(n as int) =~= (((old(out)@
            + seq![digit_char(n as int / 1000 % 10)]) + seq![digit_char(n as int / 100 % 10)])
            + seq![digit_char(n as int / 10 % 10)]) + seq![digit_char(n as int % 10)]);
    }
}

/// Powers of ten.
pub open spec fn pow10(n: int) -> int
    decreases n,
{
    if n <= 0 {
        1
    } else {
        10 * pow10(n - 1)
    }
}

/// Whether the `len` characters from `start` are all decimal digits.
pub open spec fn digits_are(s: Seq<char>, start: int, len: int) -> bool {
    forall|i: int| start <= i < start + len ==> is_digit(#[trigger] s[i])
}

/// The value of the digit run of length `len` at `start`.
pub open spec fn digits_value(s: Seq<char>, start: int, len: int) -> int
    decreases len,
{
    if len <= 0 {
        0
    } else {
        digits_value(s, start, len - 1) * 10 + digit_val(s[start + len - 1])
    }
}

/// A digit run of length `len` is worth less than ten to the `len`.
pub proof fn lemma_digits_value_bound(s: Seq<char>, start: int, len: int)
    requires
        digits_are(s, start, len),
        len >= 0,
    ensures
        0 <= digits_value(s, start, len) < pow10(len),
    decreases len,
{
    if len > 0 {
        lemma_digits_value_bound(s, start, len - 1);
    }
}

/// Powers of ten are positive.
pub proof fn lemma_pow10_pos(n: int)
    ensures
        pow10(n) >= 1,
    decreases n,
{
    if n > 0 {
        lemma_pow10_pos(n - 1);
    }
}

/// Powers of ten multiply by adding exponents.
pub proof fn lemma_pow10_add(a: int, b: int)
    requires
        a >= 0,
        b >= 0,
    ensures
        pow10(a) * pow10(b) == pow10(a + b),
    decreases a,
{
    if a == 0 {
        assert(pow10(0) == 1);
    } else {
        lemma_pow10_add(a - 1, b);
        assert(pow10(a) == 10 * pow10(a - 1));
        assert(pow10(a + b) == 10 * pow10(a - 1 + b));
        assert(pow10(a) * pow10(b) == 10 * (pow10(a - 1) * pow10(b))) by (nonlinear_arith)
            requires
                pow10(a) == 10 * pow10(a - 1),
        ;
    }
}

/// Powers of ten grow.
pub proof fn lemma_pow10_mono(a: int, b: int)
    requires
        a <= b,
    ensures
        pow10(a) <= pow10(b),
    decreases b - a,
{
    lemma_pow10_pos(a);
    if a < b {
        lemma_pow10_mono(a, b - 1);
        lemma_pow10_pos(b - 1);
        if b > 0 {
            assert(pow10(b) == 10 * pow10(b - 1));
        }
    }
}

/// Reads the digit run of length `len` at `start` of `s`; `None` when some
/// character there is no digit.
pub fn parse_digits(s: &str, start: usize, len: usize) -> (r: Option<u32>)
    requires
        start + len <= s@.len(),
        start + len < usize::MAX,
        len <= 8,
    ensures
        match r {
            Some(v) => digits_are(s@, start as int, len as int) && v == digits_value(
                s@,
                start as int,
                len as int,
            ),
            None => !digits_are(s@, start as int, len as int),
        },
{
    proof {
        reveal_with_fuel(pow10, 9);
    }
    let mut acc: u32 = 0;
    let mut i: usize = 0;
    while i < len
        invariant
            start + len <= s@.len(),
            start + len < usize::MAX,
            len <= 8,
            i <= len,
            digits_are(s@, start as int, i as int),
            acc == digits_value(s@, start as int, i as int),
            0 <= acc < pow10(i as int),
        decreases len - i,
    {
        let c = s.get_char(start + i);
        let code = c as u32;
        if code < 48 || code > 57 {
            proof {
                assert(!is_digit(s@[start + i]));
            }
            return None;
        }
        proof {
            lemma_pow10_mono(i as int, 7);
            reveal_with_fuel(pow10, 9);
        }
        acc = acc * 10 + (code - 48);
        i = i + 1;
        proof {
            assert(digits_value(s@, start as int, i as int) == digits_value(
                s@,
                start as int,
                i as int - 1,
            ) * 10 + digit_val(s@[start + i - 1]));
        }
    }
    Some(acc)
}

/// The length of a decimal rendering grows with the number: one character
/// below ten, more above.
pub proof fn lemma_dec_digits_len(n: int)
    requires
        n >= 0,
    ensures
        dec_digits(n).len() >= 1,
        n >= 10 ==> dec_digits(n).len() >= 2,
        forall|i: int|
            0 <= i < dec_digits(n).len() ==> is_digit(#[trigger] dec_digits(n)[i]),
    decreases n,
{
    if n >= 10 {
        lemma_dec_digits_len(n / 10);
    }
}

/// Distinct nonnegative integers render to distinct digit strings.
pub proof fn lemma_dec_digits_injective(a: int, b: int)
    requires
        0 <= a,
        0 <= b,
        a != b,
    ensures
        dec_digits(a) != dec_digits(b),
    decreases a + b,
{
    lemma_dec_digits_len(a);
    lemma_dec_digits_len(b);
    if a < 10 && b < 10 {
        assert(dec_digits(a)[0] == digit_char(a));
        assert(dec_digits(b)[0] == digit_char(b));
    } else if a < 10 {
        assert(dec_digits(a).len() == 1);
        assert(dec_digits(b).len() >= 2);
    } else if b < 10 {
        assert(dec_digits(a).len() >= 2);
        assert(dec_digits(b).len() == 1);
    } else {
        if a / 10 == b / 10 {
            assert(a % 10 != b % 10);
            assert(dec_digits(a).last() == digit_char(a % 10));
            assert(dec_digits(b).last() == digit_char(b % 10));
        } else {
            lemma_dec_digits_injective(a / 10, b / 10);
            if dec_digits(a) == dec_digits(b) {
                assert(dec_digits(a).drop_last() =~= dec_digits(a / 10));
                assert(dec_digits(b).drop_last() =~= dec_digits(b / 10));
                assert(dec_digits(a / 10) =~= dec_digits(b / 10));
            }
        }
    }
}

} // verus!
