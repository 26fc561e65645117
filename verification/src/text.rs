//! Text rendering used by the `Debug`/`Display`-style methods of the library's
//! value types: upper-case hexadecimal in the form Rust's `{:#0NX}` prints.

use vstd::prelude::*;
use vstd::string::*;

verus! {

/// The upper-case hexadecimal digit for `d` (`0 <= d < 16`).
pub open spec fn hex_digit(d: nat) -> char {
    if d < 10 {
        ((d + 48) as u8) as char
    } else {
        ((d + 55) as u8) as char
    }
}

/// The upper-case hexadecimal digits of `v`, most significant first, with no
/// leading zeros (`0` is written as a single `0`).
pub open spec fn hex_digits(v: nat) -> Seq<char>
    decreases v,
{
    if v < 16 {
        seq![hex_digit(v)]
    } else {
        hex_digits(v / 16).push(hex_digit(v % 16))
    }
}

/// `n` copies of `c`.
pub open spec fn repeat_char(c: char, n: nat) -> Seq<char>
    decreases n,
{
    if n == 0 {
        Seq::empty()
    } else {
        repeat_char(c, (n - 1) as nat).push(c)
    }
}

/// What `{:#0W X}` prints for `v` when `min_digits == W - 2`: `0x`, then the
/// hexadecimal digits of `v` left-padded with `0` to at least `min_digits`.
pub open spec fn hex_text(v: nat, min_digits: nat) -> Seq<char> {
    let digits = hex_digits(v);
    let pad: nat = if digits.len() < min_digits {
        (min_digits - digits.len()) as nat
    } else {
        0
    };
    seq!['0', 'x'] + repeat_char('0', pad) + digits
}

proof fn lemma_repeat_len(c: char, n: nat)
    ensures
        repeat_char(c, n).len() == n,
    decreases n,
{
    if n > 0 {
        lemma_repeat_len(c, (n - 1) as nat);
    }
}

/// A 32-bit value has at most eight hexadecimal digits, so with a minimum of
/// at least eight digits the text is exactly `0x` and `min_digits` digits.
pub proof fn lemma_hex_text_len(v: u32, min_digits: nat)
    requires
        min_digits >= 8,
    ensures
        hex_text(v as nat, min_digits).len() == min_digits + 2,
{
    reveal_with_fuel(pow16, 9);
    lemma_hex_digits_len(v as nat, 8);
    let digits = hex_digits(v as nat);
    let pad: nat = if digits.len() < min_digits {
        (min_digits - digits.len()) as nat
    } else {
        0
    };
    lemma_repeat_len('0', pad);
}

/// The one-character text of the upper-case hexadecimal digit `d`.
fn digit_str(d: u32) -> (s: &'static str)
    requires
        d < 16,
    ensures
        s@ == seq![hex_digit(d as nat)],
{
    if d == 0 {
        proof {
            reveal_strlit("0");
        }
        "0"
    } else if d == 1 {
        proof {
            reveal_strlit("1");
        }
        "1"
    } else if d == 2 {
        proof {
            reveal_strlit("2");
        }
        "2"
    } else if d == 3 {
        proof {
            reveal_strlit("3");
        }
        "3"
    } else if d == 4 {
        proof {
            reveal_strlit("4");
        }
        "4"
    } else if d == 5 {
        proof {
            reveal_strlit("5");
        }
        "5"
    } else if d == 6 {
        proof {
            reveal_strlit("6");
        }
        "6"
    } else if d == 7 {
        proof {
            reveal_strlit("7");
        }
        "7"
    } else if d == 8 {
        proof {
            reveal_strlit("8");
        }
        "8"
    } else if d == 9 {
        proof {
            reveal_strlit("9");
        }
        "9"
    } else if d == 10 {
        proof {
            reveal_strlit("A");
        }
        "A"
    } else if d == 11 {
        proof {
            reveal_strlit("B");
        }
        "B"
    } else if d == 12 {
        proof {
            reveal_strlit("C");
        }
        "C"
    } else if d == 13 {
        proof {
            reveal_strlit("D");
        }
        "D"
    } else if d == 14 {
        proof {
            reveal_strlit("E");
        }
        "E"
    } else {
        proof {
            reveal_strlit("F");
        }
        "F"
    }
}

fn push_hex_digits(s: &mut String, v: u32)
    ensures
        final(s)@ == old(s)@ + hex_digits(v as nat),
    decreases v,
{
    if v >= 16 {
        push_hex_digits(s, v / 16);
    }
    let digit = digit_str(v % 16);
    s.append(digit);
    assert(final(s)@ =~= old(s)@ + hex_digits(v as nat));
}

/// `16^k`.
spec fn pow16(k: nat) -> nat
    decreases k,
{
    if k == 0 {
        1
    } else {
        16 * pow16((k - 1) as nat)
    }
}

proof fn lemma_hex_digits_len(v: nat, k: nat)
    requires
        k >= 1,
        v < pow16(k),
    ensures
        hex_digits(v).len() <= k,
    decreases v,
{
    if v >= 16 {
        assert(k >= 2) by {
            if k == 1 {
                assert(pow16(1) == 16 * pow16(0));
            }
        }
        assert(pow16(k) == 16 * pow16((k - 1) as nat));
        assert(v / 16 < pow16((k - 1) as nat));
        lemma_hex_digits_len(v / 16, (k - 1) as nat);
    }
}

fn hex_len(v: u32) -> (n: usize)
    ensures
        n == hex_digits(v as nat).len(),
        n <= 8,
    decreases v,
{
    proof {
        reveal_with_fuel(pow16, 9);
        lemma_hex_digits_len(v as nat, 8);
    }
    if v >= 16 {
        1 + hex_len(v / 16)
    } else {
        1
    }
}

/// Renders `v` as `{:#0W X}` does with `W == min_digits + 2`: `0x` followed by
/// at least `min_digits` upper-case hexadecimal digits.
pub fn hex_upper(v: u32, min_digits: usize) -> (s: String)
    ensures
        s@ == hex_text(v as nat, min_digits as nat),
{
    let mut s = String::from_str("0x");
    proof {
        reveal_strlit("0x");
        assert(s@ =~= seq!['0', 'x'] + repeat_char('0', 0));
    }
    let len = hex_len(v);
    let pad: usize = if len < min_digits {
        min_digits - len
    } else {
        0
    };
    let mut i: usize = 0;
    while i < pad
        invariant
            i <= pad,
            s@ == seq!['0', 'x'] + repeat_char('0', i as nat),
        decreases pad - i,
    {
        s.append("0");
        proof {
            reveal_strlit("0");
        }
        i = i + 1;
        assert(s@ =~= seq!['0', 'x'] + repeat_char('0', i as nat));
    }
    push_hex_digits(&mut s, v);
    s
}

/// The upper-case hexadecimal digits, in order of value.
pub open spec fn hex_alphabet() -> Seq<char> {
    "0123456789ABCDEF"@
}

/// The value of a hexadecimal digit character (`0`-`9`, `A`-`F`), or `None`
/// for any other character.
pub open spec fn digit_value(c: char) -> Option<nat> {
    let x = c as u32;
    if 48 <= x && x <= 57 {
        Some((x - 48) as nat)
    } else if 65 <= x && x <= 70 {
        Some((x - 55) as nat)
    } else {
        None
    }
}

/// The number that a string of hexadecimal digits denotes, most significant
/// first (`None` if a character is not a digit).
pub open spec fn hex_value(s: Seq<char>) -> Option<nat>
    decreases s.len(),
{
    if s.len() == 0 {
        Some(0)
    } else {
        match (hex_value(s.drop_last()), digit_value(s.last())) {
            (Some(high), Some(low)) => Some(16 * high + low),
            _ => None,
        }
    }
}

/// Digit `d` is the `d`-th character of `0123456789ABCDEF`.
pub proof fn lemma_hex_digit_alphabet(d: nat)
    requires
        d < 16,
    ensures
        hex_digit(d) == hex_alphabet()[d as int],
        digit_value(hex_digit(d)) == Some(d),
{
    reveal_strlit("0123456789ABCDEF");
}

proof fn lemma_zeros_value(n: nat, ds: Seq<char>)
    ensures
        hex_value(repeat_char('0', n) + ds) == hex_value(ds),
    decreases n + ds.len(),
{
    let z = repeat_char('0', n);
    if ds.len() == 0 {
        assert(z + ds =~= z);
        if n > 0 {
            let z1 = repeat_char('0', (n - 1) as nat);
            lemma_zeros_value((n - 1) as nat, ds);
            assert(z1 + ds =~= z1);
            assert(z.drop_last() =~= z1);
        }
    } else {
        lemma_zeros_value(n, ds.drop_last());
        assert((z + ds).drop_last() =~= z + ds.drop_last());
        assert((z + ds).last() == ds.last());
    }
}

/// Reading back the digits of `v` gives `v`: they are its base-16
/// representation, most significant first.
pub proof fn lemma_hex_digits_value(v: nat)
    ensures
        hex_value(hex_digits(v)) == Some(v),
    decreases v,
{
    if v < 16 {
        lemma_hex_digit_alphabet(v);
        let ds = hex_digits(v);
        assert(ds.drop_last() =~= Seq::<char>::empty());
        assert(hex_value(ds.drop_last()) == Some(0nat));
        assert(ds.last() == hex_digit(v));
    } else {
        lemma_hex_digits_value(v / 16);
        lemma_hex_digit_alphabet(v % 16);
        let ds = hex_digits(v);
        assert(ds.drop_last() =~= hex_digits(v / 16));
        assert(ds.last() == hex_digit(v % 16));
        assert(16 * (v / 16) + v % 16 == v);
    }
}

/// The rendered text is `0x` followed by digits whose value is `v`: the
/// padding zeros change nothing.
pub proof fn lemma_hex_text_value(v: nat, min_digits: nat)
    ensures
        hex_text(v, min_digits).take(2) == seq!['0', 'x'],
        hex_value(hex_text(v, min_digits).skip(2)) == Some(v),
{
    let digits = hex_digits(v);
    let pad: nat = if digits.len() < min_digits {
        (min_digits - digits.len()) as nat
    } else {
        0
    };
    let t = hex_text(v, min_digits);
    assert(t.take(2) =~= seq!['0', 'x']);
    assert(t.skip(2) =~= repeat_char('0', pad) + digits);
    lemma_zeros_value(pad, digits);
    lemma_hex_digits_value(v);
}

} // verus!
