//! Character-level helpers on strings: literal comparison, decimal parsing
//! and hexadecimal rendering.

use vstd::prelude::*;

verus! {

/// Whether `s` holds exactly the characters of `lit`.
pub fn chars_equal(s: &str, lit: &str) -> (r: bool)
    ensures
        r == (s@ == lit@),
{
    let n: usize = s.unicode_len();
    if n != lit.unicode_len() {
        return false;
    }
    let mut i: usize = 0;
    while i < n
        invariant
            n == s@.len(),
            n == lit@.len(),
            i <= n,
            forall|j: int| 0 <= j < i ==> s@[j] == lit@[j],
        decreases n - i,
    {
        if s.get_char(i) != lit.get_char(i) {
            return false;
        }
        i += 1;
    }
    assert(s@ =~= lit@);
    true
}


/// Whether `c` is an ASCII decimal digit.
pub open spec fn is_decimal_digit(c: char) -> bool {
    48 <= (c as u32) <= 57
}

/// The value of a decimal digit character.
pub open spec fn digit_value(c: char) -> int {
    (c as u32) - 48
}

/// Whether every character of `s` is an ASCII decimal digit.
pub open spec fn all_decimal_digits(s: Seq<char>) -> bool {
    forall|i: int| 0 <= i < s.len() ==> #[trigger] is_decimal_digit(s[i])
}

/// The number that the decimal digits `s` denote, most significant first.
pub open spec fn decimal_value(s: Seq<char>) -> int
    decreases s.len(),
{
    if s.len() == 0 {
        0
    } else {
        decimal_value(s.drop_last()) * 10 + digit_value(s.last())
    }
}

/// The digits of an unsigned number in text: an optional leading `+` is
/// dropped.
pub open spec fn unsigned_digits(s: Seq<char>) -> Seq<char> {
    if s.len() > 0 && s[0] == '+' {
        s.drop_first()
    } else {
        s
    }
}

/// How `u32::from_str` reads `s`: an optional `+`, then one or more ASCII
/// decimal digits whose value fits in a `u32`; anything else is refused.
pub open spec fn parse_u32(s: Seq<char>) -> Option<u32> {
    let d = unsigned_digits(s);
    if d.len() > 0 && all_decimal_digits(d) && decimal_value(d) <= u32::MAX {
        Some(decimal_value(d) as u32)
    } else {
        None
    }
}

/// A prefix of a string of digits never denotes more than the whole.
pub proof fn lemma_decimal_value_prefix(s: Seq<char>, k: int)
    requires
        0 <= k <= s.len(),
        all_decimal_digits(s),
    ensures
        decimal_value(s.subrange(0, k)) <= decimal_value(s),
        decimal_value(s) >= 0,
    decreases s.len(),
{
    if s.len() == 0 {
        assert(s.subrange(0, k) =~= s);
    } else if k == s.len() {
        assert(s.subrange(0, k) =~= s);
        lemma_decimal_value_prefix(s.drop_last(), 0);
        assert(is_decimal_digit(s[s.len() - 1]));
    } else {
        let t = s.drop_last();
        assert(all_decimal_digits(t)) by {
            assert forall|i: int| 0 <= i < t.len() implies #[trigger] is_decimal_digit(t[i]) by {
                assert(is_decimal_digit(s[i]));
            }
        }
        lemma_decimal_value_prefix(t, k);
        assert(t.subrange(0, k) =~= s.subrange(0, k));
        assert(is_decimal_digit(s[s.len() - 1]));
    }
}

/// Reads the characters of `s` from index `from` on as `u32::from_str` does.
pub fn parse_u32_from(s: &str, from: usize) -> (r: Option<u32>)
    requires
        from <= s@.len(),
    ensures
        r == parse_u32(s@.skip(from as int)),
{
    let n: usize = s.unicode_len();
    let ghost t = s@.skip(from as int);
    let mut start: usize = from;
    if from < n && s.get_char(from) == '+' {
        start = from + 1;
    }
    let ghost d = s@.subrange(start as int, n as int);
    assert(d =~= unsigned_digits(t));
    if start >= n {
        return None;
    }
    let mut acc: u64 = 0;
    let mut i: usize = start;
    while i < n
        invariant
            start <= i <= n,
            n == s@.len(),
            d == s@.subrange(start as int, n as int),
            d == unsigned_digits(s@.skip(from as int)),
            d.len() > 0,
            acc <= u32::MAX,
            acc == decimal_value(s@.subrange(start as int, i as int)),
            all_decimal_digits(s@.subrange(start as int, i as int)),
        decreases n - i,
    {
        let c = s.get_char(i);
        let code: u32 = c as u32;
        if code < 48 || code > 57 {
            assert(d[i - start] == c);
            assert(!is_decimal_digit(d[i - start]));
            return None;
        }
        let next: u64 = acc * 10 + (code - 48) as u64;
        let ghost p = s@.subrange(start as int, i + 1);
        assert(p.drop_last() =~= s@.subrange(start as int, i as int));
        assert(all_decimal_digits(p)) by {
            assert forall|j: int| 0 <= j < p.len() implies #[trigger] is_decimal_digit(p[j]) by {
                if j < p.len() - 1 {
                    assert(p[j] == s@.subrange(start as int, i as int)[j]);
                }
            }
        }
        if next > 0xffff_ffffu64 {
            proof {
                if all_decimal_digits(d) {
                    lemma_decimal_value_prefix(d, i + 1 - start);
                    assert(d.subrange(0, i + 1 - start) =~= p);
                }
            }
            return None;
        }
        acc = next;
        i += 1;
    }
    assert(s@.subrange(start as int, i as int) =~= d);
    Some(acc as u32)
}


/// The lowercase hexadecimal digit for `d` (`0 <= d < 16`).
pub open spec fn hex_digit_char(d: int) -> char {
    if d < 10 {
        (48 + d) as char
    } else {
        (87 + d) as char
    }
}

/// The lowercase hexadecimal digits of `n`, most significant first, with no
/// leading zero (`0` is the single digit `0`).
pub open spec fn hex_digits(n: nat) -> Seq<char>
    decreases n,
{
    if n < 16 {
        seq![hex_digit_char(n as int)]
    } else {
        hex_digits(n / 16) + seq![hex_digit_char((n % 16) as int)]
    }
}

/// How `{:#x}` renders `n`: `0x`, then the lowercase hexadecimal digits.
pub open spec fn hex_text(n: nat) -> Seq<char> {
    seq!['0', 'x'] + hex_digits(n)
}

/// The value of a lowercase hexadecimal digit character.
pub open spec fn hex_digit_value(c: char) -> int {
    if (c as u32) <= 57 {
        (c as u32) - 48
    } else {
        (c as u32) - 87
    }
}

/// The number that the hexadecimal digits `s` denote, most significant first.
pub open spec fn hex_value(s: Seq<char>) -> int
    decreases s.len(),
{
    if s.len() == 0 {
        0
    } else {
        hex_value(s.drop_last()) * 16 + hex_digit_value(s.last())
    }
}

/// A hexadecimal digit character reads back as its digit.
pub proof fn lemma_hex_digit_round_trip(d: int)
    requires
        0 <= d < 16,
    ensures
        hex_digit_value(hex_digit_char(d)) == d,
{
    if d < 10 {
        assert(((48 + d) as char) as u32 == 48 + d);
    } else {
        assert(((87 + d) as char) as u32 == 87 + d);
    }
}

/// Reading the hexadecimal rendering of a number gives the number back, and
/// the rendering has no leading zero.
pub proof fn lemma_hex_digits_round_trip(n: nat)
    ensures
        hex_value(hex_digits(n)) == n,
        hex_digits(n).len() >= 1,
        n > 0 ==> hex_digits(n)[0] != '0',
    decreases n,
{
    if n < 16 {
        lemma_hex_digit_round_trip(n as int);
        let s = hex_digits(n);
        assert(s.drop_last() =~= Seq::<char>::empty());
        assert(hex_value(s.drop_last()) == 0);
        assert(s.last() == hex_digit_char(n as int));
        assert(hex_value(s) == hex_value(s.drop_last()) * 16 + hex_digit_value(s.last()));
    } else {
        lemma_hex_digits_round_trip(n / 16);
        lemma_hex_digit_round_trip((n % 16) as int);
        let s = hex_digits(n);
        assert(s.drop_last() =~= hex_digits(n / 16));
        assert(s[0] == hex_digits(n / 16)[0]);
        assert(s.last() == hex_digit_char((n % 16) as int));
        assert(hex_value(s) == hex_value(s.drop_last()) * 16 + hex_digit_value(s.last()));
        assert(n == (n / 16) * 16 + n % 16);
    }
}

/// Whether every character of `s` is a lowercase hexadecimal digit.
pub open spec fn all_hex_digits(s: Seq<char>) -> bool {
    forall|i: int|
        0 <= i < s.len() ==> (48 <= (#[trigger] s[i] as u32) <= 57 || 97 <= (s[i] as u32) <= 102)
}

/// The hexadecimal rendering of a number uses only lowercase hexadecimal
/// digits.
pub proof fn lemma_hex_digits_are_digits(n: nat)
    ensures
        all_hex_digits(hex_digits(n)),
    decreases n,
{
    if n < 16 {
        let d = n as int;
        if d < 10 {
            assert(((48 + d) as char) as u32 == 48 + d);
        } else {
            assert(((87 + d) as char) as u32 == 87 + d);
        }
    } else {
        lemma_hex_digits_are_digits(n / 16);
        let d = (n % 16) as int;
        if d < 10 {
            assert(((48 + d) as char) as u32 == 48 + d);
        } else {
            assert(((87 + d) as char) as u32 == 87 + d);
        }
        let s = hex_digits(n);
        assert forall|i: int| 0 <= i < s.len() implies (48 <= (#[trigger] s[i] as u32) <= 57 || 97
            <= (s[i] as u32) <= 102) by {
            if i < s.len() - 1 {
                assert(s[i] == hex_digits(n / 16)[i]);
            }
        }
    }
}

/// The one-character text of the hexadecimal digit `d`.
fn hex_digit_str(d: u16) -> (r: &'static str)
    requires
        d < 16,
    ensures
        r@ == seq![hex_digit_char(d as int)],
{
    let r = match d {
        0 => "0",
        1 => "1",
        2 => "2",
        3 => "3",
        4 => "4",
        5 => "5",
        6 => "6",
        7 => "7",
        8 => "8",
        9 => "9",
        10 => "a",
        11 => "b",
        12 => "c",
        13 => "d",
        14 => "e",
        _ => "f",
    };
    proof {
        reveal_strlit("0");
        reveal_strlit("1");
        reveal_strlit("2");
        reveal_strlit("3");
        reveal_strlit("4");
        reveal_strlit("5");
        reveal_strlit("6");
        reveal_strlit("7");
        reveal_strlit("8");
        reveal_strlit("9");
        reveal_strlit("a");
        reveal_strlit("b");
        reveal_strlit("c");
        reveal_strlit("d");
        reveal_strlit("e");
        reveal_strlit("f");
    }
    assert(r@ =~= seq![hex_digit_char(d as int)]);
    r
}

/// Appends the hexadecimal digits of `n` to `out`.
fn append_hex_digits(out: &mut String, n: u16)
    ensures
        final(out)@ == old(out)@ + hex_digits(n as nat),
    decreases n,
{
    if n >= 16 {
        append_hex_digits(out, n / 16);
    }
    out.append(hex_digit_str(n % 16));
    proof {
        if n >= 16 {
            assert(old(out)@ + hex_digits((n / 16) as nat) + seq![hex_digit_char((n % 16) as int)]
                =~= old(out)@ + hex_digits(n as nat));
        } else {
            assert(hex_digits(n as nat) =~= seq![hex_digit_char((n % 16) as int)]);
        }
    }
}

/// Appends `n` as `{:#x}` renders it.
pub fn append_hex(out: &mut String, n: u16)
    ensures
        final(out)@ == old(out)@ + hex_text(n as nat),
{
    out.append("0x");
    proof {
        reveal_strlit("0x");
    }
    append_hex_digits(out, n);
    assert(final(out)@ =~= old(out)@ + hex_text(n as nat));
}

} // verus!
