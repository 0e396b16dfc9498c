//! Text helpers: comparison, joining, hexadecimal digits and UTF-16.
use vstd::arithmetic::div_mod::lemma_div_denominator;
use vstd::arithmetic::power::{lemma_pow_positive, pow};
use vstd::prelude::*;

verus! {

/// `prefix` followed by `text`.
pub fn prefixed(prefix: &str, text: &str) -> (r: String)
    ensures
        r@ == prefix@ + text@,
{
    let mut r = prefix.to_string();
    r.append(text);
    r
}

/// Whether two texts hold the same characters.
pub fn same_text(a: &str, b: &str) -> (r: bool)
    ensures
        r == (a@ == b@),
{
    let mut left = a.chars();
    let mut right = b.chars();
    let ghost mut i: int = 0;
    loop
        invariant
            0 <= i <= a@.len(),
            i <= b@.len(),
            vstd::std_specs::iter::IteratorSpec::remaining(&left) == a@.skip(i),
            vstd::std_specs::iter::IteratorSpec::remaining(&right) == b@.skip(i),
            a@.take(i) == b@.take(i),
        decreases a@.len() - i,
    {
        match (left.next(), right.next()) {
            (None, None) => {
                assert(a@.take(i) == a@);
                assert(b@.take(i) == b@);
                return true;
            },
            (Some(x), Some(y)) => {
                assert(x == a@[i] && y == b@[i]);
                if x != y {
                    return false;
                }
                assert(a@.take(i + 1) == a@.take(i).push(x));
                assert(b@.take(i + 1) == b@.take(i).push(y));
                assert(a@.skip(i).drop_first() == a@.skip(i + 1));
                assert(b@.skip(i).drop_first() == b@.skip(i + 1));
                proof {
                    i = i + 1;
                }
            },
            _ => {
                return false;
            },
        }
    }
}

/// The hexadecimal digit for a number below sixteen, in lower case.
pub open spec fn hex_digit(d: int) -> char {
    if d < 10 {
        ('0' as int + d) as char
    } else {
        ('a' as int + d - 10) as char
    }
}

/// `n` in hexadecimal: lower case, most significant digit first, no padding.
pub open spec fn hex_text(n: nat) -> Seq<char>
    decreases n,
{
    if n < 16 {
        seq![hex_digit(n as int)]
    } else {
        hex_text(n / 16).push(hex_digit(n as int % 16))
    }
}

/// The digits of `n` in hexadecimal.
pub fn hex_digits(n: u32) -> (r: Vec<char>)
    ensures
        r@ == hex_text(n as nat),
    decreases n,
{
    let d: u8 = (n % 16) as u8;
    let c: char = if d < 10 {
        (0x30 + d) as char
    } else {
        (0x61 + (d - 10)) as char
    };
    assert(c == hex_digit(n as int % 16));
    if n < 16 {
        let mut r: Vec<char> = Vec::new();
        r.push(c);
        r
    } else {
        let mut r = hex_digits(n / 16);
        r.push(c);
        r
    }
}

/// The UTF-16 code units of one character.
pub open spec fn utf16_units(c: char) -> Seq<u16> {
    if (c as int) < 0x10000 {
        seq![c as u16]
    } else {
        let v = c as int - 0x10000;
        seq![(0xD800 + v / 0x400) as u16, (0xDC00 + v % 0x400) as u16]
    }
}

/// A character is a code point that is no surrogate.
pub proof fn char_range(c: char)
    ensures
        0 <= c as int <= 0x10FFFF,
        c as int <= 0xD7FF || 0xE000 <= c as int,
{
}

/// The UTF-16 code units of a text.
pub open spec fn utf16(text: Seq<char>) -> Seq<u16>
    decreases text.len(),
{
    if text.len() == 0 {
        Seq::empty()
    } else {
        utf16(text.drop_last()) + utf16_units(text.last())
    }
}

/// The UTF-16 code units of `text`.
pub fn encode_utf16(text: &str) -> (r: Vec<u16>)
    ensures
        r@ == utf16(text@),
{
    let mut r: Vec<u16> = Vec::new();
    let mut chars = text.chars();
    let ghost mut i: int = 0;
    loop
        invariant
            0 <= i <= text@.len(),
            vstd::std_specs::iter::IteratorSpec::remaining(&chars) == text@.skip(i),
            r@ == utf16(text@.take(i)),
        decreases text@.len() - i,
    {
        match chars.next() {
            None => {
                assert(text@.take(i) == text@);
                return r;
            },
            Some(c) => {
                assert(c == text@[i]);
                proof {
                    char_range(c);
                }
                let code: u32 = c as u32;
                if code < 0x10000 {
                    r.push(code as u16);
                } else {
                    let v: u32 = code - 0x10000;
                    r.push((0xD800 + v / 0x400) as u16);
                    r.push((0xDC00 + v % 0x400) as u16);
                }
                proof {
                    assert(text@.take(i + 1).drop_last() == text@.take(i));
                    assert(text@.skip(i).drop_first() == text@.skip(i + 1));
                    assert(r@ == utf16(text@.take(i)) + utf16_units(c));
                    i = i + 1;
                }
            },
        }
    }
}

/// The number that a text of hexadecimal digits stands for.
pub open spec fn hex_value(digits: Seq<char>) -> nat
    decreases digits.len(),
{
    if digits.len() == 0 {
        0
    } else {
        16 * hex_value(digits.drop_last()) + hex_digit_value(digits.last())
    }
}

/// The number that one hexadecimal digit stands for.
pub open spec fn hex_digit_value(c: char) -> nat {
    if '0' as int <= c as int <= '9' as int {
        (c as int - '0' as int) as nat
    } else {
        (c as int - 'a' as int + 10) as nat
    }
}

/// Reading the hexadecimal digits of a number gives the number back.
pub proof fn hex_text_reads_back(n: nat)
    ensures
        hex_value(hex_text(n)) == n,
    decreases n,
{
    if n < 16 {
        let digits = hex_text(n);
        assert(digits.drop_last() == Seq::<char>::empty());
        assert(digits.last() == hex_digit(n as int));
        assert(hex_value(digits.drop_last()) == 0);
    } else {
        hex_text_reads_back(n / 16);
        assert(hex_text(n).drop_last() == hex_text(n / 16));
    }
}

/// Every digit is one of `0`-`9` and `a`-`f`, and only the number zero starts
/// with a `0`.
pub proof fn hex_text_is_plain(n: nat)
    ensures
        hex_text(n).len() > 0,
        forall|i: int|
            0 <= i < hex_text(n).len() ==> ('0' <= #[trigger] hex_text(n)[i] <= '9' || 'a'
                <= hex_text(n)[i] <= 'f'),
        hex_text(n)[0] == '0' <==> n == 0,
    decreases n,
{
    if n >= 16 {
        hex_text_is_plain(n / 16);
    }
}

/// UTF-16 of two texts in a row is the UTF-16 of each, in a row.
pub proof fn utf16_of_concatenation(a: Seq<char>, b: Seq<char>)
    ensures
        utf16(a + b) == utf16(a) + utf16(b),
    decreases b.len(),
{
    if b.len() == 0 {
        assert(a + b == a);
    } else {
        utf16_of_concatenation(a, b.drop_last());
        assert((a + b).drop_last() == a + b.drop_last());
        assert((a + b).last() == b.last());
    }
}

/// Two texts with the same UTF-16 are the same text.
pub proof fn utf16_is_injective(a: Seq<char>, b: Seq<char>)
    requires
        utf16(a) == utf16(b),
    ensures
        a == b,
    decreases a.len(),
{
    utf16_units_tail(a);
    utf16_units_tail(b);
    if a.len() > 0 && b.len() > 0 {
        let ua = utf16(a);
        let ub = utf16(b);
        let ca = a.last();
        let cb = b.last();
        char_range(ca);
        char_range(cb);
        assert(utf16_units(ca).len() == utf16_units(cb).len());
        assert(ua.last() == ub.last());
        if utf16_units(ca).len() == 2 {
            assert(ua[ua.len() - 2] == ub[ub.len() - 2]);
        }
        assert(ca == cb);
        assert(utf16(a.drop_last()) == ua.take(ua.len() - utf16_units(ca).len()));
        assert(utf16(b.drop_last()) == ub.take(ub.len() - utf16_units(cb).len()));
        utf16_is_injective(a.drop_last(), b.drop_last());
        assert(a == a.drop_last().push(ca));
        assert(b == b.drop_last().push(cb));
    }
}

/// The UTF-16 of a text ends with the units of its last character, and the
/// last unit tells how many those are.
proof fn utf16_units_tail(a: Seq<char>)
    ensures
        a.len() == 0 <==> utf16(a).len() == 0,
        a.len() > 0 ==> {
            let u = utf16(a);
            let t = utf16_units(a.last());
            &&& 1 <= t.len() <= u.len()
            &&& u.last() == t.last()
            &&& t.len() == 2 ==> u[u.len() - 2] == t[0]
            &&& t.len() <= 2
            &&& (t.len() == 2 <==> 0xDC00 <= u.last() <= 0xDFFF)
        },
{
    if a.len() > 0 {
        let c = a.last();
        char_range(c);
        if (c as int) < 0x10000 {
            assert(c as u16 as int == c as int);
        } else {
            let v = c as int - 0x10000;
            assert(0 <= v / 0x400 < 0x400);
        }
    }
}

/// The character at `i`, counted from the right.
pub open spec fn from_right(text: Seq<char>, i: int) -> char {
    text[text.len() - 1 - i]
}

/// The digits of a number are its digits to the base sixteen: counted from the
/// right, the digit at `i` stands for the multiples of `16^i`. There is no digit
/// more than the number needs.
pub proof fn hex_text_is_positional(n: nat)
    ensures
        ({
            let digits = hex_text(n);
            &&& digits.len() > 0
            &&& n < pow(16, digits.len())
            &&& n > 0 ==> pow(16, (digits.len() - 1) as nat) <= n
            &&& n == 0 ==> digits.len() == 1
            &&& forall|i: int|
                0 <= i < digits.len() ==> {
                    let digit = n as int / pow(16, i as nat) % 16;
                    (#[trigger] from_right(digits, i)) as u32 == if digit < 10 {
                        0x30 + digit
                    } else {
                        0x57 + digit
                    }
                }
        }),
    decreases n,
{
    reveal(pow);
    let digits = hex_text(n);
    assert(pow(16, 0) == 1);
    if n < 16 {
        assert(pow(16, 1) == 16 * pow(16, 0));
        assert(n as int / 1 % 16 == n);
    } else {
        let less = hex_text(n / 16);
        hex_text_is_positional(n / 16);
        let length = less.len();
        assert(digits.len() == length + 1);
        assert(pow(16, length + 1) == 16 * pow(16, length));
        assert(pow(16, length) == 16 * pow(16, (length - 1) as nat));
        assert forall|i: int| 0 <= i < digits.len() implies {
            let digit = n as int / pow(16, i as nat) % 16;
            (#[trigger] from_right(digits, i)) as u32 == if digit < 10 {
                0x30 + digit
            } else {
                0x57 + digit
            }
        } by {
            if i > 0 {
                let below = pow(16, (i - 1) as nat);
                lemma_pow_positive(16, (i - 1) as nat);
                lemma_div_denominator(n as int, 16, below);
                assert(pow(16, i as nat) == 16 * below);
                assert(from_right(digits, i) == from_right(less, i - 1));
            }
        }
    }
}

/// Every character adds its own code units and changes none before: a code point
/// below 0x10000 is one unit of that very number, and any other a high surrogate
/// and a low surrogate that stand for it.
pub proof fn utf16_of_one_more_character(text: Seq<char>, c: char)
    ensures
        utf16(Seq::empty()) == Seq::<u16>::empty(),
        ({
            let before = utf16(text);
            let units = utf16(text.push(c));
            let n = before.len() as int;
            &&& units.take(n) == before
            &&& if (c as u32) < 0x10000 {
                &&& units.len() == n + 1
                &&& units[n] == c as u32
            } else {
                &&& units.len() == n + 2
                &&& 0xD800 <= units[n] <= 0xDBFF
                &&& 0xDC00 <= units[n + 1] <= 0xDFFF
                &&& 0x10000 + (units[n] - 0xD800) * 0x400 + (units[n + 1] - 0xDC00) == c as u32
            }
        }),
{
    char_range(c);
    assert(text.push(c).drop_last() == text);
    let before = utf16(text);
    let units = utf16(text.push(c));
    assert(units.take(before.len() as int) == before);
}

/// The code points that UTF-16 code units stand for: a unit that is no surrogate
/// for that very number, and a high surrogate before a low one for the code
/// point that both make up.
pub open spec fn decoded(units: Seq<u16>) -> Seq<int>
    decreases units.len(),
{
    if units.len() == 0 {
        Seq::empty()
    } else {
        let n = units.len() - 1;
        if n > 0 && 0xDC00 <= units[n] <= 0xDFFF && 0xD800 <= units[n - 1] <= 0xDBFF {
            decoded(units.take(n - 1)).push(
                0x10000 + (units[n - 1] - 0xD800) * 0x400 + (units[n] - 0xDC00),
            )
        } else {
            decoded(units.take(n)).push(units[n] as int)
        }
    }
}

/// Decoding the UTF-16 of a text gives the text back.
pub proof fn utf16_decodes_to_the_text(text: Seq<char>)
    ensures
        decoded(utf16(text)).len() == text.len(),
        forall|i: int| 0 <= i < text.len() ==> #[trigger] decoded(utf16(text))[i] == text[i] as int,
    decreases text.len(),
{
    if text.len() > 0 {
        let less = text.drop_last();
        let c = text.last();
        utf16_decodes_to_the_text(less);
        utf16_of_one_more_character(less, c);
        char_range(c);
        assert(less.push(c) == text);
        let units = utf16(text);
        let n = utf16(less).len() as int;
        if (c as u32) < 0x10000 {
            assert(units.take(units.len() - 1) == utf16(less));
        } else {
            assert(units.take(units.len() - 2) == utf16(less));
        }
        assert(decoded(units) == decoded(utf16(less)).push(c as int));
    }
}

} // verus!
