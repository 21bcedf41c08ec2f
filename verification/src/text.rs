//! Text as the native interfaces hold it, and as the results hold it.

use vstd::prelude::*;

verus! {

/// The character of a decimal digit.
pub open spec fn digit(d: nat) -> char
    recommends
        d < 10,
{
    (48 + d) as char
}

/// The decimal numeral of `n`, without sign or padding.
pub open spec fn decimal(n: nat) -> Seq<char>
    decreases n,
{
    if n < 10 {
        seq![digit(n)]
    } else {
        decimal(n / 10).push(digit(n % 10))
    }
}

/// The digit `d` as a text of one character.
fn digit_str(d: u32) -> (s: &'static str)
    requires
        d < 10,
    ensures
        s@ == seq![digit(d as nat)],
{
    proof {
        reveal_strlit("0");
        reveal_strlit("1");
        reveal_strlit("2");
        reveal_strlit("3");
        reveal_strlit("4");
        reveal_strlit("5");
        reveal_strlit("6");
        reveal_strlit("7");
        reveal_strlit("8");
        reveal_strlit("9");
    }
    if d == 0 {
        "0"
    } else if d == 1 {
        "1"
    } else if d == 2 {
        "2"
    } else if d == 3 {
        "3"
    } else if d == 4 {
        "4"
    } else if d == 5 {
        "5"
    } else if d == 6 {
        "6"
    } else if d == 7 {
        "7"
    } else if d == 8 {
        "8"
    } else {
        "9"
    }
}

/// Appends the decimal numeral of `n` to `out`.
pub fn push_decimal(out: &mut String, n: u32)
    ensures
        final(out)@ == old(out)@ + decimal(n as nat),
    decreases n,
{
    if n >= 10 {
        push_decimal(out, n / 10);
    }
    out.append(digit_str(n % 10));
}

/// The UTF-16 code units of one character: itself where it fits in one
/// unit, else a high and a low surrogate.
pub open spec fn utf16_of_char(c: char) -> Seq<u16> {
    let v = c as u32 as int;
    if v < 0x1_0000 {
        seq![v as u16]
    } else {
        seq![(0xD800 + (v - 0x1_0000) / 0x400) as u16, (0xDC00 + (v - 0x1_0000) % 0x400) as u16]
    }
}

/// The UTF-16 form of a text, character after character.
pub open spec fn utf16(text: Seq<char>) -> Seq<u16>
    decreases text.len(),
{
    if text.len() == 0 {
        Seq::empty()
    } else {
        utf16(text.drop_last()) + utf16_of_char(text.last())
    }
}

/// What tells the units of a character apart: one unit outside the
/// surrogate range, or a high surrogate followed by a low one, from which
/// the character can be had again.
pub proof fn lemma_utf16_of_char(c: char)
    ensures
        ({
            let u = utf16_of_char(c);
            if (c as u32) < 0x1_0000 {
                &&& u.len() == 1
                &&& u[0] == c as u32
                &&& !(0xD800 <= u[0] <= 0xDFFF)
            } else {
                &&& u.len() == 2
                &&& 0xD800 <= u[0] <= 0xDBFF
                &&& 0xDC00 <= u[1] <= 0xDFFF
                &&& c as u32 == 0x1_0000 + (u[0] - 0xD800) * 0x400 + (u[1] - 0xDC00)
            }
        }),
{
}

/// Two texts with the same UTF-16 form are the same text: the units say
/// which text they stand for.
pub proof fn lemma_utf16_injective(a: Seq<char>, b: Seq<char>)
    requires
        utf16(a) == utf16(b),
    ensures
        a == b,
    decreases a.len(),
{
    if a.len() == 0 || b.len() == 0 {
        if a.len() > 0 {
            lemma_utf16_of_char(a.last());
        }
        if b.len() > 0 {
            lemma_utf16_of_char(b.last());
        }
        assert(a =~= b);
    } else {
        let (x, y) = (a.last(), b.last());
        let (p, q) = (utf16(a.drop_last()), utf16(b.drop_last()));
        let (u, v) = (utf16_of_char(x), utf16_of_char(y));
        lemma_utf16_of_char(x);
        lemma_utf16_of_char(y);
        assert((p + u).last() == u.last() && (q + v).last() == v.last());
        if (x as u32) >= 0x1_0000 {
            assert((p + u)[p.len() as int] == u[0] && (q + v)[q.len() as int] == v[0]);
        }
        assert(x as u32 == y as u32);
        vstd::utf8::char_u32_cast(x, x as u32);
        vstd::utf8::char_u32_cast(y, y as u32);
        assert(p =~= (p + u).take(p.len() as int));
        assert(q =~= (q + v).take(q.len() as int));
        lemma_utf16_injective(a.drop_last(), b.drop_last());
        assert(a =~= a.drop_last().push(x));
        assert(b =~= b.drop_last().push(y));
    }
}

/// Encodes `text` as UTF-16.
pub fn encode_utf16(text: &str) -> (units: Vec<u16>)
    ensures
        units@ == utf16(text@),
{
    let mut units: Vec<u16> = Vec::new();
    for c in it: text.chars()
        invariant
            it.seq() == text@,
            units@ == utf16(text@.take(it.index())),
    {
        let v: u32 = c as u32;
        if v < 0x1_0000 {
            units.push(v as u16);
        } else {
            let w: u32 = v - 0x1_0000;
            units.push((0xD800 + w / 0x400) as u16);
            units.push((0xDC00 + w % 0x400) as u16);
        }
        proof {
            let k = it.index();
            assert(text@.take(k + 1).drop_last() =~= text@.take(k));
        }
    }
    proof {
        assert(text@.take(text@.len() as int) =~= text@);
    }
    units
}

/// Index of the first zero byte in `bytes`, or the length of `bytes` where
/// it holds none: the length of the text in a zero-terminated buffer.
pub open spec fn nul_position(bytes: Seq<u8>) -> nat
    decreases bytes.len(),
{
    if bytes.len() == 0 || bytes[0] == 0 {
        0
    } else {
        1 + nul_position(bytes.drop_first())
    }
}

/// The bytes before the first zero byte; all of them where there is none.
pub open spec fn c_string(bytes: Seq<u8>) -> Seq<u8> {
    bytes.take(nul_position(bytes) as int)
}

/// A position that has no zero byte before it, and either a zero byte at
/// it or nothing, is the one that `nul_position` gives.
pub proof fn lemma_nul_position_unique(bytes: Seq<u8>, n: int)
    requires
        0 <= n <= bytes.len(),
        forall|i: int| 0 <= i < n ==> bytes[i] != 0,
        n < bytes.len() ==> bytes[n] == 0,
    ensures
        nul_position(bytes) == n,
    decreases bytes.len(),
{
    if n > 0 {
        let rest = bytes.drop_first();
        assert forall|i: int| 0 <= i < n - 1 implies rest[i] != 0 by {
            assert(rest[i] == bytes[i + 1]);
        }
        lemma_nul_position_unique(rest, n - 1);
    }
}

/// `nul_position` lies within the buffer, no byte before it is zero, and
/// where it is short of the end the byte at it is zero.
pub proof fn lemma_nul_position(bytes: Seq<u8>)
    ensures
        nul_position(bytes) <= bytes.len(),
        forall|i: int| 0 <= i < nul_position(bytes) ==> bytes[i] != 0,
        nul_position(bytes) < bytes.len() ==> bytes[nul_position(bytes) as int] == 0,
    decreases bytes.len(),
{
    if bytes.len() > 0 && bytes[0] != 0 {
        let rest = bytes.drop_first();
        lemma_nul_position(rest);
        assert forall|i: int| 0 <= i < nul_position(bytes) implies bytes[i] != 0 by {
            if i > 0 {
                assert(rest[i - 1] == bytes[i]);
            }
        }
        if nul_position(bytes) < bytes.len() {
            assert(rest[nul_position(rest) as int] == bytes[nul_position(bytes) as int]);
        }
    }
}

/// Cuts `buffer` off at its first zero byte. A buffer without one is left
/// as it is.
pub fn truncate_at_nul(buffer: &mut Vec<u8>)
    ensures
        final(buffer)@ == c_string(old(buffer)@),
{
    let mut i: usize = 0;
    while i < buffer.len() && buffer[i] != 0
        invariant
            *buffer == *old(buffer),
            i <= buffer.len(),
            forall|j: int| 0 <= j < i ==> buffer[j] != 0,
        decreases buffer.len() - i,
    {
        i += 1;
    }
    proof {
        lemma_nul_position_unique(buffer@, i as int);
    }
    buffer.truncate(i);
}

/// Whether `c` is one of the ten decimal digits.
pub open spec fn is_digit(c: char) -> bool {
    '0' <= c <= '9'
}

/// Whether what stands at `i` in `text` is a digit, or a dot with a digit
/// on either side of it.
pub open spec fn digit_or_enclosed_dot(text: Seq<char>, i: int) -> bool {
    ||| is_digit(text[i])
    ||| {
        &&& text[i] == '.'
        &&& 0 < i < text.len() - 1
        &&& is_digit(text[i - 1])
        &&& is_digit(text[i + 1])
    }
}

/// Whether `text` is made of one or more decimal numerals with a single
/// dot between each two of them, and nothing else.
pub open spec fn dotted_numeric(text: Seq<char>) -> bool {
    &&& text.len() > 0
    &&& forall|i: int| 0 <= i < text.len() ==> #[trigger] digit_or_enclosed_dot(text, i)
}

/// A decimal numeral has at least one character, and all of its characters
/// are digits.
pub proof fn lemma_decimal_digits(n: nat)
    ensures
        decimal(n).len() > 0,
        forall|i: int| 0 <= i < decimal(n).len() ==> is_digit(#[trigger] decimal(n)[i]),
    decreases n,
{
    if n >= 10 {
        lemma_decimal_digits(n / 10);
    }
}

/// Three numerals with a dot after the first and after the second.
pub open spec fn dotted3(a: nat, b: nat, c: nat) -> Seq<char> {
    decimal(a) + seq!['.'] + decimal(b) + seq!['.'] + decimal(c)
}

/// Three numerals joined by dots are dotted numeric text.
pub proof fn lemma_dotted3_numeric(a: nat, b: nat, c: nat)
    ensures
        dotted_numeric(dotted3(a, b, c)),
{
    lemma_decimal_digits(a);
    lemma_decimal_digits(b);
    lemma_decimal_digits(c);
}

/// What `String::from_utf8_lossy` makes of a byte sequence: the text it
/// encodes, with U+FFFD standing in for each stretch that is not UTF-8.
pub uninterp spec fn utf8_lossy(bytes: Seq<u8>) -> Seq<char>;

/// Calls `String::from_utf8_lossy` and takes the text as a `String`.
///
/// Trusted, not proved: the text is `utf8_lossy` of the bytes, and for
/// bytes that are valid UTF-8 it is the text that they encode.
#[verifier::external_body]
pub(crate) fn decode_utf8_lossy(bytes: &Vec<u8>) -> (text: String)
    ensures
        text@ == utf8_lossy(bytes@),
        vstd::utf8::valid_utf8(bytes@) ==> text@ == vstd::utf8::decode_utf8(bytes@),
{
    String::from_utf8_lossy(bytes).into_owned()
}

/// Calls `String::from_utf16`.
///
/// Trusted, not proved: a text comes back exactly when the units are the
/// UTF-16 form of one, and it is that text.
#[verifier::external_body]
pub(crate) fn decode_utf16(units: &Vec<u16>) -> (text: Option<String>)
    ensures
        match text {
            Some(t) => utf16(t@) == units@,
            None => forall|s: Seq<char>| #[trigger] utf16(s) != units@,
        },
{
    String::from_utf16(units).ok()
}

} // verus!
