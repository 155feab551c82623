use vstd::prelude::*;

use crate::error::Error;

verus! {

/// The UTF-16 code units of one character: one unit below `0x10000`,
/// else a high and a low surrogate.
pub open spec fn char_units(c: char) -> Seq<u16> {
    let v = c as u32;
    if v < 0x10000 {
        seq![v as u16]
    } else {
        let w = (v - 0x10000) as u32;
        seq![(0xD800 + w / 0x400) as u16, (0xDC00 + w % 0x400) as u16]
    }
}

/// The UTF-16 code units of a text, in order.
pub open spec fn utf16_units(s: Seq<char>) -> Seq<u16>
    decreases s.len(),
{
    if s.len() == 0 {
        seq![]
    } else {
        char_units(s[0]) + utf16_units(s.drop_first())
    }
}

/// Each code unit as two bytes, low byte first.
pub open spec fn units_le_bytes(us: Seq<u16>) -> Seq<u8> {
    Seq::new(
        2 * us.len(),
        |i: int|
            if i % 2 == 0 {
                (us[i / 2] % 256) as u8
            } else {
                (us[i / 2] / 256) as u8
            },
    )
}

/// Bytes regrouped into little-endian code units (a trailing odd byte is dropped).
pub open spec fn le_bytes_units(b: Seq<u8>) -> Seq<u16> {
    Seq::new(b.len() / 2, |i: int| (b[2 * i] + 256 * b[2 * i + 1]) as u16)
}

/// The UTF-16LE encoding of a text: no byte-order mark, no terminator.
pub open spec fn utf16le(s: Seq<char>) -> Seq<u8> {
    units_le_bytes(utf16_units(s))
}

/// The bytes are the UTF-16LE encoding of some text.
pub open spec fn is_utf16le(b: Seq<u8>) -> bool {
    exists|t: Seq<char>| utf16le(t) == b
}

/// Relies on `str::encode_utf16`: the code units of the text, in order.
#[verifier::external_body]
fn encode_units(s: &str) -> (r: Vec<u16>)
    ensures
        r@ == utf16_units(s@),
{
    s.encode_utf16().collect()
}

/// Relies on `String::from_utf16`: the text whose code units these are, or
/// nothing when they are not valid UTF-16.
#[verifier::external_body]
fn decode_units(v: &[u16]) -> (r: Option<String>)
    ensures
        match r {
            Some(t) => utf16_units(t@) == v@,
            None => forall|t: Seq<char>| utf16_units(t) != v@,
        },
{
    String::from_utf16(v).ok()
}

proof fn lemma_units_bytes_inverse(us: Seq<u16>)
    ensures
        le_bytes_units(units_le_bytes(us)) == us,
{
    let b = units_le_bytes(us);
    assert forall|i: int| 0 <= i < us.len() implies #[trigger] le_bytes_units(b)[i] == us[i] by {
        assert((2 * i) % 2 == 0);
        assert((2 * i + 1) % 2 == 1);
        assert((2 * i) / 2 == i);
        assert((2 * i + 1) / 2 == i);
    }
    assert(le_bytes_units(b) =~= us);
}

proof fn lemma_bytes_units_inverse(b: Seq<u8>)
    requires
        b.len() % 2 == 0,
    ensures
        units_le_bytes(le_bytes_units(b)) == b,
{
    let us = le_bytes_units(b);
    assert forall|i: int| 0 <= i < b.len() implies #[trigger] units_le_bytes(us)[i] == b[i] by {
        let k = i / 2;
        assert(0 <= k < us.len());
        if i % 2 == 0 {
            assert(i == 2 * k);
        } else {
            assert(i == 2 * k + 1);
        }
    }
    assert(units_le_bytes(us) =~= b);
}

proof fn lemma_char_units_first(c: char)
    ensures
        char_units(c).len() == 1 <==> !(0xD800 <= char_units(c)[0] <= 0xDBFF),
        char_units(c).len() == 1 || char_units(c).len() == 2,
{
}

proof fn lemma_char_units_injective(c: char, d: char)
    requires
        char_units(c) == char_units(d),
    ensures
        c == d,
{
    let v = c as u32;
    let w = d as u32;
    if v >= 0x10000 {
        assert(w >= 0x10000) by {
            assert(char_units(c).len() == 2);
        }
        let x = (v - 0x10000) as u32;
        let y = (w - 0x10000) as u32;
        assert(x <= 0xFFFFF && y <= 0xFFFFF);
        assert(x / 0x400 <= 0x3FF && y / 0x400 <= 0x3FF);
        assert(char_units(c)[0] == char_units(d)[0]);
        assert(char_units(c)[1] == char_units(d)[1]);
        assert(x / 0x400 == y / 0x400);
        assert(x % 0x400 == y % 0x400);
        assert(x == 0x400 * (x / 0x400) + x % 0x400) by (nonlinear_arith);
        assert(y == 0x400 * (y / 0x400) + y % 0x400) by (nonlinear_arith);
        assert(v == w);
    } else {
        assert(w < 0x10000) by {
            assert(char_units(c).len() == 1);
        }
        assert(char_units(c)[0] == v as u16);
        assert(char_units(d)[0] == w as u16);
        assert(char_units(c)[0] == char_units(d)[0]);
        assert(v == w);
    }
}

proof fn lemma_utf16_units_injective(s: Seq<char>, t: Seq<char>)
    requires
        utf16_units(s) == utf16_units(t),
    ensures
        s == t,
    decreases s.len(),
{
    if s.len() == 0 {
        if t.len() > 0 {
            lemma_char_units_first(t[0]);
        }
        assert(s =~= t);
    } else {
        lemma_char_units_first(s[0]);
        if t.len() == 0 {
            assert(utf16_units(s).len() > 0);
        }
        lemma_char_units_first(t[0]);
        let a = char_units(s[0]);
        let b = char_units(t[0]);
        let all = utf16_units(s);
        assert(all[0] == a[0]);
        assert(all[0] == b[0]);
        assert(a.len() == b.len());
        assert(a =~= all.subrange(0, a.len() as int));
        assert(b =~= all.subrange(0, a.len() as int));
        lemma_char_units_injective(s[0], t[0]);
        assert(utf16_units(s.drop_first()) =~= all.subrange(a.len() as int, all.len() as int));
        assert(utf16_units(t.drop_first()) =~= all.subrange(a.len() as int, all.len() as int));
        lemma_utf16_units_injective(s.drop_first(), t.drop_first());
        assert(s =~= seq![s[0]] + s.drop_first());
        assert(t =~= seq![t[0]] + t.drop_first());
    }
}

/// Decoding the UTF-16LE encoding of a text gives back that text: the
/// encoding is valid, and no other text has the same encoding.
pub proof fn lemma_utf16_round_trip(s: Seq<char>)
    ensures
        is_utf16le(utf16le(s)),
        forall|t: Seq<char>| #[trigger] utf16le(t) == utf16le(s) ==> t == s,
{
    assert forall|t: Seq<char>| #[trigger] utf16le(t) == utf16le(s) implies t == s by {
        lemma_units_bytes_inverse(utf16_units(t));
        lemma_units_bytes_inverse(utf16_units(s));
        lemma_utf16_units_injective(t, s);
    }
}

/// The UTF-16LE encoding of `s`.
pub fn to_utf16_bytes(s: &str) -> (r: Vec<u8>)
    ensures
        r@ == utf16le(s@),
{
    let units = encode_units(s);
    let mut out: Vec<u8> = Vec::new();
    let mut i: usize = 0;
    while i < units.len()
        invariant
            i <= units@.len(),
            out@ =~= units_le_bytes(units@.subrange(0, i as int)),
        decreases units@.len() - i,
    {
        let u = units[i];
        out.push((u % 256) as u8);
        out.push((u / 256) as u8);
        i = i + 1;
        assert(out@ =~= units_le_bytes(units@.subrange(0, i as int)));
    }
    assert(units@.subrange(0, i as int) =~= units@);
    out
}

/// Decodes `bytes[start..end]` as UTF-16LE text.
pub(crate) fn from_utf16_range(bytes: &[u8], start: usize, end: usize) -> (r: Result<String, Error>)
    requires
        start <= end <= bytes@.len(),
    ensures
        match r {
            Ok(t) => utf16le(t@) == bytes@.subrange(start as int, end as int),
            Err(e) => e == Error::Utf16 && !is_utf16le(bytes@.subrange(start as int, end as int)),
        },
{
    let ghost b = bytes@.subrange(start as int, end as int);
    if (end - start) % 2 != 0 {
        assert forall|t: Seq<char>| utf16le(t) != b by {
            assert(utf16le(t).len() % 2 == 0);
        }
        return Err(Error::Utf16);
    }
    let mut units: Vec<u16> = Vec::new();
    let mut i: usize = start;
    while i < end
        invariant
            start <= i <= end <= bytes@.len(),
            (i - start) % 2 == 0,
            (end - start) % 2 == 0,
            units@ =~= le_bytes_units(bytes@.subrange(start as int, i as int)),
        decreases end - i,
    {
        let lo = bytes[i] as u16;
        let hi = bytes[i + 1] as u16;
        units.push(lo + 256 * hi);
        i = i + 2;
        assert(units@ =~= le_bytes_units(bytes@.subrange(start as int, i as int)));
    }
    assert(units@ =~= le_bytes_units(b));
    proof {
        lemma_bytes_units_inverse(b);
    }
    match decode_units(units.as_slice()) {
        Some(t) => Ok(t),
        None => {
            assert forall|t: Seq<char>| utf16le(t) != b by {
                if utf16le(t) == b {
                    lemma_units_bytes_inverse(utf16_units(t));
                }
            }
            Err(Error::Utf16)
        },
    }
}

/// The text whose UTF-16LE encoding is `bytes`; fails with `Error::Utf16` on
/// an odd length or an invalid code-unit sequence.
pub fn from_utf16_bytes(bytes: &[u8]) -> (r: Result<String, Error>)
    ensures
        match r {
            Ok(t) => utf16le(t@) == bytes@,
            Err(e) => e == Error::Utf16 && !is_utf16le(bytes@),
        },
{
    assert(bytes@.subrange(0, bytes@.len() as int) =~= bytes@);
    from_utf16_range(bytes, 0, bytes.len())
}

} // verus!
