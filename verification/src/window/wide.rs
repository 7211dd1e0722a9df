//! Windows-compatible wide strings: UTF-16 code units ending in a NUL.

use vstd::prelude::*;

verus! {

/// The UTF-16 code units of one character: the character itself when it fits in 16 bits,
/// otherwise a high and a low surrogate.
pub open spec fn utf16_units(c: char) -> Seq<u16> {
    let v = c as u32;
    if v < 0x10000 {
        seq![v as u16]
    } else {
        seq![(0xD800 + (v - 0x10000) / 0x400) as u16, (0xDC00 + (v - 0x10000) % 0x400) as u16]
    }
}

/// The UTF-16 encoding of a sequence of characters.
pub open spec fn encode_utf16(chars: Seq<char>) -> Seq<u16>
    decreases chars.len(),
{
    if chars.len() == 0 {
        seq![]
    } else {
        utf16_units(chars[0]) + encode_utf16(chars.drop_first())
    }
}

/// The characters that a sequence of UTF-16 code units stands for: a high surrogate
/// followed by a low surrogate makes one character, any other unit stands for itself.
pub open spec fn decode_utf16(units: Seq<u16>) -> Seq<char>
    decreases units.len(),
{
    if units.len() == 0 {
        seq![]
    } else if units.len() >= 2 && 0xD800 <= units[0] < 0xDC00 && 0xDC00 <= units[1] < 0xE000 {
        seq![(0x10000 + (units[0] - 0xD800) * 0x400 + (units[1] - 0xDC00)) as char]
            + decode_utf16(units.skip(2))
    } else {
        seq![units[0] as char] + decode_utf16(units.skip(1))
    }
}

/// The wide string of a text: its UTF-16 encoding followed by a NUL.
pub open spec fn wide_string(chars: Seq<char>) -> Seq<u16> {
    encode_utf16(chars).push(0)
}

/// A character below 0x10000 is one code unit equal to its code; any other is a high
/// surrogate (in `[0xD800, 0xDC00)`) followed by a low surrogate (in `[0xDC00, 0xE000)`), whose
/// ten-bit payloads, high first, give the code minus 0x10000.
pub proof fn lemma_utf16_units(c: char)
    ensures
        (c as u32) < 0x10000 ==> utf16_units(c).len() == 1 && utf16_units(c)[0] as int == c
            as u32 as int,
        (c as u32) >= 0x10000 ==> {
            &&& utf16_units(c).len() == 2
            &&& 0xD800 <= utf16_units(c)[0] < 0xDC00
            &&& 0xDC00 <= utf16_units(c)[1] < 0xE000
            &&& (utf16_units(c)[0] - 0xD800) * 0x400 + (utf16_units(c)[1] - 0xDC00) + 0x10000 == c
                as u32 as int
        },
{
    let v = c as u32;
    if v >= 0x10000 {
        assert(v - 0x10000 < 0x100000);
    }
}

/// The encoding of two sequences joined is the two encodings joined.
pub proof fn lemma_encode_concat(a: Seq<char>, b: Seq<char>)
    ensures
        encode_utf16(a + b) == encode_utf16(a) + encode_utf16(b),
    decreases a.len(),
{
    if a.len() == 0 {
        assert(a + b == b);
    } else {
        assert((a + b).drop_first() == a.drop_first() + b);
        lemma_encode_concat(a.drop_first(), b);
        assert((a + b)[0] == a[0]);
    }
}

/// A character's units decode to that character, whatever follows them.
pub proof fn lemma_decode_units(c: char, rest: Seq<u16>)
    ensures
        decode_utf16(utf16_units(c) + rest) == seq![c] + decode_utf16(rest),
{
    let units = utf16_units(c) + rest;
    let v = c as u32;
    if v < 0x10000 {
        assert(v < 0xD800 || v >= 0xE000);
        assert(units[0] == v as u16);
        assert(units.skip(1) == rest);
        assert((v as u16) as char == c);
    } else {
        let w = v - 0x10000;
        assert(w < 0x100000);
        let high = (0xD800 + w / 0x400) as u16;
        let low = (0xDC00 + w % 0x400) as u16;
        assert(0xD800 <= high < 0xDC00);
        assert(0xDC00 <= low < 0xE000);
        assert(units[0] == high && units[1] == low);
        assert(units.skip(2) == rest);
        assert(0x10000 + (high - 0xD800) * 0x400 + (low - 0xDC00) == v);
    }
}

/// Decoding the encoding of a text gives the text back.
pub proof fn lemma_utf16_round_trip(chars: Seq<char>)
    ensures
        decode_utf16(encode_utf16(chars)) == chars,
    decreases chars.len(),
{
    if chars.len() > 0 {
        lemma_decode_units(chars[0], encode_utf16(chars.drop_first()));
        lemma_utf16_round_trip(chars.drop_first());
        assert(seq![chars[0]] + chars.drop_first() == chars);
    }
}

/// A wide string ends in a NUL, and what comes before it decodes to the
/// text: Windows reads back the text that was given.
pub proof fn lemma_wide_string_reads_back(chars: Seq<char>)
    ensures
        wide_string(chars).last() == 0,
        wide_string(chars).len() == encode_utf16(chars).len() + 1,
        decode_utf16(wide_string(chars).drop_last()) == chars,
{
    assert(wide_string(chars).drop_last() == encode_utf16(chars));
    lemma_utf16_round_trip(chars);
}

/// Helper method to convert str to Windows-compatible UTF16 string: the UTF-16 encoding of
/// `s` followed by a NUL.
pub fn utf16_str(s: &str) -> (wide: Vec<u16>)
    ensures
        wide@ == wide_string(s@),
{
    let mut wide: Vec<u16> = Vec::new();
    for c in it: s.chars()
        invariant
            it.seq() == s@,
            wide@ == encode_utf16(s@.take(it.index() as int)),
    {
        let ghost i = it.index() as int;
        let ghost done = s@.take(i);
        assert(c == s@[i]);
        let ghost before = wide@;
        let v = c as u32;
        if v < 0x10000 {
            wide.push(v as u16);
        } else {
            let w = v - 0x10000;
            wide.push((0xD800 + w / 0x400) as u16);
            wide.push((0xDC00 + w % 0x400) as u16);
        }
        assert(wide@ == before + utf16_units(c));
        proof {
            lemma_encode_concat(done, seq![c]);
            assert(s@.take(i + 1) == done + seq![c]);
            assert(seq![c].drop_first() == Seq::<char>::empty());
            assert(encode_utf16(seq![c]) == utf16_units(c) + encode_utf16(Seq::<char>::empty()));
        }
    }
    assert(s@.take(s@.len() as int) == s@);
    wide.push(0);
    wide
}

} // verus!
