//! UTF-16 as the host writes it: sequences of 16-bit code units with an
//! explicit length, converted to and from sequences of Unicode scalar values.

use crate::buffer::{buffered, WideBuf};
use vstd::prelude::*;

verus! {

/// A code unit in the surrogate range, which never stands for a scalar value by itself.
pub open spec fn is_surrogate(unit: u16) -> bool {
    0xD800 <= unit <= 0xDFFF
}

/// A code unit that opens a surrogate pair.
pub open spec fn is_high_surrogate(unit: u16) -> bool {
    0xD800 <= unit <= 0xDBFF
}

/// A code unit that closes a surrogate pair.
pub open spec fn is_low_surrogate(unit: u16) -> bool {
    0xDC00 <= unit <= 0xDFFF
}

/// A number that names a Unicode scalar value: at most `0x10FFFF` and no
/// surrogate.
pub open spec fn is_scalar(v: u32) -> bool {
    v < 0xD800 || 0xE000 <= v <= 0x10FFFF
}

/// The code units that stand for one scalar value: the value itself below
/// `0x10000`, a surrogate pair above.
pub open spec fn encode_scalar(c: char) -> Seq<u16> {
    let v = c as u32;
    if v < 0x10000 {
        seq![v as u16]
    } else {
        seq![
            (0xD800 + (v - 0x10000) / 0x400) as u16,
            (0xDC00 + (v - 0x10000) % 0x400) as u16,
        ]
    }
}

/// The UTF-16 encoding of a text.
pub open spec fn encode(chars: Seq<char>) -> Seq<u16>
    decreases chars.len(),
{
    if chars.len() == 0 {
        Seq::empty()
    } else {
        encode_scalar(chars[0]) + encode(chars.drop_first())
    }
}

/// A text as the host holds a name: its UTF-16 encoding, closed by a zero
/// unit.
pub open spec fn terminated(text: Seq<char>) -> Seq<u16> {
    encode(text).push(0)
}

/// The scalar value that a surrogate pair stands for.
pub open spec fn pair_scalar(high: u16, low: u16) -> u32 {
    (0x10000 + (high - 0xD800) * 0x400 + (low - 0xDC00)) as u32
}

/// Strict decoding: the text that a sequence of code units stands for, or
/// `None` where a surrogate stands outside a well-formed pair.
pub open spec fn decode(units: Seq<u16>) -> Option<Seq<char>>
    decreases units.len(),
{
    if units.len() == 0 {
        Some(Seq::empty())
    } else if !is_surrogate(units[0]) {
        match decode(units.drop_first()) {
            Some(rest) => Some(seq![units[0] as u32 as char] + rest),
            None => None,
        }
    } else if is_high_surrogate(units[0]) && units.len() >= 2 && is_low_surrogate(units[1]) {
        match decode(units.skip(2)) {
            Some(rest) => Some(seq![pair_scalar(units[0], units[1]) as char] + rest),
            None => None,
        }
    } else {
        None
    }
}

/// Every surrogate in `units` is half of a well-formed pair.
pub open spec fn well_formed(units: Seq<u16>) -> bool {
    decode(units) is Some
}

/// A `char` is a scalar value, and the number of a scalar value names it.
pub proof fn lemma_char_range(c: char)
    ensures
        is_scalar(c as u32),
        c as u32 as char == c,
{
}

/// Text survives the trip through UTF-16: decoding an encoding gives the
/// text back.
pub proof fn lemma_decode_encode(chars: Seq<char>)
    ensures
        decode(encode(chars)) == Some(chars),
    decreases chars.len(),
{
    if chars.len() > 0 {
        let units = encode(chars);
        let rest = chars.drop_first();
        lemma_decode_encode(rest);
        lemma_char_range(chars[0]);
        if (chars[0] as u32) < 0x10000 {
            assert(units.drop_first() == encode(rest));
            assert(units[0] as u32 == chars[0] as u32);
        } else {
            assert(units.skip(2) == encode(rest));
            assert(pair_scalar(units[0], units[1]) == chars[0] as u32);
        }
        assert(seq![chars[0]] + rest == chars);
    }
}

/// Well-formed UTF-16 survives the trip through text: encoding what it
/// decodes to gives the same code units back.
pub proof fn lemma_encode_decode(units: Seq<u16>)
    requires
        well_formed(units),
    ensures
        encode(decode(units).unwrap()) == units,
    decreases units.len(),
{
    if units.len() > 0 {
        let chars = decode(units).unwrap();
        if !is_surrogate(units[0]) {
            let tail = units.drop_first();
            lemma_encode_decode(tail);
            assert(chars.drop_first() == decode(tail).unwrap());
            assert(encode_scalar(chars[0]) == seq![units[0]]);
            assert(seq![units[0]] + tail == units);
        } else {
            let tail = units.skip(2);
            lemma_encode_decode(tail);
            assert(chars.drop_first() == decode(tail).unwrap());
            assert(encode_scalar(chars[0]) == seq![units[0], units[1]]);
            assert(seq![units[0], units[1]] + tail == units);
        }
    }
}

/// The encoding of two texts, one after the other, is their encodings one
/// after the other.
pub proof fn lemma_encode_concat(a: Seq<char>, b: Seq<char>)
    ensures
        encode(a + b) == encode(a) + encode(b),
    decreases a.len(),
{
    if a.len() == 0 {
        assert(a + b == b);
    } else {
        lemma_encode_concat(a.drop_first(), b);
        assert((a + b).drop_first() == a.drop_first() + b);
    }
}

/// An encoding has at least one code unit for each scalar value, and at
/// most two.
pub proof fn lemma_encode_len(chars: Seq<char>)
    ensures
        chars.len() <= encode(chars).len() <= 2 * chars.len(),
    decreases chars.len(),
{
    if chars.len() > 0 {
        lemma_encode_len(chars.drop_first());
    }
}

/// Encodes one scalar value: its first code unit and, for a value outside
/// the basic plane, the low surrogate that follows.
pub fn encode_char(c: char) -> (units: (u16, Option<u16>))
    ensures
        units.1 is None ==> encode_scalar(c) == seq![units.0],
        units.1 matches Some(low) ==> encode_scalar(c) == seq![units.0, low],
        units.1 is None <==> (c as u32) < 0x10000,
{
    let v: u32 = c as u32;
    if v < 0x10000 {
        (v as u16, None)
    } else {
        let off: u32 = v - 0x10000;
        ((0xD800 + off / 0x400) as u16, Some((0xDC00 + off % 0x400) as u16))
    }
}

/// Appends the UTF-16 encoding of `text` to `out`.
pub fn encode_into(text: &str, out: &mut Vec<u16>)
    ensures
        final(out)@ == old(out)@ + encode(text@),
{
    let ghost start = out@;
    assert(text@.skip(0) == text@);
    for c in it: text.chars()
        invariant
            it.seq() == text@,
            start + encode(text@) == out@ + encode(text@.skip(it.index())),
    {
        proof {
            let rest = text@.skip(it.index());
            assert(rest[0] == c);
            assert(rest.drop_first() == text@.skip(it.index() + 1));
        }
        let units = encode_char(c);
        out.push(units.0);
        if let Some(low) = units.1 {
            out.push(low);
        }
    }
    assert(text@.skip(text@.len() as int) == Seq::<char>::empty());
}

/// Appends `units` to `out`, as they are.
pub fn append_units(out: &mut Vec<u16>, units: &[u16])
    ensures
        final(out)@ == old(out)@ + units@,
{
    let ghost start = out@;
    let mut i: usize = 0;
    assert(units@.take(0) == Seq::<u16>::empty());
    assert(start + Seq::<u16>::empty() == start);
    while i < units.len()
        invariant
            i <= units.len(),
            out@ == start + units@.take(i as int),
        decreases units.len() - i,
    {
        out.push(units[i]);
        assert(units@.take(i + 1) == units@.take(i as int).push(units@[i as int]));
        assert(out@ == start + units@.take(i + 1));
        i += 1;
    }
    assert(units@.take(units.len() as int) == units@);
}

/// The UTF-16 encoding of `text`.
pub fn encode_text(text: &str) -> (units: Vec<u16>)
    ensures
        units@ == encode(text@),
{
    let mut units: Vec<u16> = Vec::new();
    encode_into(text, &mut units);
    assert(Seq::<u16>::empty() + encode(text@) == encode(text@));
    units
}

/// A name as the host takes it: the UTF-16 encoding of `text`, closed by a
/// zero unit.
pub fn encode_name(text: &str) -> (units: Vec<u16>)
    ensures
        units@ == terminated(text@),
{
    let mut units = encode_text(text);
    units.push(0);
    units
}

/// The UTF-16 encoding of `text` in a short-string buffer.
pub(crate) fn encode_short(text: &str) -> (buf: WideBuf)
    ensures
        buffered(buf) == encode(text@),
{
    let mut buf = WideBuf::new();
    assert(text@.skip(0) == text@);
    for c in it: text.chars()
        invariant
            it.seq() == text@,
            encode(text@) == buffered(buf) + encode(text@.skip(it.index())),
    {
        proof {
            let rest = text@.skip(it.index());
            assert(rest[0] == c);
            assert(rest.drop_first() == text@.skip(it.index() + 1));
        }
        let units = encode_char(c);
        buf.push(units.0);
        if let Some(low) = units.1 {
            buf.push(low);
        }
    }
    assert(text@.skip(text@.len() as int) == Seq::<char>::empty());
    buf
}

/// `char::from_u32`: the scalar value with the number `v`, or `None` where
/// `v` names none.
#[verifier::external_body]
fn char_from_u32(v: u32) -> (c: Option<char>)
    ensures
        is_scalar(v) ==> c == Some(v as char),
        !is_scalar(v) ==> c is None,
{
    char::from_u32(v)
}

/// `String::push`: the text afterwards is what it was, then `c`.
#[verifier::external_body]
fn push_char(text: &mut String, c: char)
    ensures
        final(text)@ == old(text)@.push(c),
{
    text.push(c)
}

/// Strict decoding of host text: the text that `units` stand for, or `None`
/// where a surrogate stands outside a well-formed pair.
pub fn decode_units(units: &[u16]) -> (text: Option<String>)
    ensures
        match text {
            Some(s) => decode(units@) == Some(s@),
            None => decode(units@) is None,
        },
{
    let mut out = String::new();
    let mut i: usize = 0;
    assert(units@.skip(0) == units@);
    while i < units.len()
        invariant
            i <= units.len(),
            decode(units@) == match decode(units@.skip(i as int)) {
                Some(rest) => Some(out@ + rest),
                None => None,
            },
        decreases units.len() - i,
    {
        let ghost rest = units@.skip(i as int);
        let ghost before = out@;
        let unit: u16 = units[i];
        assert(rest[0] == unit);
        let v: u32 = if unit < 0xD800 || unit > 0xDFFF {
            assert(rest.drop_first() == units@.skip(i + 1));
            i += 1;
            unit as u32
        } else if unit <= 0xDBFF && i + 1 < units.len() && 0xDC00 <= units[i + 1] && units[i + 1]
            <= 0xDFFF {
            let low: u16 = units[i + 1];
            assert(rest[1] == low);
            assert(rest.skip(2) == units@.skip(i + 2));
            i += 2;
            0x10000 + (unit - 0xD800) as u32 * 0x400 + (low - 0xDC00) as u32
        } else {
            return None;
        };
        match char_from_u32(v) {
            Some(c) => {
                push_char(&mut out, c);
                assert forall|tail: Seq<char>| before + (seq![c] + tail) == out@ + tail by {
                    assert(before + (seq![c] + tail) =~= out@ + tail);
                }
            },
            None => {
                return None;
            },
        }
    }
    assert(units@.skip(units@.len() as int) == Seq::<u16>::empty());
    assert(out@ + Seq::<char>::empty() == out@);
    Some(out)
}

} // verus!
