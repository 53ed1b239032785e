//! UTF-16 as a mathematical encoding of character sequences, and the std calls
//! that encode and decode it.
use vstd::prelude::*;

verus! {

/// The code units that encode one character: one unit for the basic plane,
/// a high and a low surrogate for the supplementary planes.
pub open spec fn char_units(c: char) -> Seq<u16> {
    let v = c as u32 as int;
    if v < 0x10000 {
        seq![v as u16]
    } else {
        let w = v - 0x10000;
        seq![(0xD800 + w / 0x400) as u16, (0xDC00 + w % 0x400) as u16]
    }
}

/// The UTF-16 encoding of a character sequence.
pub open spec fn utf16_of(cs: Seq<char>) -> Seq<u16>
    decreases cs.len(),
{
    if cs.len() == 0 {
        Seq::empty()
    } else {
        utf16_of(cs.drop_last()) + char_units(cs.last())
    }
}

/// A unit sequence is valid UTF-16 when it encodes some character sequence.
pub open spec fn utf16_valid(ws: Seq<u16>) -> bool {
    exists|cs: Seq<char>| utf16_of(cs) == ws
}

/// The characters that a valid unit sequence encodes (unique, see
/// `lemma_utf16_injective`).
pub open spec fn utf16_text(ws: Seq<u16>) -> Seq<char> {
    choose|cs: Seq<char>| utf16_of(cs) == ws
}

pub open spec fn is_high_surrogate(u: u16) -> bool {
    0xD800 <= u && u <= 0xDBFF
}

pub open spec fn is_low_surrogate(u: u16) -> bool {
    0xDC00 <= u && u <= 0xDFFF
}

/// A character's units end in a low surrogate exactly when there are two of
/// them, and then the first is a high surrogate.
proof fn lemma_char_units_shape(c: char)
    ensures
        char_units(c).len() == 1 <==> !is_low_surrogate(char_units(c).last()),
        char_units(c).len() == 1 ==> !is_high_surrogate(char_units(c)[0]),
        char_units(c).len() == 1 || char_units(c).len() == 2,
        char_units(c).len() == 2 ==> is_high_surrogate(char_units(c)[0]),
{
    let v = c as u32 as int;
    if v >= 0x10000 {
        let w = v - 0x10000;
        assert(w < 0x100000);
        assert(w / 0x400 < 0x400);
        assert(w % 0x400 < 0x400);
    }
}

proof fn lemma_char_units_injective(c: char, d: char)
    requires
        char_units(c) == char_units(d),
    ensures
        c == d,
{
    let v = c as u32 as int;
    let u = d as u32 as int;
    if v >= 0x10000 && u >= 0x10000 {
        let w = v - 0x10000;
        let x = u - 0x10000;
        assert(w / 0x400 < 0x400);
        assert(x / 0x400 < 0x400);
        assert(char_units(c)[0] == char_units(d)[0]);
        assert(char_units(c)[1] == char_units(d)[1]);
        assert(w / 0x400 == x / 0x400);
        assert(w % 0x400 == x % 0x400);
        assert(w == 0x400 * (w / 0x400) + w % 0x400);
        assert(x == 0x400 * (x / 0x400) + x % 0x400);
        assert(c as u32 == d as u32);
    } else if v < 0x10000 && u < 0x10000 {
        assert(char_units(c) == seq![v as u16]);
        assert(char_units(d) == seq![u as u16]);
        assert(seq![v as u16][0] == seq![u as u16][0]);
        assert(v as u16 == u as u16);
        assert(v == u);
        assert(c as u32 == d as u32);
    } else {
        assert(char_units(c).len() == char_units(d).len());
    }
}

/// Distinct character sequences have distinct encodings.
pub proof fn lemma_utf16_injective(a: Seq<char>, b: Seq<char>)
    requires
        utf16_of(a) == utf16_of(b),
    ensures
        a == b,
    decreases a.len(),
{
    if a.len() == 0 || b.len() == 0 {
        if a.len() > 0 {
            lemma_char_units_shape(a.last());
            assert(utf16_of(a).len() > 0);
        }
        if b.len() > 0 {
            lemma_char_units_shape(b.last());
            assert(utf16_of(b).len() > 0);
        }
        assert(a =~= b);
    } else {
        let (ca, cb) = (a.last(), b.last());
        let (ua, ub) = (char_units(ca), char_units(cb));
        let (pa, pb) = (utf16_of(a.drop_last()), utf16_of(b.drop_last()));
        lemma_char_units_shape(ca);
        lemma_char_units_shape(cb);
        let w = utf16_of(a);
        assert(w == pa + ua);
        assert(w == pb + ub);
        assert(w.last() == ua.last());
        assert(w.last() == ub.last());
        if ua.len() == 2 {
            assert(w[w.len() - 2] == ua[0]);
        }
        if ub.len() == 2 {
            assert(w[w.len() - 2] == ub[0]);
        }
        assert(ua.len() == ub.len());
        assert(ua =~= w.subrange(w.len() - ua.len(), w.len() as int));
        assert(ub =~= w.subrange(w.len() - ub.len(), w.len() as int));
        lemma_char_units_injective(ca, cb);
        assert(pa =~= w.subrange(0, w.len() - ua.len()));
        assert(pb =~= w.subrange(0, w.len() - ub.len()));
        lemma_utf16_injective(a.drop_last(), b.drop_last());
        assert(a =~= a.drop_last().push(ca));
        assert(b =~= b.drop_last().push(cb));
    }
}

/// The text that a valid encoding decodes to is the one it encodes.
pub proof fn lemma_utf16_text_of(cs: Seq<char>)
    ensures
        utf16_valid(utf16_of(cs)),
        utf16_text(utf16_of(cs)) == cs,
{
    let ws = utf16_of(cs);
    assert(utf16_of(cs) == ws);
    let t = utf16_text(ws);
    lemma_utf16_injective(t, cs);
}

/// Every high surrogate is followed by a low one, and every low surrogate
/// follows a high one.
pub open spec fn surrogates_paired(ws: Seq<u16>) -> bool {
    forall|i: int|
        0 <= i < ws.len() ==> (is_high_surrogate(#[trigger] ws[i]) ==> i + 1 < ws.len()
            && is_low_surrogate(ws[i + 1])) && (is_low_surrogate(ws[i]) ==> i > 0
            && is_high_surrogate(ws[i - 1]))
}

/// An encoding never holds an unpaired surrogate.
pub proof fn lemma_utf16_paired(cs: Seq<char>)
    ensures
        surrogates_paired(utf16_of(cs)),
    decreases cs.len(),
{
    if cs.len() > 0 {
        let p = utf16_of(cs.drop_last());
        let u = char_units(cs.last());
        let ws = utf16_of(cs);
        lemma_utf16_paired(cs.drop_last());
        lemma_char_units_shape(cs.last());
        assert(ws == p + u);
        assert forall|i: int| 0 <= i < ws.len() implies (is_high_surrogate(#[trigger] ws[i]) ==> i
            + 1 < ws.len() && is_low_surrogate(ws[i + 1])) && (is_low_surrogate(ws[i]) ==> i > 0
            && is_high_surrogate(ws[i - 1])) by {
            if i < p.len() {
                assert(ws[i] == p[i]);
                if i + 1 < p.len() {
                    assert(ws[i + 1] == p[i + 1]);
                }
                if i > 0 {
                    assert(ws[i - 1] == p[i - 1]);
                }
            } else {
                let j = i - p.len();
                assert(ws[i] == u[j]);
                if u.len() == 2 {
                    assert(ws[p.len() as int] == u[0]);
                    assert(ws[p.len() as int + 1] == u[1]);
                }
            }
        }
    }
}

/// Relies on str::encode_utf16: the UTF-16 code units of the text, in order.
#[verifier::external_body]
pub(crate) fn encode_utf16(s: &str) -> (r: Vec<u16>)
    ensures
        r@ == utf16_of(s@),
{
    s.encode_utf16().collect()
}

/// Relies on String::from_utf16: the text that the units encode, or nothing
/// where they hold an unpaired surrogate.
#[verifier::external_body]
pub(crate) fn decode_utf16(ws: &[u16]) -> (r: Option<String>)
    ensures
        match r {
            Some(t) => utf16_of(t@) == ws@,
            None => !utf16_valid(ws@),
        },
{
    String::from_utf16(ws).ok()
}

/// Relies on String::pop: the last character is removed and returned.
#[verifier::external_body]
pub(crate) fn pop_char(s: &mut String) -> (r: Option<char>)
    ensures
        old(s)@.len() == 0 ==> r is None && final(s)@ == old(s)@,
        old(s)@.len() > 0 ==> r == Some(old(s)@.last()) && final(s)@ == old(s)@.drop_last(),
{
    s.pop()
}

/// Every occurrence of `from` replaced by `to`.
pub open spec fn replaced(cs: Seq<char>, from: char, to: char) -> Seq<char> {
    cs.map_values(|c: char| if c == from { to } else { c })
}

/// Relies on str::replace with a character pattern and a one-character
/// replacement: each occurrence of the character is replaced.
#[verifier::external_body]
pub(crate) fn replace_char(s: &str, from: char, to: &str) -> (r: String)
    requires
        to@.len() == 1,
    ensures
        r@ == replaced(s@, from, to@[0]),
{
    s.replace(from, to)
}

} // verus!
