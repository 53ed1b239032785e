//! The tagged raw value and the conversions between it and host values.
use vstd::prelude::*;

use crate::utf16::{
    decode_utf16, encode_utf16, lemma_utf16_text_of, pop_char, replace_char, replaced, utf16_of,
    utf16_text, utf16_valid,
};

verus! {

pub const REG_NONE: u32 = 0;
pub const REG_SZ: u32 = 1;
pub const REG_EXPAND_SZ: u32 = 2;
pub const REG_BINARY: u32 = 3;
pub const REG_DWORD: u32 = 4;
pub const REG_DWORD_LITTLE_ENDIAN: u32 = 4;
pub const REG_DWORD_BIG_ENDIAN: u32 = 5;
pub const REG_LINK: u32 = 6;
pub const REG_MULTI_SZ: u32 = 7;
pub const REG_RESOURCE_LIST: u32 = 8;
pub const REG_FULL_RESOURCE_DESCRIPTOR: u32 = 9;
pub const REG_RESOURCE_REQUIREMENTS_LIST: u32 = 10;
pub const REG_QWORD: u32 = 11;
pub const REG_QWORD_LITTLE_ENDIAN: u32 = 11;

/// Why a raw value could not be read as the requested host type.
#[derive(Clone, Copy, Debug, PartialEq, Eq, Structural)]
pub enum RegError {
    /// The value's tag is not one that the requested type accepts.
    UnsupportedType,
    /// The tag was accepted but the words are not valid data for it.
    InvalidEncoding,
}

pub type RegResult<T> = Result<T, RegError>;

/// A registry value as the store hands it over: a word buffer and the tag
/// that says how to read it.
#[derive(Clone, Debug)]
pub struct RegValue {
    pub bytes: Vec<u16>,
    pub vtype: u32,
}

/// A type that can be loaded from registry values.
pub trait FromReg: Sized + View {
    /// Whether the words are long enough for what the tag asks of this type.
    spec fn well_formed(words: Seq<u16>, kind: u32) -> bool;

    /// The host value (as its view) that words tagged `kind` stand for, or
    /// the error that reading them as this type gives.
    spec fn decoded(words: Seq<u16>, kind: u32) -> Result<Self::V, RegError>;

    fn convert_from_bytes(val: &RegValue) -> (r: RegResult<Self>)
        requires
            Self::well_formed(val.bytes@, val.vtype),
        ensures
            match r {
                Ok(v) => Self::decoded(val.bytes@, val.vtype) == Ok::<Self::V, RegError>(v@),
                Err(e) => Self::decoded(val.bytes@, val.vtype) == Err::<Self::V, RegError>(e),
            },
    ;
}

/// A type that can be written into registry values.
pub trait ToReg: View {
    /// The words that stand for the value.
    spec fn encoded_words(v: Self::V) -> Seq<u16>;

    /// The tag that the value is written with.
    spec fn encoded_kind(v: Self::V) -> u32;

    fn convert_to_bytes(&self) -> (r: RegValue)
        ensures
            r.bytes@ == Self::encoded_words(self@),
            r.vtype == Self::encoded_kind(self@),
    ;
}

/// The 32-bit value held by two words, low word first.
pub open spec fn dword_of(words: Seq<u16>) -> u32 {
    (words[1] as int * 0x10000 + words[0] as int) as u32
}

/// The 64-bit value held by four words, least significant first.
pub open spec fn qword_of(words: Seq<u16>) -> u64 {
    (words[3] as int * 0x1_0000_0000_0000 + words[2] as int * 0x1_0000_0000 + words[1] as int
        * 0x10000 + words[0] as int) as u64
}

/// The two words of a 32-bit value, low word first.
pub open spec fn dword_words(v: u32) -> Seq<u16> {
    seq![(v % 0x10000) as u16, (v / 0x10000) as u16]
}

/// The four words of a 64-bit value, least significant first.
pub open spec fn qword_words(v: u64) -> Seq<u16> {
    seq![
        (v % 0x10000) as u16,
        (v / 0x10000 % 0x10000) as u16,
        (v / 0x1_0000_0000 % 0x10000) as u16,
        (v / 0x1_0000_0000_0000) as u16,
    ]
}

/// Whether a tag marks text: plain, expandable or a list of strings.
pub open spec fn is_text_kind(kind: u32) -> bool {
    kind == REG_SZ || kind == REG_EXPAND_SZ || kind == REG_MULTI_SZ
}

/// The characters without their final one, the terminator that the store
/// keeps after the text.
pub open spec fn without_terminator(cs: Seq<char>) -> Seq<char> {
    if cs.len() == 0 {
        cs
    } else {
        cs.drop_last()
    }
}

/// Text read from words tagged `kind`: in a list of strings, every NUL left
/// once the terminator is gone becomes a newline.
pub open spec fn text_of(words: Seq<u16>, kind: u32) -> Seq<char> {
    let t = without_terminator(utf16_text(words));
    if kind == REG_MULTI_SZ {
        replaced(t, '\0', '\n')
    } else {
        t
    }
}

/// What reading words tagged `kind` as text gives.
pub open spec fn text_decoded(words: Seq<u16>, kind: u32) -> Result<Seq<char>, RegError> {
    if !is_text_kind(kind) {
        Err(RegError::UnsupportedType)
    } else if !utf16_valid(words) {
        Err(RegError::InvalidEncoding)
    } else {
        Ok(text_of(words, kind))
    }
}

/// What reading words tagged `kind` as a 32-bit value gives.
pub open spec fn dword_decoded(words: Seq<u16>, kind: u32) -> Result<u32, RegError> {
    if kind == REG_DWORD {
        Ok(dword_of(words))
    } else {
        Err(RegError::UnsupportedType)
    }
}

/// What reading words tagged `kind` as a 64-bit value gives.
pub open spec fn qword_decoded(words: Seq<u16>, kind: u32) -> Result<u64, RegError> {
    if kind == REG_QWORD {
        Ok(qword_of(words))
    } else {
        Err(RegError::UnsupportedType)
    }
}

/// Reads a text, expandable text or list-of-strings value: the final
/// terminator is dropped, and a list's inner separators become newlines.
pub fn decode_text(val: &RegValue) -> (r: RegResult<String>)
    ensures
        match r {
            Ok(s) => text_decoded(val.bytes@, val.vtype) == Ok::<Seq<char>, RegError>(s@),
            Err(e) => text_decoded(val.bytes@, val.vtype) == Err::<Seq<char>, RegError>(e),
        },
{
    if val.vtype == REG_SZ || val.vtype == REG_EXPAND_SZ || val.vtype == REG_MULTI_SZ {
        match decode_utf16(val.bytes.as_slice()) {
            Some(mut s) => {
                proof {
                    lemma_utf16_text_of(s@);
                }
                let _ = pop_char(&mut s);
                if val.vtype == REG_MULTI_SZ {
                    let newline: &str = "\n";
                    proof {
                        reveal_strlit("\n");
                    }
                    return Ok(replace_char(s.as_str(), '\0', newline));
                }
                Ok(s)
            },
            None => Err(RegError::InvalidEncoding),
        }
    } else {
        Err(RegError::UnsupportedType)
    }
}

/// Reads a 32-bit value from its two words, low word first.
pub fn decode_dword(val: &RegValue) -> (r: RegResult<u32>)
    requires
        val.vtype == REG_DWORD ==> val.bytes@.len() >= 2,
    ensures
        r == dword_decoded(val.bytes@, val.vtype),
{
    if val.vtype == REG_DWORD {
        let lo: u32 = val.bytes[0] as u32;
        let hi: u32 = val.bytes[1] as u32;
        let v: u32 = (hi << 16) | lo;
        assert(v == hi * 0x10000 + lo) by (bit_vector)
            requires
                v == (hi << 16) | lo,
                lo < 0x10000,
                hi < 0x10000,
        ;
        Ok(v)
    } else {
        Err(RegError::UnsupportedType)
    }
}

/// Reads a 64-bit value from its four words, least significant first.
pub fn decode_qword(val: &RegValue) -> (r: RegResult<u64>)
    requires
        val.vtype == REG_QWORD ==> val.bytes@.len() >= 4,
    ensures
        r == qword_decoded(val.bytes@, val.vtype),
{
    if val.vtype == REG_QWORD {
        let w0: u64 = val.bytes[0] as u64;
        let w1: u64 = val.bytes[1] as u64;
        let w2: u64 = val.bytes[2] as u64;
        let w3: u64 = val.bytes[3] as u64;
        let v: u64 = (w3 << 48) | (w2 << 32) | (w1 << 16) | w0;
        assert(v == w3 * 0x1_0000_0000_0000 + w2 * 0x1_0000_0000 + w1 * 0x10000 + w0)
            by (bit_vector)
            requires
                v == (w3 << 48) | (w2 << 32) | (w1 << 16) | w0,
                w0 < 0x10000,
                w1 < 0x10000,
                w2 < 0x10000,
                w3 < 0x10000,
        ;
        Ok(v)
    } else {
        Err(RegError::UnsupportedType)
    }
}

/// Writes text as its UTF-16 units under the plain-text tag; the store adds
/// the terminator.
pub fn encode_text(s: &str) -> (r: RegValue)
    ensures
        r.bytes@ == utf16_of(s@),
        r.vtype == REG_SZ,
{
    RegValue { bytes: encode_utf16(s), vtype: REG_SZ }
}

/// Writes a 32-bit value as two words, low word first.
pub fn encode_dword(x: u32) -> (r: RegValue)
    ensures
        r.bytes@ == dword_words(x),
        r.vtype == REG_DWORD,
{
    let lo: u32 = x & 0xFFFF;
    let hi: u32 = (x & 0xFFFF_0000) >> 16;
    assert(lo == x % 0x10000 && hi == x / 0x10000) by (bit_vector)
        requires
            lo == x & 0xFFFF,
            hi == (x & 0xFFFF_0000) >> 16,
    ;
    let bytes: Vec<u16> = vec![lo as u16, hi as u16];
    assert(bytes@ =~= dword_words(x));
    RegValue { bytes, vtype: REG_DWORD }
}

/// Writes a 64-bit value as four words, least significant first.
pub fn encode_qword(x: u64) -> (r: RegValue)
    ensures
        r.bytes@ == qword_words(x),
        r.vtype == REG_QWORD,
{
    let w0: u64 = x & 0xFFFF;
    let w1: u64 = (x & 0xFFFF_0000) >> 16;
    let w2: u64 = (x & 0xFFFF_0000_0000) >> 32;
    let w3: u64 = (x & 0xFFFF_0000_0000_0000) >> 48;
    assert(w0 == x % 0x10000 && w1 == x / 0x10000 % 0x10000 && w2 == x / 0x1_0000_0000 % 0x10000
        && w3 == x / 0x1_0000_0000_0000) by (bit_vector)
        requires
            w0 == x & 0xFFFF,
            w1 == (x & 0xFFFF_0000) >> 16,
            w2 == (x & 0xFFFF_0000_0000) >> 32,
            w3 == (x & 0xFFFF_0000_0000_0000) >> 48,
    ;
    let bytes: Vec<u16> = vec![w0 as u16, w1 as u16, w2 as u16, w3 as u16];
    assert(bytes@ =~= qword_words(x));
    RegValue { bytes, vtype: REG_QWORD }
}

impl FromReg for String {
    open spec fn well_formed(words: Seq<u16>, kind: u32) -> bool {
        true
    }

    open spec fn decoded(words: Seq<u16>, kind: u32) -> Result<Seq<char>, RegError> {
        text_decoded(words, kind)
    }

    fn convert_from_bytes(val: &RegValue) -> (r: RegResult<String>) {
        decode_text(val)
    }
}

impl FromReg for u32 {
    open spec fn well_formed(words: Seq<u16>, kind: u32) -> bool {
        kind == REG_DWORD ==> words.len() >= 2
    }

    open spec fn decoded(words: Seq<u16>, kind: u32) -> Result<u32, RegError> {
        dword_decoded(words, kind)
    }

    fn convert_from_bytes(val: &RegValue) -> (r: RegResult<u32>) {
        decode_dword(val)
    }
}

impl FromReg for u64 {
    open spec fn well_formed(words: Seq<u16>, kind: u32) -> bool {
        kind == REG_QWORD ==> words.len() >= 4
    }

    open spec fn decoded(words: Seq<u16>, kind: u32) -> Result<u64, RegError> {
        qword_decoded(words, kind)
    }

    fn convert_from_bytes(val: &RegValue) -> (r: RegResult<u64>) {
        decode_qword(val)
    }
}

impl ToReg for String {
    open spec fn encoded_words(v: Seq<char>) -> Seq<u16> {
        utf16_of(v)
    }

    open spec fn encoded_kind(v: Seq<char>) -> u32 {
        REG_SZ
    }

    fn convert_to_bytes(&self) -> (r: RegValue) {
        encode_text(self.as_str())
    }
}

impl<'a> ToReg for &'a str {
    open spec fn encoded_words(v: Seq<char>) -> Seq<u16> {
        utf16_of(v)
    }

    open spec fn encoded_kind(v: Seq<char>) -> u32 {
        REG_SZ
    }

    fn convert_to_bytes(&self) -> (r: RegValue) {
        encode_text(*self)
    }
}

impl ToReg for u32 {
    open spec fn encoded_words(v: u32) -> Seq<u16> {
        dword_words(v)
    }

    open spec fn encoded_kind(v: u32) -> u32 {
        REG_DWORD
    }

    fn convert_to_bytes(&self) -> (r: RegValue) {
        encode_dword(*self)
    }
}

impl ToReg for u64 {
    open spec fn encoded_words(v: u64) -> Seq<u16> {
        qword_words(v)
    }

    open spec fn encoded_kind(v: u64) -> u32 {
        REG_QWORD
    }

    fn convert_to_bytes(&self) -> (r: RegValue) {
        encode_qword(*self)
    }
}

} // verus!
