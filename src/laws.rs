//! Properties that relate decoding and encoding.
use vstd::prelude::*;

use crate::types::{is_text_kind, FromReg, RegError, ToReg, REG_QWORD, REG_SZ};
use crate::utf16::{
    char_units, is_high_surrogate, is_low_surrogate, lemma_utf16_paired, lemma_utf16_text_of,
    utf16_of, utf16_valid,
};

verus! {

/// Every 32-bit value comes back unchanged from encoding and decoding.
pub proof fn lemma_dword_round_trip(v: u32)
    ensures
        <u32 as FromReg>::well_formed(<u32 as ToReg>::encoded_words(v), <u32 as ToReg>::encoded_kind(v)),
        <u32 as FromReg>::decoded(<u32 as ToReg>::encoded_words(v), <u32 as ToReg>::encoded_kind(v))
            == Ok::<u32, RegError>(v),
{
}

/// Every 64-bit value comes back unchanged from encoding and decoding.
pub proof fn lemma_qword_round_trip(v: u64)
    ensures
        <u64 as FromReg>::well_formed(<u64 as ToReg>::encoded_words(v), <u64 as ToReg>::encoded_kind(v)),
        <u64 as FromReg>::decoded(<u64 as ToReg>::encoded_words(v), <u64 as ToReg>::encoded_kind(v))
            == Ok::<u64, RegError>(v),
{
}

/// Text comes back unchanged from encoding and decoding once the store has
/// appended the terminating NUL word.
pub proof fn lemma_text_round_trip(s: Seq<char>)
    ensures
        <String as FromReg>::decoded(
            <String as ToReg>::encoded_words(s).push(0u16),
            <String as ToReg>::encoded_kind(s),
        ) == Ok::<Seq<char>, RegError>(s),
{
    let t = s.push('\0');
    assert(t.drop_last() =~= s);
    assert(char_units('\0') =~= seq![0u16]);
    assert(utf16_of(t) =~= utf16_of(s).push(0u16));
    lemma_utf16_text_of(t);
}

/// A 64-bit value cannot be read as a 32-bit one, nor text as a 64-bit value.
pub proof fn lemma_type_mismatch(words: Seq<u16>)
    ensures
        <u32 as FromReg>::decoded(words, REG_QWORD) == Err::<u32, RegError>(RegError::UnsupportedType),
        <u64 as FromReg>::decoded(words, REG_SZ) == Err::<u64, RegError>(RegError::UnsupportedType),
{
}

/// Text whose words hold an unpaired surrogate at `i` is rejected as
/// invalid.
pub proof fn lemma_unpaired_surrogate_rejected(words: Seq<u16>, kind: u32, i: int)
    requires
        is_text_kind(kind),
        0 <= i < words.len(),
        (is_high_surrogate(words[i]) && (i + 1 == words.len() || !is_low_surrogate(words[i + 1])))
            || (is_low_surrogate(words[i]) && (i == 0 || !is_high_surrogate(words[i - 1]))),
    ensures
        <String as FromReg>::decoded(words, kind) == Err::<Seq<char>, RegError>(RegError::InvalidEncoding),
{
    if utf16_valid(words) {
        let cs = choose|cs: Seq<char>| utf16_of(cs) == words;
        lemma_utf16_paired(cs);
        assert(0 <= i < words.len());
        assert(is_high_surrogate(words[i]) ==> i + 1 < words.len() && is_low_surrogate(words[i + 1]));
    }
}

/// Re-encoding a 32-bit value read from the store and reading it again gives
/// the same value.
pub proof fn lemma_dword_idempotent(words: Seq<u16>, kind: u32)
    requires
        <u32 as FromReg>::well_formed(words, kind),
        <u32 as FromReg>::decoded(words, kind) is Ok,
    ensures
        ({
            let v = <u32 as FromReg>::decoded(words, kind)->Ok_0;
            <u32 as FromReg>::decoded(<u32 as ToReg>::encoded_words(v), <u32 as ToReg>::encoded_kind(v))
                == <u32 as FromReg>::decoded(words, kind)
        }),
{
    lemma_dword_round_trip(<u32 as FromReg>::decoded(words, kind)->Ok_0);
}

/// Re-encoding a 64-bit value read from the store and reading it again gives
/// the same value.
pub proof fn lemma_qword_idempotent(words: Seq<u16>, kind: u32)
    requires
        <u64 as FromReg>::well_formed(words, kind),
        <u64 as FromReg>::decoded(words, kind) is Ok,
    ensures
        ({
            let v = <u64 as FromReg>::decoded(words, kind)->Ok_0;
            <u64 as FromReg>::decoded(<u64 as ToReg>::encoded_words(v), <u64 as ToReg>::encoded_kind(v))
                == <u64 as FromReg>::decoded(words, kind)
        }),
{
    lemma_qword_round_trip(<u64 as FromReg>::decoded(words, kind)->Ok_0);
}

} // verus!
