use winreg::types::{
    decode_dword, decode_qword, decode_text, encode_dword, encode_qword, encode_text,
    FromReg, RegError, RegValue, ToReg, REG_BINARY, REG_DWORD, REG_DWORD_BIG_ENDIAN,
    REG_DWORD_LITTLE_ENDIAN, REG_EXPAND_SZ, REG_MULTI_SZ, REG_QWORD, REG_SZ,
};

fn raw(bytes: Vec<u16>, vtype: u32) -> RegValue {
    RegValue { bytes, vtype }
}

fn utf16(s: &str) -> Vec<u16> {
    s.encode_utf16().collect()
}

#[test]
fn dword_round_trip() {
    for v in [0u32, 1, 0xFFFF, 0x10000, 0x0001_ABCD, 0xDEAD_BEEF, u32::MAX] {
        let encoded = v.convert_to_bytes();
        assert_eq!(u32::convert_from_bytes(&encoded), Ok(v));
    }
}

#[test]
fn qword_round_trip() {
    for v in [0u64, 1, 0xFFFF, 0x1_0000_0000, 0x0123_4567_89AB_CDEF, u64::MAX] {
        let encoded = v.convert_to_bytes();
        assert_eq!(u64::convert_from_bytes(&encoded), Ok(v));
    }
}

#[test]
fn text_round_trip_after_terminator() {
    for s in ["", "hello", "héllo wörld", "emoji \u{1F600} here"] {
        let mut encoded = s.to_string().convert_to_bytes();
        encoded.bytes.push(0);
        assert_eq!(String::convert_from_bytes(&encoded), Ok(s.to_string()));
    }
}

#[test]
fn qword_tag_rejected_as_dword() {
    let v = raw(vec![1, 2, 3, 4], REG_QWORD);
    assert_eq!(u32::convert_from_bytes(&v), Err(RegError::UnsupportedType));
}

#[test]
fn text_tag_rejected_as_qword() {
    let v = raw(utf16("text\0"), REG_SZ);
    assert_eq!(u64::convert_from_bytes(&v), Err(RegError::UnsupportedType));
}

#[test]
fn big_endian_dword_rejected() {
    let v = raw(vec![1, 0], REG_DWORD_BIG_ENDIAN);
    assert_eq!(u32::convert_from_bytes(&v), Err(RegError::UnsupportedType));
}

#[test]
fn binary_rejected_as_text() {
    let v = raw(vec![0x41, 0], REG_BINARY);
    assert_eq!(String::convert_from_bytes(&v), Err(RegError::UnsupportedType));
}

#[test]
fn dword_tag_rejected_as_text() {
    let v = raw(vec![0x41, 0], REG_DWORD);
    assert_eq!(String::convert_from_bytes(&v), Err(RegError::UnsupportedType));
}

#[test]
fn multi_text_splits_on_newlines() {
    // Only the final terminator is dropped: the list's closing separator
    // stays and becomes a newline too.
    let v = raw(utf16("alpha\0beta\0\0"), REG_MULTI_SZ);
    assert_eq!(String::convert_from_bytes(&v), Ok("alpha\nbeta\n".to_string()));
}

#[test]
fn multi_text_keeps_plain_text_alone() {
    let v = raw(utf16("one\0"), REG_MULTI_SZ);
    assert_eq!(String::convert_from_bytes(&v), Ok("one".to_string()));
}

#[test]
fn plain_text_keeps_inner_nul() {
    let v = raw(utf16("a\0b\0"), REG_SZ);
    assert_eq!(String::convert_from_bytes(&v), Ok("a\0b".to_string()));
}

#[test]
fn expandable_text_decodes() {
    let v = raw(utf16("%PATH%\0"), REG_EXPAND_SZ);
    assert_eq!(String::convert_from_bytes(&v), Ok("%PATH%".to_string()));
}

#[test]
fn unterminated_text_loses_last_char() {
    let v = raw(utf16("abc"), REG_SZ);
    assert_eq!(String::convert_from_bytes(&v), Ok("ab".to_string()));
}

#[test]
fn empty_text_buffer_decodes_to_empty() {
    let v = raw(vec![], REG_SZ);
    assert_eq!(String::convert_from_bytes(&v), Ok(String::new()));
}

#[test]
fn surrogate_pair_decodes() {
    let v = raw(vec![0xD83D, 0xDE00, 0], REG_SZ);
    assert_eq!(String::convert_from_bytes(&v), Ok("\u{1F600}".to_string()));
}

#[test]
fn unpaired_high_surrogate_is_invalid() {
    let v = raw(vec![0x41, 0xD800, 0x42, 0], REG_SZ);
    assert_eq!(String::convert_from_bytes(&v), Err(RegError::InvalidEncoding));
}

#[test]
fn unpaired_low_surrogate_is_invalid() {
    let v = raw(vec![0xDC00, 0], REG_MULTI_SZ);
    assert_eq!(String::convert_from_bytes(&v), Err(RegError::InvalidEncoding));
}

#[test]
fn trailing_high_surrogate_is_invalid() {
    let v = raw(vec![0x41, 0xD800], REG_EXPAND_SZ);
    assert_eq!(String::convert_from_bytes(&v), Err(RegError::InvalidEncoding));
}

#[test]
fn dword_word_layout() {
    let v = 0x0001_ABCDu32.convert_to_bytes();
    assert_eq!(v.bytes, vec![0xABCD, 0x0001]);
    assert_eq!(v.vtype, REG_DWORD);
}

#[test]
fn qword_word_layout() {
    let v = 0x0123_4567_89AB_CDEFu64.convert_to_bytes();
    assert_eq!(v.bytes, vec![0xCDEF, 0x89AB, 0x4567, 0x0123]);
    assert_eq!(v.vtype, REG_QWORD);
}

#[test]
fn dword_decode_layout_ignores_extra_words() {
    let v = raw(vec![0xABCD, 0x0001, 0x7777], REG_DWORD_LITTLE_ENDIAN);
    assert_eq!(u32::convert_from_bytes(&v), Ok(0x0001_ABCD));
}

#[test]
fn qword_decode_layout_ignores_extra_words() {
    let v = raw(vec![0xCDEF, 0x89AB, 0x4567, 0x0123, 0xFFFF], REG_QWORD);
    assert_eq!(u64::convert_from_bytes(&v), Ok(0x0123_4567_89AB_CDEF));
}

#[test]
fn numeric_decode_encode_is_idempotent() {
    let d = raw(vec![0x1234, 0x5678, 9], REG_DWORD);
    let first = u32::convert_from_bytes(&d).unwrap();
    assert_eq!(u32::convert_from_bytes(&first.convert_to_bytes()), Ok(first));
    assert_eq!(first, 0x5678_1234);
    let q = raw(vec![1, 2, 3, 4], REG_QWORD);
    let first = u64::convert_from_bytes(&q).unwrap();
    assert_eq!(u64::convert_from_bytes(&first.convert_to_bytes()), Ok(first));
    assert_eq!(first, 0x0004_0003_0002_0001);
}

#[test]
fn text_encodes_as_plain_utf16_without_terminator() {
    let v = "A\u{1F600}".convert_to_bytes();
    assert_eq!(v.bytes, vec![0x41, 0xD83D, 0xDE00]);
    assert_eq!(v.vtype, REG_SZ);
    let w = String::from("hé").convert_to_bytes();
    assert_eq!(w.bytes, vec![0x68, 0xE9]);
    assert_eq!(w.vtype, REG_SZ);
}

#[test]
fn multi_text_is_lossy_one_way() {
    let v = raw(utf16("a\0b\0\0"), REG_MULTI_SZ);
    let text = String::convert_from_bytes(&v).unwrap();
    let re = text.convert_to_bytes();
    assert_eq!(re.vtype, REG_SZ);
    assert_ne!(re.bytes, v.bytes);
}

#[test]
fn little_endian_dword_is_dword() {
    assert_eq!(REG_DWORD_LITTLE_ENDIAN, REG_DWORD);
}

#[test]
fn free_functions_match_traits() {
    assert_eq!(encode_dword(0x0001_ABCD).bytes, vec![0xABCD, 0x0001]);
    assert_eq!(encode_qword(0x0123_4567_89AB_CDEF).bytes, vec![0xCDEF, 0x89AB, 0x4567, 0x0123]);
    assert_eq!(encode_text("hi").bytes, vec![0x68, 0x69]);
    assert_eq!(decode_dword(&raw(vec![0xABCD, 0x0001], REG_DWORD)), Ok(0x0001_ABCD));
    assert_eq!(
        decode_qword(&raw(vec![0xCDEF, 0x89AB, 0x4567, 0x0123], REG_QWORD)),
        Ok(0x0123_4567_89AB_CDEF)
    );
    assert_eq!(decode_text(&raw(utf16("x\0y\0\0"), REG_MULTI_SZ)), Ok("x\ny\n".to_string()));
    assert_eq!(decode_qword(&raw(vec![1, 0], REG_DWORD)), Err(RegError::UnsupportedType));
}
