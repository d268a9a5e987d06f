use gbk_backend::codec::{
    contains_char, decode_file_bytes, decode_file_outcome, decode_gbk_text, encode_to_gbk,
    EncodingOutcome,
};

#[test]
fn decode_outcome_tags_the_path_taken() {
    match decode_file_outcome("你好".as_bytes()) {
        EncodingOutcome::Canonical(s) => assert_eq!(s, "你好"),
        EncodingOutcome::FallbackDecoded(_) => panic!("valid UTF-8 must decode as canonical"),
    }
    match decode_file_outcome(&[0xc4, 0xe3, 0xba, 0xc3]) {
        EncodingOutcome::Canonical(_) => panic!("GBK bytes must take the fallback"),
        EncodingOutcome::FallbackDecoded(s) => assert_eq!(s, "你好"),
    }
}

#[test]
fn utf8_bytes_read_back_unchanged() {
    let bytes = "hello, world".as_bytes();
    assert_eq!(decode_file_bytes(bytes), "hello, world");
}

#[test]
fn utf8_chinese_bytes_read_back_unchanged() {
    let bytes = "你好".as_bytes();
    assert_eq!(bytes, [0xe4, 0xbd, 0xa0, 0xe5, 0xa5, 0xbd]);
    assert_eq!(decode_file_bytes(bytes), "你好");
}

#[test]
fn gbk_bytes_fall_back_to_gbk_decoding() {
    // "你好" in GBK; not valid UTF-8.
    let bytes = [0xc4, 0xe3, 0xba, 0xc3];
    assert_eq!(decode_file_bytes(&bytes), "你好");
}

#[test]
fn encode_to_gbk_produces_gbk_bytes() {
    let encoded = encode_to_gbk("你好".to_string()).unwrap();
    assert_eq!(encoded, vec![0xc4, 0xe3, 0xba, 0xc3]);
}

#[test]
fn encode_to_gbk_keeps_ascii_bytes() {
    let encoded = encode_to_gbk("plain ascii".to_string()).unwrap();
    assert_eq!(encoded, "plain ascii".as_bytes());
}

#[test]
fn encode_then_decode_round_trips_chinese_text() {
    let encoded = encode_to_gbk("编码往返测试".to_string()).unwrap();
    assert_eq!(decode_file_bytes(&encoded), "编码往返测试");
}

#[test]
fn encode_then_decode_round_trips_ascii_text() {
    let encoded = encode_to_gbk("a/b/c 123".to_string()).unwrap();
    assert_eq!(decode_file_bytes(&encoded), "a/b/c 123");
}

#[test]
fn written_bytes_for_nihao_read_back_exactly() {
    // The byte sequence a write of "你好" puts on disk, read back.
    let written = encode_to_gbk("你好".to_string()).unwrap();
    assert_eq!(decode_file_bytes(&written), "你好");
}

#[test]
fn empty_round_trip() {
    let encoded = encode_to_gbk(String::new()).unwrap();
    assert_eq!(encoded.len(), 0);
    assert_eq!(decode_file_bytes(&encoded), "");
}

#[test]
fn probe_keeps_text_without_replacement_character() {
    assert_eq!(decode_gbk_text("hello".to_string()), Ok("hello".to_string()));
    assert_eq!(decode_gbk_text("你好".to_string()), Ok("你好".to_string()));
}

#[test]
fn probe_reinterprets_text_with_replacement_character() {
    // Two replacement characters re-read as GBK: the classic mojibake.
    let repaired = decode_gbk_text("\u{fffd}\u{fffd}".to_string()).unwrap();
    assert_eq!(repaired, "锟斤拷");
}

#[test]
fn contains_char_finds_and_rejects() {
    assert!(contains_char("user@example.com", '@'));
    assert!(contains_char("user@example.com", '.'));
    assert!(!contains_char("user_example", '@'));
    assert!(!contains_char("", '@'));
    assert!(contains_char("报错�了", '\u{fffd}'));
}
