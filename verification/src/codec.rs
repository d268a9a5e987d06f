//! Text encoding detection and round-trip conversion.
//!
//! Files written by this tool hold GBK bytes; files read by it may hold
//! either UTF-8 or GBK. Reading probes for strict UTF-8 first and falls back
//! to the total GBK decoder, which substitutes a replacement character for
//! each malformed unit instead of failing. Writing always produces GBK bytes.
//!
//! The UTF-8 side is modelled by `vstd::utf8` (`valid_utf8`, `encode_utf8`,
//! `decode_utf8`); the GBK side by the two uninterpreted functions
//! [`gbk_decoded`] and [`gbk_encoded`], which name what the `encoding_rs`
//! GBK decoder and encoder return.

use vstd::prelude::*;

verus! {

use vstd::string::StrSliceExecFns;
use vstd::utf8::decode_utf8;
use vstd::utf8::encode_utf8;
use vstd::utf8::is_ascii_chars;
use vstd::utf8::valid_utf8;

/// The text that the GBK decoder yields for the given bytes. The decoder is
/// total: every byte sequence decodes to some text.
pub uninterp spec fn gbk_decoded(bytes: Seq<u8>) -> Seq<char>;

/// The bytes that the GBK encoder yields for the given text. The encoder is
/// total: unencodable characters are substituted, never rejected.
pub uninterp spec fn gbk_encoded(text: Seq<char>) -> Seq<u8>;

/// Relies on `encoding_rs::GBK.decode`: a pure, total decode of a complete
/// buffer, determined by the input bytes alone; malformed sequences are
/// replaced with U+FFFD rather than reported as errors, and an empty input
/// yields an empty string. The length bound keeps the decoder's internal
/// output-buffer size calculation from overflowing `usize`, the one input on
/// which it panics.
#[verifier::external_body]
fn gbk_decode_bytes(bytes: &[u8]) -> (r: String)
    requires
        bytes@.len() <= usize::MAX / 8,
    ensures
        r@ == gbk_decoded(bytes@),
        bytes@.len() == 0 ==> r@.len() == 0,
{
    let (text, _, _) = encoding_rs::GBK.decode(bytes);
    text.into_owned()
}

/// Relies on `encoding_rs::GBK.encode`: a pure, total encode of a complete
/// string, determined by the input text alone; unmappable characters are
/// replaced with numeric character references rather than reported as errors.
/// For ASCII-only input the encoder returns the string's own (UTF-8) bytes
/// unchanged. The length bound keeps the encoder's internal output-buffer
/// size calculation from overflowing `usize`, the one input on which it
/// panics.
#[verifier::external_body]
fn gbk_encode_text(text: &str) -> (r: Vec<u8>)
    requires
        encode_utf8(text@).len() <= usize::MAX / 8,
    ensures
        r@ == gbk_encoded(text@),
        is_ascii_chars(text@) ==> r@ == encode_utf8(text@),
{
    let (bytes, _, _) = encoding_rs::GBK.encode(text);
    bytes.into_owned()
}

/// Relies on `std::str::from_utf8`: it returns `Ok` exactly when the bytes
/// are valid UTF-8, and the returned string then consists of the characters
/// those bytes encode. It never panics.
#[verifier::external_body]
fn utf8_decode_bytes(bytes: &[u8]) -> (r: Option<String>)
    ensures
        r is Some <==> valid_utf8(bytes@),
        r matches Some(s) ==> s@ == decode_utf8(bytes@),
{
    match std::str::from_utf8(bytes) {
        Ok(s) => Some(s.to_string()),
        Err(_) => None,
    }
}

/// Whether `text` has an occurrence of the character `c`.
pub fn contains_char(text: &str, c: char) -> (r: bool)
    ensures
        r == text@.contains(c),
{
    let n = text.unicode_len();
    let mut i: usize = 0;
    while i < n
        invariant
            n == text@.len(),
            i <= n,
            forall|j: int| 0 <= j < i ==> text@[j] != c,
        decreases n - i,
    {
        if text.get_char(i) == c {
            assert(text@[i as int] == c);
            return true;
        }
        i += 1;
    }
    false
}

/// The unified text that reading a file with the given bytes yields: their
/// UTF-8 decoding when they are valid UTF-8, and their (total) GBK decoding
/// otherwise.
pub open spec fn decoded_file_text(bytes: Seq<u8>) -> Seq<char> {
    if valid_utf8(bytes) {
        decode_utf8(bytes)
    } else {
        gbk_decoded(bytes)
    }
}

/// What the repair probe returns for the given text: the GBK reinterpretation
/// of the text's UTF-8 bytes when that reinterpretation is non-empty and the
/// text itself holds a replacement character, and the text unchanged
/// otherwise.
pub open spec fn repaired_text(text: Seq<char>) -> Seq<char> {
    let reinterpreted = gbk_decoded(encode_utf8(text));
    if reinterpreted.len() > 0 && text.contains('\u{FFFD}') {
        reinterpreted
    } else {
        text
    }
}

/// Whether the GBK encoder represents the text exactly: decoding its GBK
/// bytes recovers the text. False for text holding characters outside GBK,
/// which the encoder substitutes.
pub open spec fn gbk_round_trips(text: Seq<char>) -> bool {
    gbk_decoded(gbk_encoded(text)) == text
}

/// Tagged result of a decode: either the bytes were valid canonical (UTF-8)
/// text, or they were reinterpreted under the legacy encoding, which always
/// succeeds because that decoder is total.
#[derive(Debug)]
pub enum EncodingOutcome {
    Canonical(String),
    FallbackDecoded(String),
}

impl EncodingOutcome {
    /// The decoded text, however it was reached.
    pub open spec fn text(&self) -> Seq<char> {
        match self {
            EncodingOutcome::Canonical(s) => s@,
            EncodingOutcome::FallbackDecoded(s) => s@,
        }
    }

    /// The decoded text, however it was reached.
    pub fn into_text(self) -> (r: String)
        ensures
            r@ == self.text(),
    {
        match self {
            EncodingOutcome::Canonical(s) => s,
            EncodingOutcome::FallbackDecoded(s) => s,
        }
    }
}

/// Decode raw file bytes: strict UTF-8 first, total GBK decode as the
/// fallback, tagged with which of the two happened. Never fails; decode
/// problems are absorbed, not reported.
pub fn decode_file_outcome(bytes: &[u8]) -> (r: EncodingOutcome)
    requires
        bytes@.len() <= usize::MAX / 8,
    ensures
        r matches EncodingOutcome::Canonical(s) ==> valid_utf8(bytes@) && s@ == decode_utf8(
            bytes@,
        ),
        r matches EncodingOutcome::FallbackDecoded(s) ==> !valid_utf8(bytes@) && s@ == gbk_decoded(
            bytes@,
        ),
        r.text() == decoded_file_text(bytes@),
{
    match utf8_decode_bytes(bytes) {
        Some(text) => EncodingOutcome::Canonical(text),
        None => EncodingOutcome::FallbackDecoded(gbk_decode_bytes(bytes)),
    }
}

/// Decode raw file bytes into unified text, dropping the tag. Never fails.
pub fn decode_file_bytes(bytes: &[u8]) -> (r: String)
    requires
        bytes@.len() <= usize::MAX / 8,
    ensures
        r@ == decoded_file_text(bytes@),
{
    decode_file_outcome(bytes).into_text()
}

/// Encode unified text into the GBK bytes that are written to disk. The
/// encoder is total, so this always returns `Ok`; the `Result` shape is kept
/// for the command surface.
pub fn encode_to_gbk(text: String) -> (r: Result<Vec<u8>, String>)
    requires
        encode_utf8(text@).len() <= usize::MAX / 8,
    ensures
        r matches Ok(b) && b@ == gbk_encoded(text@),
{
    Ok(gbk_encode_text(text.as_str()))
}

/// Heuristic repair for text that was mis-decoded earlier in a pipeline: if
/// the text shows a replacement character, and reinterpreting its UTF-8 bytes
/// as GBK yields something, return the reinterpretation; otherwise return the
/// text unchanged. A genuine replacement character that is not due to
/// mis-decoding still triggers the repair: the heuristic cannot tell the two
/// apart, and that limitation is kept as it stands. Never fails.
pub fn decode_gbk_text(text: String) -> (r: Result<String, String>)
    requires
        encode_utf8(text@).len() <= usize::MAX / 8,
    ensures
        r matches Ok(out) && out@ == repaired_text(text@),
{
    let reinterpreted = gbk_decode_bytes(text.as_str().as_bytes());
    if !reinterpreted.as_str().is_empty() && contains_char(text.as_str(), '\u{FFFD}') {
        Ok(reinterpreted)
    } else {
        Ok(text)
    }
}

/// Law: text read back from its own canonical (UTF-8) bytes is returned
/// unchanged — valid UTF-8 input is never altered by the read path.
pub proof fn lemma_canonical_bytes_read_exact(text: Seq<char>)
    ensures
        decoded_file_text(encode_utf8(text)) == text,
{
    vstd::utf8::encode_utf8_valid_utf8(text);
    vstd::utf8::encode_utf8_decode_utf8(text);
}

/// Law: reading valid canonical (UTF-8) bytes loses nothing — re-encoding
/// the text a read yields gives back exactly the bytes that were read.
pub proof fn lemma_canonical_read_preserves_bytes(bytes: Seq<u8>)
    requires
        valid_utf8(bytes),
    ensures
        encode_utf8(decoded_file_text(bytes)) == bytes,
{
    vstd::utf8::decode_utf8_encode_utf8(bytes);
}

/// Law: writing text and reading the written bytes back returns the text,
/// for any text the GBK encoder represents exactly — except text whose GBK
/// bytes happen to form valid UTF-8 that decodes to something else, which the
/// UTF-8-first probe then mistakes for canonical input; the second premise
/// rules those inputs out and no others.
pub proof fn lemma_write_read_round_trip(text: Seq<char>)
    requires
        gbk_round_trips(text),
        valid_utf8(gbk_encoded(text)) ==> decode_utf8(gbk_encoded(text)) == text,
    ensures
        decoded_file_text(gbk_encoded(text)) == text,
{
}

/// Law: the repair probe keeps text without a replacement character
/// unchanged, whatever its GBK reinterpretation looks like.
pub proof fn lemma_probe_keeps_clean_text(text: Seq<char>)
    requires
        !text.contains('\u{FFFD}'),
    ensures
        repaired_text(text) == text,
{
}

/// Law: the repair probe rewrites text that holds a replacement character,
/// provided the GBK reinterpretation of its bytes is non-empty.
pub proof fn lemma_probe_repairs_marked_text(text: Seq<char>)
    requires
        text.contains('\u{FFFD}'),
        gbk_decoded(encode_utf8(text)).len() > 0,
    ensures
        repaired_text(text) == gbk_decoded(encode_utf8(text)),
{
}

} // verus!
