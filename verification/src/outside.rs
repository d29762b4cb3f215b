//! The calls this library makes into other code it does not verify: hex
//! decoding (`hex`), AES-GCM opening (`ring`), URL query building (`url`),
//! UTF-8 decoding and appending a character to a string (`std`). Each
//! contract here is believed, not proved.

use vstd::prelude::*;
use vstd::string::StringSliceAdditionalSpecFns;
use vstd::utf8::valid_utf8;

verus! {

/// Appends one character to a string.
///
/// Trusted: calls `String::push`, whose documentation says that it appends
/// the given `char` to the end of the string.
#[verifier::external_body]
pub(crate) fn push_char(s: &mut String, c: char)
    ensures
        final(s)@ == old(s)@.push(c),
{
    s.push(c);
}

/// The value of an ASCII hex digit, upper or lower case.
pub open spec fn hex_digit_value(b: u8) -> Option<u8> {
    if 0x30 <= b <= 0x39 {
        Some((b - 0x30) as u8)
    } else if 0x61 <= b <= 0x66 {
        Some((b - 0x61 + 10) as u8)
    } else if 0x41 <= b <= 0x46 {
        Some((b - 0x41 + 10) as u8)
    } else {
        None
    }
}

/// The bytes a hex string encodes, two digits per byte, high digit first;
/// `None` for an odd length or a character that is not a hex digit.
pub open spec fn hex_decode_spec(s: Seq<u8>) -> Option<Seq<u8>>
    decreases s.len(),
{
    if s.len() % 2 != 0 {
        None
    } else if s.len() == 0 {
        Some(Seq::empty())
    } else {
        match (hex_digit_value(s[0]), hex_digit_value(s[1]), hex_decode_spec(s.subrange(2, s.len() as int))) {
            (Some(hi), Some(lo), Some(rest)) => Some(seq![(hi * 16 + lo) as u8] + rest),
            _ => None,
        }
    }
}

/// The view of optional owned bytes.
pub open spec fn opt_bytes(o: Option<Vec<u8>>) -> Option<Seq<u8>> {
    match o {
        Some(v) => Some(v@),
        None => None,
    }
}

/// Decodes a hex string.
///
/// Trusted: calls `hex::decode`, which (in hex 0.4.3) rejects an odd length,
/// then decodes each pair of characters, upper or lower case, into one byte
/// and rejects any other character. The contract states exactly that.
#[verifier::external_body]
pub(crate) fn hex_decode(data: &[u8]) -> (r: Option<Vec<u8>>)
    ensures
        opt_bytes(r) == hex_decode_spec(data@),
{
    hex::decode(data).ok()
}

/// The two AES-GCM variants, by key length.
#[derive(Debug, Clone, Copy, PartialEq, Eq, Structural)]
pub enum GcmCipher {
    /// 16 byte key.
    Aes128,
    /// 32 byte key.
    Aes256,
}

/// The key length, in bytes, of an AES-GCM variant.
pub open spec fn gcm_key_len(c: GcmCipher) -> nat {
    match c {
        GcmCipher::Aes128 => 16,
        GcmCipher::Aes256 => 32,
    }
}

/// The plaintext that AES-GCM authenticates and decrypts from `sealed` (the
/// ciphertext followed by the 16 byte tag) under `key` and `nonce` with no
/// additional data, or `None` when authentication fails.
pub uninterp spec fn aes_gcm_open(cipher: GcmCipher, key: Seq<u8>, nonce: Seq<u8>, sealed: Seq<u8>) -> Option<Seq<u8>>;

/// Authenticates and decrypts an AES-GCM sealed message.
///
/// Trusted: calls `ring::aead::UnboundKey::new`, `LessSafeKey::new`,
/// `Nonce::assume_unique_for_key` and `LessSafeKey::open_in_place` (ring
/// 0.17.14). The contract names the outcome instead of stating AES-GCM, and
/// adds what ring's source shows: a plaintext is the sealed input without its
/// 16 byte tag, so it is 16 bytes shorter. It says nothing of which inputs
/// authenticate.
#[verifier::external_body]
pub(crate) fn gcm_open(cipher: GcmCipher, key: &[u8], nonce: &[u8], sealed: Vec<u8>) -> (r: Option<Vec<u8>>)
    requires
        key@.len() == gcm_key_len(cipher),
        nonce@.len() == 12,
    ensures
        opt_bytes(r) == aes_gcm_open(cipher, key@, nonce@, sealed@),
        r matches Some(p) ==> p@.len() + 16 == sealed@.len(),
{
    let algorithm = match cipher {
        GcmCipher::Aes128 => &ring::aead::AES_128_GCM,
        GcmCipher::Aes256 => &ring::aead::AES_256_GCM,
    };
    let opening = ring::aead::LessSafeKey::new(ring::aead::UnboundKey::new(algorithm, key).ok()?);
    let nonce = ring::aead::Nonce::assume_unique_for_key(nonce.try_into().ok()?);
    let mut in_out = sealed;
    let plaintext = opening.open_in_place(nonce, ring::aead::Aad::empty(), &mut in_out).ok()?;
    Some(plaintext.to_vec())
}

/// The serialization of the URL `url` parses to, with the `pairs` appended
/// to its query in form-urlencoded form; `None` when `url` does not parse.
pub uninterp spec fn url_with_query_pairs(url: Seq<char>, pairs: Seq<(Seq<char>, Seq<char>)>) -> Option<Seq<char>>;

/// The views of a list of text pairs.
pub open spec fn pair_views(pairs: Seq<(String, String)>) -> Seq<(Seq<char>, Seq<char>)> {
    pairs.map_values(|p: (String, String)| (p.0@, p.1@))
}

/// Parses a URL, appends query pairs to it and serializes it.
///
/// Trusted: calls `url::Url::parse`, `Url::query_pairs_mut`,
/// `form_urlencoded::Serializer::extend_pairs` and the `Display` of `Url`
/// (url 2.5.8). The contract names the outcome of the three steps together;
/// it states neither the parsing rules nor the percent-encoding.
#[verifier::external_body]
pub(crate) fn append_query_pairs(url: &str, pairs: &Vec<(String, String)>) -> (r: Option<String>)
    ensures
        match r {
            Some(s) => url_with_query_pairs(url@, pair_views(pairs@)) == Some(s@),
            None => url_with_query_pairs(url@, pair_views(pairs@)) is None,
        },
{
    let mut parsed = url::Url::parse(url).ok()?;
    parsed.query_pairs_mut().extend_pairs(pairs.iter());
    Some(parsed.to_string())
}

/// Reads bytes as UTF-8 text.
///
/// Trusted: calls `std::str::from_utf8`, documented to return the bytes as a
/// string slice when they are valid UTF-8 and to fail otherwise.
#[verifier::external_body]
pub(crate) fn utf8_text(bytes: &[u8]) -> (r: Option<&str>)
    ensures
        r is Some <==> valid_utf8(bytes@),
        r matches Some(s) ==> s.spec_bytes() == bytes@,
{
    std::str::from_utf8(bytes).ok()
}

/// The text `String::from_utf8_lossy` makes of some bytes: their UTF-8
/// decoding, with each invalid sequence replaced by U+FFFD.
pub uninterp spec fn utf8_lossy(bytes: Seq<u8>) -> Seq<char>;

/// Reads bytes as UTF-8 text, replacing invalid sequences.
///
/// Trusted: calls `String::from_utf8_lossy`. The contract names the result,
/// and states the documented case of valid input: the text is the input
/// decoded.
#[verifier::external_body]
pub(crate) fn utf8_lossy_text(bytes: &[u8]) -> (r: String)
    ensures
        r@ == utf8_lossy(bytes@),
        valid_utf8(bytes@) ==> r@ == vstd::utf8::decode_utf8(bytes@),
{
    String::from_utf8_lossy(bytes).to_string()
}

} // verus!
