//! Byte encodings and digests: base64 (through the `base64` crate), SHA-256
//! (through `sha2`), MD5 (through `md5`) and verified lowercase hexadecimal.
use vstd::prelude::*;
use crate::text::push_char;
use base64::Engine;
use sha2::Digest;

verus! {

/// What the `base64` crate's `STANDARD` engine (RFC 4648 alphabet, with `=`
/// padding) encodes a byte sequence to.
pub uninterp spec fn base64_standard(data: Seq<u8>) -> Seq<char>;

/// What the `base64` crate's `URL_SAFE_NO_PAD` engine (URL-safe alphabet,
/// no padding) encodes a byte sequence to.
pub uninterp spec fn base64_url_no_pad(data: Seq<u8>) -> Seq<char>;

/// What `sha2::Sha256::digest` returns for a byte sequence.
pub uninterp spec fn sha256_digest(data: Seq<u8>) -> Seq<u8>;

/// What `md5::compute` returns for a byte sequence.
pub uninterp spec fn md5_digest(data: Seq<u8>) -> Seq<u8>;

/// The length of a padded base64 encoding of `n` bytes, as the `base64`
/// crate's `encoded_len` computes it.
pub open spec fn base64_padded_len(n: int) -> int {
    (n / 3) * 4 + if n % 3 > 0 { 4int } else { 0int }
}

/// The length of an unpadded base64 encoding of `n` bytes.
pub open spec fn base64_unpadded_len(n: int) -> int {
    (n / 3) * 4 + if n % 3 == 1 { 2int } else if n % 3 == 2 { 3int } else { 0int }
}

/// A character of the standard base64 alphabet, or the padding `=`.
pub open spec fn is_base64_standard_char(c: char) -> bool {
    ('A' <= c && c <= 'Z') || ('a' <= c && c <= 'z') || ('0' <= c && c <= '9') || c == '+'
        || c == '/' || c == '='
}

/// A character of the URL-safe base64 alphabet.
pub open spec fn is_base64_url_char(c: char) -> bool {
    ('A' <= c && c <= 'Z') || ('a' <= c && c <= 'z') || ('0' <= c && c <= '9') || c == '-' || c == '_'
}

/// Calls `base64::engine::general_purpose::STANDARD.encode`. The result is
/// named `base64_standard` of the input; as the crate's `encoded_len` and
/// alphabet show, it is `base64_padded_len` characters long and every
/// character of it is a standard base64 character or `=`. The crate panics
/// when the encoded length overflows `usize`, which `requires` rules out.
#[verifier::external_body]
pub(crate) fn encode_base64_standard(data: &[u8]) -> (r: String)
    requires
        base64_padded_len(data@.len() as int) <= usize::MAX,
    ensures
        r@ == base64_standard(data@),
        r@.len() == base64_padded_len(data@.len() as int),
        forall|i: int| 0 <= i < r@.len() ==> is_base64_standard_char(#[trigger] r@[i]),
{
    base64::engine::general_purpose::STANDARD.encode(data)
}

/// Calls `base64::engine::general_purpose::URL_SAFE_NO_PAD.encode`. The
/// result is named `base64_url_no_pad` of the input; as the crate's
/// `encoded_len` and URL-safe alphabet show, it is `base64_unpadded_len`
/// characters long, each a letter, a digit, `-` or `_`.
#[verifier::external_body]
pub(crate) fn encode_base64_url_no_pad(data: &[u8]) -> (r: String)
    requires
        base64_unpadded_len(data@.len() as int) <= usize::MAX,
    ensures
        r@ == base64_url_no_pad(data@),
        r@.len() == base64_unpadded_len(data@.len() as int),
        forall|i: int| 0 <= i < r@.len() ==> is_base64_url_char(#[trigger] r@[i]),
{
    base64::engine::general_purpose::URL_SAFE_NO_PAD.encode(data)
}

/// Calls `sha2::Sha256::digest`; the result is named `sha256_digest` of the
/// input and is 32 bytes long.
#[verifier::external_body]
pub(crate) fn sha256(data: &[u8]) -> (r: Vec<u8>)
    ensures
        r@ == sha256_digest(data@),
        r@.len() == 32,
{
    sha2::Sha256::digest(data).to_vec()
}

/// Calls `md5::compute`; the result is named `md5_digest` of the input and,
/// being an `md5::Digest([u8; 16])`, is 16 bytes long.
#[verifier::external_body]
pub(crate) fn md5(data: &[u8]) -> (r: Vec<u8>)
    ensures
        r@ == md5_digest(data@),
        r@.len() == 16,
{
    md5::compute(data).0.to_vec()
}

/// The lowercase hexadecimal digit for a value below 16.
pub open spec fn hex_digit(v: u8) -> char {
    if v < 10 {
        (('0' as u8) + v) as char
    } else {
        (('a' as u8) + (v - 10)) as char
    }
}

/// A lowercase hexadecimal digit.
pub open spec fn is_lower_hex_digit(c: char) -> bool {
    ('0' <= c && c <= '9') || ('a' <= c && c <= 'f')
}

/// Two lowercase hexadecimal digits per byte, most significant first.
pub open spec fn hex_lower(bytes: Seq<u8>) -> Seq<char>
    decreases bytes.len(),
{
    if bytes.len() == 0 {
        Seq::empty()
    } else {
        hex_lower(bytes.drop_last()).push(hex_digit(bytes.last() / 16)).push(
            hex_digit(bytes.last() % 16),
        )
    }
}

/// The hexadecimal digit character for a value below 16.
fn hex_digit_char(v: u8) -> (c: char)
    requires
        v < 16,
    ensures
        c == hex_digit(v),
{
    if v < 10 {
        let b: u8 = 48 + v;
        b as char
    } else {
        let b: u8 = 97 + (v - 10);
        b as char
    }
}

/// Every character of a hexadecimal rendering is a lowercase hexadecimal
/// digit.
pub proof fn lemma_hex_lower_digits(bytes: Seq<u8>)
    ensures
        forall|i: int| 0 <= i < hex_lower(bytes).len() ==> is_lower_hex_digit(#[trigger] hex_lower(bytes)[i]),
        hex_lower(bytes).len() == 2 * bytes.len(),
    decreases bytes.len(),
{
    if bytes.len() > 0 {
        lemma_hex_lower_digits(bytes.drop_last());
        let b = bytes.last();
        assert(is_lower_hex_digit(hex_digit(b / 16)) && is_lower_hex_digit(hex_digit(b % 16))) by {
            assert(b / 16 < 16);
            assert(b % 16 < 16);
        }
        let p = hex_lower(bytes.drop_last());
        assert forall|i: int| 0 <= i < hex_lower(bytes).len() implies is_lower_hex_digit(#[trigger] hex_lower(bytes)[i]) by {
            if i < p.len() {
                assert(hex_lower(bytes)[i] == p[i]);
            }
        }
    }
}

/// Formats bytes as lowercase hexadecimal, two digits per byte.
pub fn to_hex_lower(bytes: &[u8]) -> (r: String)
    ensures
        r@ == hex_lower(bytes@),
        r@.len() == 2 * bytes@.len(),
{
    let mut out = String::new();
    let mut i: usize = 0;
    while i < bytes.len()
        invariant
            i <= bytes@.len(),
            out@ == hex_lower(bytes@.subrange(0, i as int)),
            out@.len() == 2 * i,
        decreases bytes@.len() - i,
    {
        let b = bytes[i];
        push_char(&mut out, hex_digit_char(b / 16));
        push_char(&mut out, hex_digit_char(b % 16));
        assert(bytes@.subrange(0, i + 1).drop_last() =~= bytes@.subrange(0, i as int));
        i = i + 1;
    }
    assert(bytes@.subrange(0, bytes@.len() as int) =~= bytes@);
    out
}

} // verus!
