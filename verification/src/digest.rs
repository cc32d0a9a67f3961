//! SHA-256 digests and their lowercase hexadecimal text.
use vstd::prelude::*;

use sha2::Digest;

verus! {

/// The SHA-256 digest of `data`, as `sha2::Sha256` computes it.
pub uninterp spec fn sha256_of(data: Seq<u8>) -> Seq<u8>;

/// Calls `sha2::Sha256::digest`: the result is named, and it is 32 bytes long.
#[verifier::external_body]
pub(crate) fn sha256(data: &[u8]) -> (digest: Vec<u8>)
    ensures
        digest@ == sha256_of(data@),
        digest@.len() == 32,
{
    sha2::Sha256::digest(data).to_vec()
}

/// The lowercase hexadecimal digit of a value below 16.
pub open spec fn hex_digit(nibble: u8) -> char {
    if nibble < 10 {
        (('0' as u8) + nibble) as char
    } else {
        (('a' as u8) + nibble - 10) as char
    }
}

/// Each byte as two lowercase hexadecimal digits, the high half first.
pub open spec fn lower_hex(bytes: Seq<u8>) -> Seq<char>
    decreases bytes.len(),
{
    if bytes.len() == 0 {
        Seq::empty()
    } else {
        lower_hex(bytes.drop_last()) + seq![
            hex_digit(bytes.last() / 16),
            hex_digit(bytes.last() % 16),
        ]
    }
}

/// Calls `hex::encode`, which writes each byte as two digits from `0123456789abcdef`, the
/// high half of the byte first.
#[verifier::external_body]
pub(crate) fn hex_encode(bytes: &[u8]) -> (text: String)
    ensures
        text@ == lower_hex(bytes@),
{
    hex::encode(bytes)
}

/// Whether `c` is a digit or a lowercase letter from `a` to `f`.
pub open spec fn is_lower_hex_char(c: char) -> bool {
    ('0' <= c && c <= '9') || ('a' <= c && c <= 'f')
}

/// Whether the text is exactly `length` lowercase hexadecimal digits.
pub open spec fn is_lower_hex_text(text: Seq<char>, length: nat) -> bool {
    &&& text.len() == length
    &&& forall|i: int| 0 <= i < text.len() ==> is_lower_hex_char(#[trigger] text[i])
}

proof fn lemma_lower_hex_shape(bytes: Seq<u8>)
    ensures
        is_lower_hex_text(lower_hex(bytes), 2 * bytes.len()),
    decreases bytes.len(),
{
    if bytes.len() > 0 {
        lemma_lower_hex_shape(bytes.drop_last());
        let b = bytes.last();
        assert(b / 16 < 16 && b % 16 < 16);
        let tail = seq![hex_digit(b / 16), hex_digit(b % 16)];
        assert(is_lower_hex_char(tail[0]) && is_lower_hex_char(tail[1]));
        let whole = lower_hex(bytes);
        let head = lower_hex(bytes.drop_last());
        assert(whole =~= head + tail);
        assert forall|i: int| 0 <= i < whole.len() implies is_lower_hex_char(#[trigger] whole[i]) by {
            if i < head.len() {
                assert(whole[i] == head[i]);
            } else {
                assert(whole[i] == tail[i - head.len()]);
            }
        }
    }
}

/// The audit reference of a proposal id: the first 16 bytes of the SHA-256 digest of its
/// UTF-8 bytes, in lowercase hexadecimal.
pub open spec fn proposal_reference_of(proposal_id: Seq<char>) -> Seq<char> {
    lower_hex(sha256_of(vstd::utf8::encode_utf8(proposal_id)).take(16))
}

/// A fixed-length, lowercase hexadecimal reference that stands for a proposal id without
/// revealing it.
pub fn proposal_reference(proposal_id: &str) -> (reference: String)
    ensures
        reference@ == proposal_reference_of(proposal_id@),
        is_lower_hex_text(reference@, 32),
{
    let digest = sha256(proposal_id.as_bytes());
    let mut prefix: Vec<u8> = Vec::new();
    let mut i: usize = 0;
    while i < 16
        invariant
            i <= 16,
            digest@.len() == 32,
            prefix@ == digest@.take(i as int),
        decreases 16 - i,
    {
        prefix.push(digest[i]);
        assert(digest@.take(i + 1) =~= digest@.take(i as int).push(digest@[i as int]));
        i = i + 1;
    }
    let reference = hex_encode(prefix.as_slice());
    proof {
        lemma_lower_hex_shape(prefix@);
    }
    reference
}

/// Whether `value` is exactly `length` lowercase hexadecimal digits.
pub fn is_lower_hex(value: &str, length: usize) -> (valid: bool)
    ensures
        valid == is_lower_hex_text(value@, length as nat),
{
    let chars = crate::text::chars_of(value);
    if chars.len() != length {
        return false;
    }
    let mut i: usize = 0;
    while i < chars.len()
        invariant
            i <= chars.len(),
            chars@ == value@,
            forall|j: int| 0 <= j < i ==> is_lower_hex_char(#[trigger] chars@[j]),
        decreases chars.len() - i,
    {
        let c = chars[i];
        if !(('0' <= c && c <= '9') || ('a' <= c && c <= 'f')) {
            return false;
        }
        i = i + 1;
    }
    true
}

/// The digest of serialized material: its SHA-256 in lowercase hexadecimal.
pub fn material_digest(material: &[u8]) -> (digest: String)
    ensures
        digest@ == lower_hex(sha256_of(material@)),
        is_lower_hex_text(digest@, 64),
{
    let digest = sha256(material);
    proof {
        lemma_lower_hex_shape(digest@);
    }
    hex_encode(digest.as_slice())
}

} // verus!
