//! SHA-256 digests and their canonical lowercase hexadecimal text.

use sha2::Digest;
use vstd::prelude::*;

use crate::ports::{is_lower_hex_char, is_canonical_sha256_hex, CanonicalRequestHash};

verus! {

/// `String::push` appends one character.
pub assume_specification[ std::string::String::push ](string: &mut std::string::String, ch: char)
    ensures
        final(string)@ == old(string)@.push(ch),
;

/// The SHA-256 digest of `data`.
pub uninterp spec fn sha256_of(data: Seq<u8>) -> Seq<u8>;

/// Computes `sha2::Sha256::digest(data)`; the digest is 32 bytes long.
#[verifier::external_body]
pub fn sha256(data: &[u8]) -> (r: Vec<u8>)
    ensures
        r@ == sha256_of(data@),
        r@.len() == 32,
{
    sha2::Sha256::digest(data).to_vec()
}

/// The lowercase hexadecimal digit for a nibble.
pub open spec fn hex_digit(n: u8) -> char
    recommends
        n < 16,
{
    if n < 10 {
        (('0' as u8) + n) as char
    } else {
        (('a' as u8) + (n - 10)) as char
    }
}

/// Two lowercase hexadecimal digits per byte, high nibble first.
pub open spec fn hex_text(bytes: Seq<u8>) -> Seq<char>
    decreases bytes.len(),
{
    if bytes.len() == 0 {
        Seq::empty()
    } else {
        let b = bytes.last();
        hex_text(bytes.drop_last()).push(hex_digit(b / 16)).push(hex_digit(b % 16))
    }
}

pub(crate) fn nibble_char(n: u8) -> (c: char)
    requires
        n < 16,
    ensures
        c == hex_digit(n),
        is_lower_hex_char(c),
{
    let digits: [char; 16] = ['0', '1', '2', '3', '4', '5', '6', '7', '8', '9', 'a', 'b', 'c', 'd', 'e', 'f'];
    let c = digits[n as usize];
    assert(c == hex_digit(n)) by {
        assert(digits@ =~= seq!['0', '1', '2', '3', '4', '5', '6', '7', '8', '9', 'a', 'b', 'c', 'd', 'e', 'f']);
    }
    c
}

/// Lowercase hexadecimal encoding, two characters per byte.
pub fn hex(bytes: &[u8]) -> (s: String)
    ensures
        s@ == hex_text(bytes@),
{
    let mut s = String::new();
    let mut i: usize = 0;
    while i < bytes.len()
        invariant
            i <= bytes@.len(),
            s@ == hex_text(bytes@.take(i as int)),
        decreases bytes@.len() - i,
    {
        let b = bytes[i];
        s.push(nibble_char(b / 16));
        s.push(nibble_char(b % 16));
        assert(bytes@.take(i + 1).drop_last() =~= bytes@.take(i as int));
        i = i + 1;
    }
    assert(bytes@.take(bytes@.len() as int) =~= bytes@);
    s
}

/// The hexadecimal text is twice as long as the bytes and uses only lowercase digits.
pub proof fn lemma_hex_text_shape(bytes: Seq<u8>)
    ensures
        hex_text(bytes).len() == 2 * bytes.len(),
        forall|i: int| 0 <= i < hex_text(bytes).len() ==> is_lower_hex_char(#[trigger] hex_text(bytes)[i]),
    decreases bytes.len(),
{
    if bytes.len() > 0 {
        lemma_hex_text_shape(bytes.drop_last());
        let b = bytes.last();
        assert(is_lower_hex_char(hex_digit(b / 16)));
        assert(is_lower_hex_char(hex_digit(b % 16)));
    }
}

/// Canonical request digest of already canonically encoded request bytes.
///
/// A SHA-256 digest always hex-encodes to a canonical digest, so this never fails.
pub fn canonical_request_hash(encoded: &[u8]) -> (h: CanonicalRequestHash)
    ensures
        h@ == hex_text(sha256_of(encoded@)),
{
    let digest = sha256(encoded);
    let text = hex(digest.as_slice());
    proof {
        lemma_hex_text_shape(digest@);
    }
    CanonicalRequestHash::from_canonical(text)
}

} // verus!
