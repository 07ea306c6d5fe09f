//! Checksums of file contents.

use sha1::{Digest, Sha1};
use sha2::Sha256;
use vstd::prelude::*;

verus! {

/// The SHA-1 digest of the bytes in lower-case hexadecimal digits, as `Sha1`
/// computes it.
pub uninterp spec fn sha1_digest(bytes: Seq<u8>) -> Seq<char>;

/// The SHA-256 digest of the bytes in lower-case hexadecimal digits, as `Sha256`
/// computes it.
pub uninterp spec fn sha256_digest(bytes: Seq<u8>) -> Seq<char>;

/// Whether a character is a lower-case hexadecimal digit.
pub open spec fn is_lower_hex(c: char) -> bool {
    '0' <= c <= '9' || 'a' <= c <= 'f'
}

/// `Sha1::new`, `update` and `finalize`, in lower-case hexadecimal: the digest of
/// the bytes, which has forty digits.
#[verifier::external_body]
fn digest(bytes: &[u8]) -> (r: String)
    ensures
        r@ == sha1_digest(bytes@),
        r@.len() == 40,
        forall|i: int| 0 <= i < r@.len() ==> is_lower_hex(#[trigger] r@[i]),
{
    let mut hasher = Sha1::new();
    hasher.update(bytes);
    format!("{:x}", hasher.finalize())
}

/// `Sha256::new`, `update` and `finalize`, in lower-case hexadecimal: the digest
/// of the bytes, which has sixty-four digits.
#[verifier::external_body]
fn long_digest(bytes: &[u8]) -> (r: String)
    ensures
        r@ == sha256_digest(bytes@),
        r@.len() == 64,
        forall|i: int| 0 <= i < r@.len() ==> is_lower_hex(#[trigger] r@[i]),
{
    let mut hasher = Sha256::new();
    hasher.update(bytes);
    format!("{:x}", hasher.finalize())
}

/// The SHA-1 digest of file contents, in lower-case hexadecimal digits.
pub fn sha1_hex(bytes: &[u8]) -> (r: String)
    ensures
        r@ == sha1_digest(bytes@),
        r@.len() == 40,
        forall|i: int| 0 <= i < r@.len() ==> is_lower_hex(#[trigger] r@[i]),
{
    digest(bytes)
}

/// The SHA-256 digest of file contents, in lower-case hexadecimal digits.
pub fn sha256_hex(bytes: &[u8]) -> (r: String)
    ensures
        r@ == sha256_digest(bytes@),
        r@.len() == 64,
        forall|i: int| 0 <= i < r@.len() ==> is_lower_hex(#[trigger] r@[i]),
{
    long_digest(bytes)
}

} // verus!
