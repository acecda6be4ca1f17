//! The content hash of an email: the Keccak-256 digest of its text, written
//! as `0x` and sixty-four hexadecimal digits.

use crate::encoding::lower_hex;
use vstd::prelude::*;
use vstd::string::*;
use vstd::utf8::encode_utf8;

verus! {

/// The Keccak-256 digest of `bytes`.
pub uninterp spec fn keccak256(bytes: Seq<u8>) -> Seq<u8>;

/// `ethers::utils::keccak256`: the contract names the digest as a function of
/// the bytes that are hashed; the result type fixes its length at 32.
#[verifier::external_body]
fn keccak256_digest(bytes: &[u8]) -> (digest: [u8; 32])
    ensures
        digest@ == keccak256(bytes@),
{
    ethers::utils::keccak256(bytes)
}

/// `hex::encode`: two lower-case hexadecimal digits for each byte, the high
/// half of the byte first, in the order of the bytes.
#[verifier::external_body]
fn hex_encode(bytes: &[u8]) -> (text: String)
    ensures
        text@ == lower_hex(bytes@),
{
    hex::encode(bytes)
}

/// A digest as the text under which a proof is stored.
pub open spec fn digest_text(digest: Seq<u8>) -> Seq<char> {
    seq!['0', 'x'] + lower_hex(digest)
}

/// The hash of a text: the digest of its UTF-8 bytes, as text.
pub open spec fn content_hash(content: Seq<char>) -> Seq<char> {
    digest_text(keccak256(encode_utf8(content)))
}

/// The hash of an email: that of sender, subject and body, one after the
/// other with nothing between them.
pub open spec fn email_hash(from: Seq<char>, subject: Seq<char>, body: Seq<char>) -> Seq<char> {
    content_hash(from + subject + body)
}

/// Writes a digest as text.
pub fn format_digest(digest: &[u8; 32]) -> (text: String)
    ensures
        text@ == digest_text(digest@),
{
    let digits = hex_encode(digest.as_slice());
    let text = String::from_str("0x").concat(digits.as_str());
    proof {
        reveal_strlit("0x");
        assert(text@ =~= digest_text(digest@));
    }
    text
}

/// The hash of a text.
pub fn hash_content(content: &str) -> (hash: String)
    ensures
        hash@ == content_hash(content@),
{
    let digest = keccak256_digest(content.as_bytes());
    format_digest(&digest)
}

/// The hash of an email with the given sender, subject and body.
pub fn compute_email_hash(from: &str, subject: &str, body: &str) -> (hash: String)
    ensures
        hash@ == email_hash(from@, subject@, body@),
{
    let content = String::from_str(from).concat(subject).concat(body);
    hash_content(content.as_str())
}

} // verus!
