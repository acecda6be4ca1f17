//! Identifiers: the random 128-bit id of a submission, its text, and the
//! reservation ids that the relayer makes up.

use crate::encoding::hyphenated;
use crate::text::uppercase;
use vstd::prelude::*;
use vstd::string::*;

verus! {

/// What every random (version 4) UUID has: the version digit is 4 and the two
/// variant bits are `10`.
pub open spec fn is_random_uuid(id: u128) -> bool {
    (id >> 76) & 0xf == 4 && (id >> 62) & 0x3 == 2
}

/// `uuid::Uuid::new_v4`, handed out as the 128-bit number that
/// `Uuid::as_u128` gives. The bits are random but for version and variant,
/// which is all that the contract states. uuid panics where the operating
/// system gives it no random bytes.
#[verifier::external_body]
pub(crate) fn new_random_uuid() -> (id: u128)
    ensures
        is_random_uuid(id),
{
    uuid::Uuid::new_v4().as_u128()
}

/// The `Display` text of the `uuid::Uuid` that `Uuid::from_u128` makes of
/// `id`: its 32 lower-case hexadecimal digits, most significant first, with
/// hyphens after the 8th, 12th, 16th and 20th digit.
#[verifier::external_body]
fn uuid_text(id: u128) -> (text: String)
    ensures
        text@ == hyphenated(id),
{
    uuid::Uuid::from_u128(id).to_string()
}

/// The text of an id, under which its record is stored.
pub fn id_text(id: u128) -> (text: String)
    ensures
        text@ == hyphenated(id),
{
    uuid_text(id)
}

/// A made-up reservation id: a prefix and then the first eight digits of a
/// random id in upper case.
pub open spec fn synthetic_id(prefix: Seq<char>, nonce: u128) -> Seq<char> {
    prefix + uppercase(hyphenated(nonce).take(8))
}

/// A prefix with a code behind it.
pub fn prefixed(prefix: &str, code: &str) -> (id: String)
    ensures
        id@ == prefix@ + code@,
{
    String::from_str(prefix).concat(code)
}

/// Makes up a reservation id from a random id.
pub fn synthesize_id(prefix: &str, nonce: u128) -> (id: String)
    ensures
        id@ == synthetic_id(prefix@, nonce),
{
    let text = uuid_text(nonce);
    proof {
        crate::encoding::lemma_hyphenated_len(nonce);
    }
    let code = text.as_str().substring_char(0, 8).to_uppercase();
    prefixed(prefix, code.as_str())
}

} // verus!
