//! Client order identifiers.
use vstd::prelude::*;
use crate::codec::hex_text;
use crate::order::ClientId;

verus! {

/// `256^n`.
pub open spec fn pow256(n: nat) -> int
    decreases n,
{
    if n == 0 {
        1
    } else {
        256 * pow256((n - 1) as nat)
    }
}

/// The sixteen bytes of an identifier, most significant first.
pub open spec fn id_bytes(id: int) -> Seq<u8> {
    Seq::new(16, |i: int| ((id / pow256((15 - i) as nat)) % 256) as u8)
}

/// The text of an identifier in the hyphenated notation of UUIDs: the 32
/// lower-case hexadecimal digits of its sixteen bytes, with hyphens after
/// the 8th, 12th, 16th and 20th digit.
pub open spec fn uuid_text(id: int) -> Seq<char> {
    let digits = hex_text(id_bytes(id));
    digits.subrange(0, 8) + "-"@ + digits.subrange(8, 12) + "-"@ + digits.subrange(12, 16) + "-"@
        + digits.subrange(16, 20) + "-"@ + digits.subrange(20, 32)
}

/// Draws a fresh identifier with `uuid::Uuid::new_v4` and returns its 128
/// bits (`Uuid::as_u128`). The identifier is random: nothing is claimed
/// about it. `Uuid::new_v4` gives up when the system has no randomness to
/// offer.
#[verifier::external_body]
pub(crate) fn fresh_client_id() -> (id: ClientId) {
    uuid::Uuid::new_v4().as_u128()
}

/// Prints the identifier as `uuid` does: `Uuid::from_u128`, which takes the
/// 128 bits as sixteen bytes, most significant first, followed by
/// `to_string`, which goes through the `Display` impl of `Uuid` and writes
/// the hyphenated lower-case notation ([`uuid_text`]).
#[verifier::external_body]
pub(crate) fn outside_uuid_text(id: ClientId) -> (s: String)
    ensures
        s@ == uuid_text(id as int),
{
    uuid::Uuid::from_u128(id).to_string()
}

/// The identifier in the hyphenated notation of UUIDs.
pub fn client_id_text(id: ClientId) -> (s: String)
    ensures
        s@ == uuid_text(id as int),
{
    outside_uuid_text(id)
}

} // verus!
