//! Identifiers of stored records.

use mongodb::bson::oid::ObjectId;
use vstd::prelude::*;

verus! {

/// The identifier that the service gives a stored record: twelve bytes.
#[derive(Clone, Copy, Debug, PartialEq, Eq)]
pub struct RecordId {
    pub bytes: [u8; 12],
}

impl View for RecordId {
    type V = Seq<u8>;

    open spec fn view(&self) -> Seq<u8> {
        self.bytes@
    }
}

/// The sixteen digits of lower-case hexadecimal notation.
pub open spec fn hex_digits() -> Seq<char> {
    seq!['0', '1', '2', '3', '4', '5', '6', '7', '8', '9', 'a', 'b', 'c', 'd', 'e', 'f']
}

/// The digit at position `at` of the hexadecimal notation of `bytes`: the
/// high half of a byte comes before its low half.
pub open spec fn hex_digit_at(bytes: Seq<u8>, at: int) -> char {
    let byte = bytes[at / 2] as int;
    if at % 2 == 0 {
        hex_digits()[byte / 16]
    } else {
        hex_digits()[byte % 16]
    }
}

/// Lower-case hexadecimal notation: two digits for each byte.
pub open spec fn hex_text(bytes: Seq<u8>) -> Seq<char> {
    Seq::new(2 * bytes.len(), |at: int| hex_digit_at(bytes, at))
}

/// The identifier as the service writes it.
///
/// Calls `to_string` on a `bson::oid::ObjectId` made of the same bytes. The
/// contract claims that this is the lower-case hexadecimal notation of the
/// twelve bytes, 24 digits; it is not proved here.
#[verifier::external_body]
pub(crate) fn record_text(id: &RecordId) -> (text: String)
    ensures
        text@ == hex_text(id@),
{
    ObjectId::from_bytes(id.bytes).to_string()
}

} // verus!
