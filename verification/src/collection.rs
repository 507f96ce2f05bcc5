//! The identifier of the badge collection.
//!
//! Whether an identifier is well formed is decided by
//! `multiversx_sc::types::TokenIdentifier`; the function at the end of this
//! file is the only place where that happens, and its contract is believed,
//! not proved.

use vstd::prelude::*;
use vstd::string::StringSliceAdditionalSpecFns;
use multiversx_sc::types::TokenIdentifier;
use multiversx_sc_scenario::api::StaticApi;
use crate::bytes::bytes_equal;

verus! {

/// The most bytes that a well-formed identifier has.
pub const MAX_IDENTIFIER_BYTES: usize = 17;

/// A capital letter or a digit.
pub open spec fn is_ticker_byte(byte: u8) -> bool {
    (0x41 <= byte <= 0x5a) || (0x30 <= byte <= 0x39)
}

/// A small letter or a digit.
pub open spec fn is_suffix_byte(byte: u8) -> bool {
    (0x61 <= byte <= 0x7a) || (0x30 <= byte <= 0x39)
}

/// A well-formed identifier of a token: a ticker of three to ten capital
/// letters and digits, a dash, and six small letters and digits.
pub open spec fn valid_esdt_identifier(id: Seq<u8>) -> bool {
    &&& 10 <= id.len() <= MAX_IDENTIFIER_BYTES
    &&& forall|i: int| 0 <= i < id.len() - 7 ==> is_ticker_byte(#[trigger] id[i])
    &&& id[id.len() - 7] == 0x2d
    &&& forall|i: int| id.len() - 6 <= i < id.len() ==> is_suffix_byte(#[trigger] id[i])
}

/// The identifier that stands for the native currency. It is well formed, and
/// names no collection.
pub open spec fn native_identifier() -> Seq<u8> {
    "EGLD-000000".spec_bytes()
}

/// Whether the identifier names a collection that badges can be issued in.
pub open spec fn collection_configured(id: Seq<u8>) -> bool {
    id != native_identifier() && valid_esdt_identifier(id)
}

/// Whether the identifier names a collection that badges can be issued in.
pub fn is_collection_configured(id: &[u8]) -> (answer: bool)
    ensures
        answer == collection_configured(id@),
{
    if id.len() > MAX_IDENTIFIER_BYTES || bytes_equal(id, "EGLD-000000".as_bytes()) {
        false
    } else {
        managed_valid_identifier(id)
    }
}

/// `TokenIdentifier::is_valid_esdt_identifier`, on the identifier made by
/// `TokenIdentifier::from_esdt_bytes`: whether the bytes are a well-formed
/// identifier. The identifier of the native currency is left out: no
/// `TokenIdentifier` can be made of it. So is every identifier that is longer
/// than a well-formed one: the length of a very long one is not read in full.
#[verifier::external_body]
pub(crate) fn managed_valid_identifier(id: &[u8]) -> (answer: bool)
    requires
        id@ != native_identifier(),
        id@.len() <= MAX_IDENTIFIER_BYTES,
    ensures
        answer == valid_esdt_identifier(id@),
{
    TokenIdentifier::<StaticApi>::from_esdt_bytes(id).is_valid_esdt_identifier()
}

} // verus!
