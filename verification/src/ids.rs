//! Identifier generation and formatting.
//!
//! User and token identifiers are 128-bit UUIDs; their canonical text form
//! is the hyphenated lower-case rendering.

use vstd::prelude::*;

verus! {

/// The hyphenated lower-case text form of a 128-bit identifier: a
/// deterministic function of the identifier.
pub uninterp spec fn uuid_str_of(id: u128) -> Seq<char>;

/// Relies on uuid's hyphenated formatting: 36 characters in the canonical
/// 8-4-4-4-12 layout, determined by the identifier alone.
#[verifier::external_body]
pub fn uuid_to_string(id: u128) -> (r: String)
    ensures
        r@ == uuid_str_of(id),
        r@.len() == 36,
{
    uuid::Uuid::from_u128(id).hyphenated().to_string()
}

/// Relies on uuid's v4 generation: a fresh random identifier; nothing is
/// promised of its value.
#[verifier::external_body]
pub fn random_uuid() -> (r: u128) {
    uuid::Uuid::new_v4().as_u128()
}

} // verus!
