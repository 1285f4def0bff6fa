//! Parsing base58 addresses and keypairs; malformed text is a bad request.
use vstd::prelude::*;

use crate::models::Status;
use crate::sdk::{address_text_of, decoded_address, decoded_keypair, parse_address, parse_keypair};

verus! {

/// The 32 bytes of a base58 address. Parsing round-trips: the base58 text of
/// the bytes is the text that was parsed.
pub fn parse_pubkey(s: &str) -> (r: Result<[u8; 32], Status>)
    ensures
        match decoded_address(s@) {
            Some(b) => r matches Ok(a) && a@ == b && address_text_of(b) == s@,
            None => r == Err::<[u8; 32], Status>(Status::BadRequest),
        },
{
    match parse_address(s) {
        Some(a) => Ok(a),
        None => Err(Status::BadRequest),
    }
}

/// The 64 bytes of a base58 keypair: secret seed, then its public key.
pub fn keypair_from_base58(s: &str) -> (r: Result<[u8; 64], Status>)
    ensures
        match decoded_keypair(s@) {
            Some(b) => r matches Ok(k) && k@ == b,
            None => r == Err::<[u8; 64], Status>(Status::BadRequest),
        },
{
    match parse_keypair(s) {
        Some(k) => Ok(k),
        None => Err(Status::BadRequest),
    }
}

} // verus!
