//! The byte form of the keys of a bond, as the Bluetooth host writes it.

use trouble_host::{IdentityResolvingKey, LongTermKey};
use vstd::prelude::*;

use crate::le::{le_bytes, le_value};

verus! {

/// Calls `LongTermKey::to_le_bytes` of `trouble_host` on the key `key`. Taken on
/// trust: the result is the sixteen bytes of the key, least significant first.
#[verifier::external_body]
pub(crate) fn ltk_to_le_bytes(key: u128) -> (bytes: [u8; 16])
    ensures
        bytes@ == le_bytes(key as nat, 16),
{
    LongTermKey(key).to_le_bytes()
}

/// Calls `LongTermKey::from_le_bytes` of `trouble_host`. Taken on trust: the key
/// is the number that the sixteen bytes stand for, least significant first.
#[verifier::external_body]
pub(crate) fn ltk_from_le_bytes(bytes: [u8; 16]) -> (key: u128)
    ensures
        key == le_value(bytes@),
{
    LongTermKey::from_le_bytes(bytes).0
}

/// Calls `IdentityResolvingKey::to_le_bytes` of `trouble_host` on the key `key`.
/// Taken on trust: the result is the sixteen bytes of the key, least significant
/// first.
#[verifier::external_body]
pub(crate) fn irk_to_le_bytes(key: u128) -> (bytes: [u8; 16])
    ensures
        bytes@ == le_bytes(key as nat, 16),
{
    IdentityResolvingKey(key).to_le_bytes()
}

/// Calls `IdentityResolvingKey::from_le_bytes` of `trouble_host`. Taken on trust:
/// the key is the number that the sixteen bytes stand for, least significant
/// first.
#[verifier::external_body]
pub(crate) fn irk_from_le_bytes(bytes: [u8; 16]) -> (key: u128)
    ensures
        key == le_value(bytes@),
{
    IdentityResolvingKey::from_le_bytes(bytes).0
}

} // verus!
