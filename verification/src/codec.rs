//! The wire encoding of calls between contracts, done by the
//! `parity-scale-codec` crate, which is reached through
//! `sails_rs::scale_codec`.
//!
//! The encoders are thin functions around `Encode::encode_to`; their
//! contracts spell out the bytes that the codec documents for the types
//! encoded here. Decoding a string is named, not spelled out: all that the
//! engine needs of it is what comes after the string.

use crate::actor::ActorId;
use crate::bytes::le_bytes;
use crate::u256::U256;
use sails_rs::scale_codec::{Decode, Encode};
use vstd::prelude::*;
use vstd::string::is_ascii;

verus! {

/// The encoding of an ASCII string of fewer than 64 characters: one byte
/// that holds four times the length, then the characters.
pub open spec fn short_string_encoding(s: Seq<char>) -> Seq<u8> {
    seq![(4 * s.len()) as u8] + Seq::new(s.len(), |i: int| s[i] as u8)
}

/// What is left of `input` after the encoding of a string at its front, or
/// `None` where no string can be decoded there.
pub uninterp spec fn scale_after_string(input: Seq<u8>) -> Option<Seq<u8>>;

/// The boolean that `input` begins with: a first byte of 0 is `false`, of 1
/// `true`; any other byte, and no byte at all, is none.
pub open spec fn leading_bool(input: Seq<u8>) -> Option<bool> {
    if input.len() == 0 {
        None
    } else if input[0] == 0 {
        Some(false)
    } else if input[0] == 1 {
        Some(true)
    } else {
        None
    }
}

/// Calls `Encode::encode_to` on a string, which appends the compact
/// encoding of its length in bytes and then its bytes. For an ASCII string
/// of fewer than 64 characters that is `short_string_encoding`.
#[verifier::external_body]
pub(crate) fn encode_str_to(s: &str, out: &mut Vec<u8>)
    requires
        is_ascii(s),
        s@.len() < 64,
    ensures
        final(out)@ == old(out)@ + short_string_encoding(s@),
{
    s.encode_to(out);
}

/// Calls `Encode::encode_to` on the pair of an account and an amount, which
/// appends the 32 bytes of the account and then the amount as 32
/// little-endian bytes.
#[verifier::external_body]
pub(crate) fn encode_account_amount_to(to: &ActorId, value: &U256, out: &mut Vec<u8>)
    ensures
        final(out)@ == old(out)@ + to.bytes@ + le_bytes(value.value(), 32),
{
    let value = sails_rs::U256([value.l0, value.l1, value.l2, value.l3]);
    (sails_rs::ActorId::new(to.bytes), value).encode_to(out);
}

/// Calls `Encode::encode_to` on the triple of two accounts and an amount,
/// which appends the 32 bytes of each account and then the amount as 32
/// little-endian bytes.
#[verifier::external_body]
pub(crate) fn encode_accounts_amount_to(
    from: &ActorId,
    to: &ActorId,
    value: &U256,
    out: &mut Vec<u8>,
)
    ensures
        final(out)@ == old(out)@ + from.bytes@ + to.bytes@ + le_bytes(value.value(), 32),
{
    let value = sails_rs::U256([value.l0, value.l1, value.l2, value.l3]);
    (sails_rs::ActorId::new(from.bytes), sails_rs::ActorId::new(to.bytes), value).encode_to(out);
}

/// Calls `Encode::encode_to` on the triple of two accounts and a token
/// identifier, which appends the 32 bytes of each account and then the
/// identifier as 8 little-endian bytes.
#[verifier::external_body]
pub(crate) fn encode_accounts_token_to(
    from: &ActorId,
    to: &ActorId,
    token_id: u64,
    out: &mut Vec<u8>,
)
    ensures
        final(out)@ == old(out)@ + from.bytes@ + to.bytes@ + le_bytes(token_id as nat, 8),
{
    (sails_rs::ActorId::new(from.bytes), sails_rs::ActorId::new(to.bytes), token_id).encode_to(out);
}

/// Calls `Decode::decode` for a `String` at the front of `input` and hands
/// back what the decoder left unread, or `None` where it failed.
#[verifier::external_body]
pub(crate) fn skip_string(input: &[u8]) -> (rest: Option<&[u8]>)
    ensures
        rest matches Some(r) ==> scale_after_string(input@) == Some(r@),
        rest is None ==> scale_after_string(input@) is None,
{
    let mut cursor = input;
    match String::decode(&mut cursor) {
        Ok(_) => Some(cursor),
        Err(_) => None,
    }
}

/// Calls `Decode::decode` for a `bool` at the front of `input`: one byte,
/// which must be 0 or 1.
#[verifier::external_body]
pub(crate) fn decode_bool(input: &[u8]) -> (value: Option<bool>)
    ensures
        value == leading_bool(input@),
{
    let mut cursor = input;
    bool::decode(&mut cursor).ok()
}

} // verus!
