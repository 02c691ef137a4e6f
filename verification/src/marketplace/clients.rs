//! The messages that the engine sends to the token and to the NFT ledger,
//! and the replies it reads.
//!
//! A message is the route of the service, the route of the method and the
//! arguments as one tuple, each in the codec's encoding. A reply repeats the
//! two routes and ends with the boolean that the method returned.

use crate::actor::ActorId;
use crate::bytes::le_bytes;
use crate::codec::{
    decode_bool, encode_accounts_amount_to, encode_accounts_token_to, encode_account_amount_to,
    encode_str_to, leading_bool, scale_after_string, short_string_encoding, skip_string,
};
use crate::marketplace::{Call, Reply};
use crate::u256::U256;
use vstd::prelude::*;
use vstd::string::is_ascii;

verus! {

/// Which part of a reply could not be read.
#[derive(Clone, Copy, Debug, PartialEq, Eq, Structural)]
pub enum ReplyError {
    /// The route of the service.
    ServiceRoute,
    /// The route of the method.
    MethodRoute,
    /// The result.
    Result,
}

/// The message `Line/Transfer(to, value)`.
pub open spec fn line_transfer_message(to: ActorId, value: U256) -> Seq<u8> {
    short_string_encoding("Line"@) + short_string_encoding("Transfer"@) + to.bytes@ + le_bytes(
        value.value(),
        32,
    )
}

/// The message `Line/TransferFrom(from, to, value)`.
pub open spec fn line_transfer_from_message(from: ActorId, to: ActorId, value: U256) -> Seq<u8> {
    short_string_encoding("Line"@) + short_string_encoding("TransferFrom"@) + from.bytes@
        + to.bytes@ + le_bytes(value.value(), 32)
}

/// The message `Nft/TransferFrom(from, to, token_id)`.
pub open spec fn nft_transfer_from_message(from: ActorId, to: ActorId, token_id: u64) -> Seq<u8> {
    short_string_encoding("Nft"@) + short_string_encoding("TransferFrom"@) + from.bytes@
        + to.bytes@ + le_bytes(token_id as nat, 8)
}

/// What is read out of the end of a reply: the boolean that it begins with.
pub open spec fn result_of(rest: Seq<u8>) -> Result<bool, ReplyError> {
    match leading_bool(rest) {
        Some(b) => Ok(b),
        None => Err(ReplyError::Result),
    }
}

/// What is read out of a reply: the two routes are skipped, then comes the
/// result.
pub open spec fn reply_of(reply_bytes: Seq<u8>) -> Result<bool, ReplyError> {
    match scale_after_string(reply_bytes) {
        None => Err(ReplyError::ServiceRoute),
        Some(after_service) => match scale_after_string(after_service) {
            None => Err(ReplyError::MethodRoute),
            Some(after_method) => result_of(after_method),
        },
    }
}

/// Starts a message with the routes of `service` and `method`.
fn routes(service: &str, method: &str) -> (r: Vec<u8>)
    requires
        is_ascii(service),
        service@.len() < 64,
        is_ascii(method),
        method@.len() < 64,
    ensures
        r@ == short_string_encoding(service@) + short_string_encoding(method@),
{
    let mut payload: Vec<u8> = Vec::new();
    encode_str_to(service, &mut payload);
    encode_str_to(method, &mut payload);
    payload
}

/// Reads the result that a reply ends with, after its two routes.
pub fn decode_result(rest: &[u8]) -> (r: Result<bool, ReplyError>)
    ensures
        r == result_of(rest@),
{
    match decode_bool(rest) {
        Some(b) => Ok(b),
        None => Err(ReplyError::Result),
    }
}

/// Reads a reply: skips the route of the service and the route of the
/// method, then reads the result. Bytes after the result are ignored.
pub fn decode_reply(reply_bytes: &[u8]) -> (r: Result<bool, ReplyError>)
    ensures
        r == reply_of(reply_bytes@),
{
    let after_service = match skip_string(reply_bytes) {
        Some(rest) => rest,
        None => {
            return Err(ReplyError::ServiceRoute);
        },
    };
    let after_method = match skip_string(after_service) {
        Some(rest) => rest,
        None => {
            return Err(ReplyError::MethodRoute);
        },
    };
    decode_result(after_method)
}

/// The client of the fungible token.
pub struct LineClient {
    program_id: ActorId,
}

impl LineClient {
    /// The token that the client talks to.
    pub closed spec fn spec_program_id(&self) -> ActorId {
        self.program_id
    }

    /// A client of the token `program_id`.
    pub fn new(program_id: ActorId) -> (r: LineClient)
        ensures
            r.spec_program_id() == program_id,
    {
        LineClient { program_id }
    }

    /// The token that the client talks to.
    #[verifier::when_used_as_spec(spec_program_id)]
    pub fn program_id(&self) -> (r: ActorId)
        ensures
            r == self.spec_program_id(),
    {
        self.program_id
    }

    /// The message that asks the token to transfer `value` from the sender
    /// of the message to `to`.
    pub fn transfer(&self, to: ActorId, value: U256) -> (r: Vec<u8>)
        ensures
            r@ == line_transfer_message(to, value),
    {
        proof {
            reveal_strlit("Line");
            reveal_strlit("Transfer");
        }
        let mut payload = routes("Line", "Transfer");
        encode_account_amount_to(&to, &value, &mut payload);
        payload
    }

    /// The message that asks the token to transfer `value` from `from` to
    /// `to` on the allowance of the sender of the message.
    pub fn transfer_from(&self, from: ActorId, to: ActorId, value: U256) -> (r: Vec<u8>)
        ensures
            r@ == line_transfer_from_message(from, to, value),
    {
        proof {
            reveal_strlit("Line");
            reveal_strlit("TransferFrom");
        }
        let mut payload = routes("Line", "TransferFrom");
        encode_accounts_amount_to(&from, &to, &value, &mut payload);
        payload
    }

    /// Reads the reply of the token.
    pub fn decode_reply(reply_bytes: &[u8]) -> (r: Result<bool, ReplyError>)
        ensures
            r == reply_of(reply_bytes@),
    {
        decode_reply(reply_bytes)
    }
}

/// The client of an NFT ledger.
pub struct NftClient {
    program_id: ActorId,
}

impl NftClient {
    /// The ledger that the client talks to.
    pub closed spec fn spec_program_id(&self) -> ActorId {
        self.program_id
    }

    /// A client of the ledger `program_id`.
    pub fn new(program_id: ActorId) -> (r: NftClient)
        ensures
            r.spec_program_id() == program_id,
    {
        NftClient { program_id }
    }

    /// The ledger that the client talks to.
    #[verifier::when_used_as_spec(spec_program_id)]
    pub fn program_id(&self) -> (r: ActorId)
        ensures
            r == self.spec_program_id(),
    {
        self.program_id
    }

    /// The message that asks the ledger to move `token_id` from `from` to
    /// `to`.
    pub fn transfer_from(&self, from: ActorId, to: ActorId, token_id: u64) -> (r: Vec<u8>)
        ensures
            r@ == nft_transfer_from_message(from, to, token_id),
    {
        proof {
            reveal_strlit("Nft");
            reveal_strlit("TransferFrom");
        }
        let mut payload = routes("Nft", "TransferFrom");
        encode_accounts_token_to(&from, &to, token_id, &mut payload);
        payload
    }

    /// Reads the reply of the ledger.
    pub fn decode_reply(reply_bytes: &[u8]) -> (r: Result<bool, ReplyError>)
        ensures
            r == reply_of(reply_bytes@),
    {
        decode_reply(reply_bytes)
    }
}

impl Call {
    /// The contract that the call is addressed to.
    pub open spec fn destination(self) -> ActorId {
        match self {
            Call::NftTransferFrom { nft_program_id, .. } => nft_program_id,
            Call::LineTransfer { line_program_id, .. } => line_program_id,
            Call::LineTransferFrom { line_program_id, .. } => line_program_id,
        }
    }

    /// The message that makes the call.
    pub open spec fn message(self) -> Seq<u8> {
        match self {
            Call::NftTransferFrom { from, to, token_id, .. } => nft_transfer_from_message(
                from,
                to,
                token_id,
            ),
            Call::LineTransfer { to, value, .. } => line_transfer_message(to, value),
            Call::LineTransferFrom { from, to, value, .. } => line_transfer_from_message(
                from,
                to,
                value,
            ),
        }
    }

    /// Where to send which bytes to make the call.
    pub fn request(&self) -> (r: (ActorId, Vec<u8>))
        ensures
            r.0 == self.destination(),
            r.1@ == self.message(),
    {
        match self {
            Call::NftTransferFrom { nft_program_id, from, to, token_id } => {
                let client = NftClient::new(*nft_program_id);
                (client.program_id(), client.transfer_from(*from, *to, *token_id))
            },
            Call::LineTransfer { line_program_id, to, value } => {
                let client = LineClient::new(*line_program_id);
                (client.program_id(), client.transfer(*to, *value))
            },
            Call::LineTransferFrom { line_program_id, from, to, value } => {
                let client = LineClient::new(*line_program_id);
                (client.program_id(), client.transfer_from(*from, *to, *value))
            },
        }
    }
}

impl Reply {
    /// How a call ended, given what came back: `None` where the message
    /// could not be sent or no reply came, else the bytes of the reply. A
    /// reply that cannot be read counts as a failure.
    pub open spec fn spec_from_response(response: Option<Seq<u8>>) -> Reply {
        match response {
            None => Reply::Failed,
            Some(bytes) => match reply_of(bytes) {
                Ok(true) => Reply::Accepted,
                Ok(false) => Reply::Declined,
                Err(_) => Reply::Failed,
            },
        }
    }

    /// How a call ended, given what came back.
    pub fn from_response(response: Option<&[u8]>) -> (r: Reply)
        ensures
            r == Reply::spec_from_response(
                match response {
                    Some(bytes) => Some(bytes@),
                    None => None,
                },
            ),
    {
        match response {
            None => Reply::Failed,
            Some(bytes) => match decode_reply(bytes) {
                Ok(true) => Reply::Accepted,
                Ok(false) => Reply::Declined,
                Err(_) => Reply::Failed,
            },
        }
    }
}

} // verus!
