//! What came back for one call, and how it decodes.

use vstd::prelude::*;
use bitcoincore_rpc_json::bitcoin::Txid;

verus! {

#[verifier::external_type_specification]
#[verifier::external_body]
pub struct ExJsonError(serde_json::Error);

#[verifier::external_type_specification]
#[verifier::external_body]
pub struct ExTxid(bitcoincore_rpc_json::bitcoin::Txid);

/// The outcome of one HTTP round trip.
#[derive(Clone, Debug, PartialEq, Eq)]
pub enum Reply {
    /// The response body, as received.
    Body(Vec<u8>),
    /// No response: the request could not be sent, or the body not read.
    Unreachable,
}

/// Why a call gave no result.
#[derive(Clone, Copy, Debug, PartialEq, Eq, Structural)]
pub enum RpcError {
    /// The HTTP layer failed.
    Transport,
    /// The body is not JSON, or not JSON of the expected shape.
    Decode,
}

/// What `serde_json::from_slice::<u64>` makes of a response body: the
/// integer, or nothing where it reports an error.
pub uninterp spec fn json_u64(body: Seq<u8>) -> Option<u64>;

/// What `serde_json::from_slice::<Txid>` makes of a response body: the
/// transaction id, or nothing where it reports an error.
pub uninterp spec fn json_txid(body: Seq<u8>) -> Option<Txid>;

/// Calls `serde_json::from_slice` for a `u64`. The contract names the
/// outcome: it depends on the bytes alone.
#[verifier::external_body]
fn parse_u64(body: &[u8]) -> (parsed: Result<u64, serde_json::Error>)
    ensures
        match parsed {
            Ok(n) => json_u64(body@) == Some(n),
            Err(_) => json_u64(body@) is None,
        },
{
    serde_json::from_slice::<u64>(body)
}

/// Calls `serde_json::from_slice` for a `Txid`. The contract names the
/// outcome: it depends on the bytes alone.
#[verifier::external_body]
fn parse_txid(body: &[u8]) -> (parsed: Result<Txid, serde_json::Error>)
    ensures
        match parsed {
            Ok(id) => json_txid(body@) == Some(id),
            Err(_) => json_txid(body@) is None,
        },
{
    serde_json::from_slice::<Txid>(body)
}

/// A decoder's outcome with its failure tagged: the value where there is
/// one, a decode failure where there is none.
pub open spec fn tagged<T>(decoded: Option<T>) -> Result<T, RpcError> {
    match decoded {
        Some(v) => Ok(v),
        None => Err(RpcError::Decode),
    }
}

/// A result without the reason for its failure.
pub open spec fn kept<T>(result: Result<T, RpcError>) -> Option<T> {
    match result {
        Ok(v) => Some(v),
        Err(_) => None,
    }
}

/// What a reply holds when read as a block count: a transport failure
/// where there is no body, else what the body decodes to.
pub open spec fn block_count_in(reply: Reply) -> Result<u64, RpcError> {
    match reply {
        Reply::Unreachable => Err(RpcError::Transport),
        Reply::Body(b) => tagged(json_u64(b@)),
    }
}

/// What a reply holds when read as a transaction id: a transport failure
/// where there is no body, else what the body decodes to.
pub open spec fn txid_in(reply: Reply) -> Result<Txid, RpcError> {
    match reply {
        Reply::Unreachable => Err(RpcError::Transport),
        Reply::Body(b) => tagged(json_txid(b@)),
    }
}

/// Tag what a decoder returned: its value is kept, its error becomes
/// `RpcError::Decode`.
pub fn decoded<T>(parsed: Result<T, serde_json::Error>) -> (r: Result<T, RpcError>)
    ensures
        match parsed {
            Ok(v) => r == Ok::<T, RpcError>(v),
            Err(_) => r == Err::<T, RpcError>(RpcError::Decode),
        },
{
    match parsed {
        Ok(v) => Ok(v),
        Err(_) => Err(RpcError::Decode),
    }
}

/// Drop the reason for a failure: a value stays, any error becomes `None`.
pub fn collapse<T>(result: Result<T, RpcError>) -> (r: Option<T>)
    ensures
        r == kept(result),
{
    match result {
        Ok(v) => Some(v),
        Err(_) => None,
    }
}

/// Read a reply as a block count.
pub fn decode_block_count(reply: &Reply) -> (r: Result<u64, RpcError>)
    ensures
        r == block_count_in(*reply),
{
    match reply {
        Reply::Unreachable => Err(RpcError::Transport),
        Reply::Body(body) => decoded(parse_u64(body.as_slice())),
    }
}

/// Read a reply as a transaction id.
pub fn decode_txid(reply: &Reply) -> (r: Result<Txid, RpcError>)
    ensures
        r == txid_in(*reply),
{
    match reply {
        Reply::Unreachable => Err(RpcError::Transport),
        Reply::Body(body) => decoded(parse_txid(body.as_slice())),
    }
}

} // verus!
