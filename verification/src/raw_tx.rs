//! Transactions in the forms a caller may hold them, as hex text.

use vstd::prelude::*;
use bitcoincore_rpc_json::bitcoin::consensus::encode::serialize_hex;
use bitcoincore_rpc_json::bitcoin::hex::DisplayHex;
use bitcoincore_rpc_json::bitcoin::Transaction;

verus! {

#[verifier::external_type_specification]
#[verifier::external_body]
pub struct ExTransaction(bitcoincore_rpc_json::bitcoin::Transaction);

/// The lowercase hexadecimal digit of a value below sixteen.
pub open spec fn hex_digit(n: u8) -> char {
    seq!['0', '1', '2', '3', '4', '5', '6', '7', '8', '9', 'a', 'b', 'c', 'd', 'e', 'f'][n as int]
}

/// Lowercase hex text of a byte string: two digits per byte, the high
/// half first.
pub open spec fn lower_hex(bytes: Seq<u8>) -> Seq<char> {
    Seq::new(
        2 * bytes.len(),
        |i: int|
            if i % 2 == 0 {
                hex_digit(bytes[i / 2] / 16)
            } else {
                hex_digit(bytes[i / 2] % 16)
            },
    )
}

/// The consensus serialization of a transaction, as
/// `bitcoin::consensus::encode::serialize` produces it.
pub uninterp spec fn consensus_bytes(tx: Transaction) -> Seq<u8>;

/// Calls `DisplayHex::to_lower_hex_string` of `hex-conservative` on a byte
/// slice. The contract claims that the result is the lowercase hex text of
/// the bytes, two digits per byte. The call fails only if twice the length
/// overflows `usize`, which no slice can reach.
#[verifier::external_body]
fn lower_hex_string(bytes: &[u8]) -> (hex: String)
    ensures
        hex@ == lower_hex(bytes@),
{
    bytes.to_lower_hex_string()
}

/// Calls `bitcoin::consensus::encode::serialize_hex` on a transaction. The
/// contract claims that the result is the lowercase hex text of the
/// transaction's consensus serialization.
#[verifier::external_body]
fn transaction_hex(tx: &Transaction) -> (hex: String)
    ensures
        hex@ == lower_hex(consensus_bytes(*tx)),
{
    serialize_hex(tx)
}

/// Used to pass raw transactions into the API.
pub trait RawTx: Sized + Clone {
    /// The hex text that stands for this value on the wire.
    spec fn hex_view(self) -> Seq<char>;

    /// The transaction as hex text.
    fn raw_hex(self) -> (hex: String)
        ensures
            hex@ == self.hex_view(),
    ;
}

impl<'a> RawTx for &'a Transaction {
    open spec fn hex_view(self) -> Seq<char> {
        lower_hex(consensus_bytes(*self))
    }

    fn raw_hex(self) -> (hex: String) {
        transaction_hex(self)
    }
}

impl<'a> RawTx for &'a [u8] {
    open spec fn hex_view(self) -> Seq<char> {
        lower_hex(self@)
    }

    fn raw_hex(self) -> (hex: String) {
        lower_hex_string(self)
    }
}

impl<'a> RawTx for &'a Vec<u8> {
    open spec fn hex_view(self) -> Seq<char> {
        lower_hex(self@)
    }

    fn raw_hex(self) -> (hex: String) {
        lower_hex_string(self.as_slice())
    }
}

impl<'a> RawTx for &'a str {
    open spec fn hex_view(self) -> Seq<char> {
        self@
    }

    fn raw_hex(self) -> (hex: String) {
        self.to_owned()
    }
}

impl RawTx for String {
    open spec fn hex_view(self) -> Seq<char> {
        self@
    }

    fn raw_hex(self) -> (hex: String) {
        self
    }
}

/// Whatever form a transaction is handed over in, the same hex text goes
/// out: a byte slice, a byte vector with the same contents, the hex text of
/// those bytes as a string slice or an owned string, and a structured
/// transaction that serializes to those bytes all give one and the same
/// text.
pub proof fn lemma_same_bytes_same_hex(
    slice: &[u8],
    vec: &Vec<u8>,
    text: &str,
    owned: String,
    tx: &Transaction,
)
    requires
        vec@ == slice@,
        text@ == lower_hex(slice@),
        owned@ == text@,
        consensus_bytes(*tx) == slice@,
    ensures
        vec.hex_view() == slice.hex_view(),
        text.hex_view() == slice.hex_view(),
        owned.hex_view() == slice.hex_view(),
        tx.hex_view() == slice.hex_view(),
{
}

/// Hex text has two characters per byte, each a lowercase hex digit.
pub proof fn lemma_lower_hex_shape(bytes: Seq<u8>)
    ensures
        lower_hex(bytes).len() == 2 * bytes.len(),
        forall|i: int|
            0 <= i < lower_hex(bytes).len() ==> {
                let c = #[trigger] lower_hex(bytes)[i];
                ('0' <= c && c <= '9') || ('a' <= c && c <= 'f')
            },
{
    assert forall|i: int| 0 <= i < lower_hex(bytes).len() implies {
        let c = #[trigger] lower_hex(bytes)[i];
        ('0' <= c && c <= '9') || ('a' <= c && c <= 'f')
    } by {
        let b = bytes[i / 2];
        assert(0 <= b / 16 < 16);
        assert(0 <= b % 16 < 16);
    }
}

} // verus!
