use bitcoincore_rpc_json::bitcoin::absolute::LockTime;
use bitcoincore_rpc_json::bitcoin::consensus::encode::serialize;
use bitcoincore_rpc_json::bitcoin::transaction::Version;
use bitcoincore_rpc_json::bitcoin::{
    Amount, OutPoint, ScriptBuf, Sequence, Transaction, TxIn, TxOut, Witness,
};
use bitcoincore_rpc_sotatek::{Auth, RawTx};

fn sample_tx() -> Transaction {
    Transaction {
        version: Version::TWO,
        lock_time: LockTime::ZERO,
        input: vec![TxIn {
            previous_output: OutPoint::null(),
            script_sig: ScriptBuf::new(),
            sequence: Sequence::MAX,
            witness: Witness::new(),
        }],
        output: vec![TxOut {
            value: Amount::from_sat(1000),
            script_pubkey: ScriptBuf::new(),
        }],
    }
}

fn sample_tx_hex() -> String {
    let mut hex = String::new();
    hex.push_str("02000000");
    hex.push_str("01");
    hex.push_str(&"00".repeat(32));
    hex.push_str("ffffffff");
    hex.push_str("00");
    hex.push_str("ffffffff");
    hex.push_str("01");
    hex.push_str("e803000000000000");
    hex.push_str("00");
    hex.push_str("00000000");
    hex
}

#[test]
fn no_auth_gives_no_user_and_no_password() {
    assert_eq!(Auth::Anonymous.get_user_pass(), (None, None));
}

#[test]
fn user_pass_gives_both() {
    let auth = Auth::UserPass("alice".to_string(), "s3cret".to_string());
    assert_eq!(
        auth.get_user_pass(),
        (Some("alice".to_string()), Some("s3cret".to_string()))
    );
}

#[test]
fn user_pass_keeps_empty_strings() {
    let auth = Auth::UserPass(String::new(), String::new());
    assert_eq!(auth.get_user_pass(), (Some(String::new()), Some(String::new())));
}

#[test]
fn byte_slice_becomes_lowercase_hex() {
    let bytes: &[u8] = &[0x00, 0x0f, 0xa5, 0xff, 0x10, 0x9c];
    assert_eq!(bytes.raw_hex(), "000fa5ff109c");
}

#[test]
fn empty_byte_slice_becomes_empty_text() {
    let bytes: &[u8] = &[];
    assert_eq!(bytes.raw_hex(), "");
}

#[test]
fn byte_vector_becomes_lowercase_hex() {
    let bytes: Vec<u8> = vec![0xde, 0xad, 0xbe, 0xef, 0x01];
    assert_eq!((&bytes).raw_hex(), "deadbeef01");
}

#[test]
fn every_byte_gives_two_digits() {
    let bytes: Vec<u8> = (0u8..=255).collect();
    let hex = (&bytes).raw_hex();
    assert_eq!(hex.len(), 512);
    let digits = "0123456789abcdef".as_bytes();
    for (i, b) in bytes.iter().enumerate() {
        assert_eq!(hex.as_bytes()[2 * i], digits[(b / 16) as usize]);
        assert_eq!(hex.as_bytes()[2 * i + 1], digits[(b % 16) as usize]);
    }
}

#[test]
fn string_slice_passes_through() {
    assert_eq!("00ff".raw_hex(), "00ff");
    assert_eq!("Not Hex".raw_hex(), "Not Hex");
}

#[test]
fn owned_string_passes_through() {
    assert_eq!("c0ffee".to_string().raw_hex(), "c0ffee");
}

#[test]
fn transaction_becomes_hex_of_its_serialization() {
    let tx = sample_tx();
    assert_eq!((&tx).raw_hex(), sample_tx_hex());
}

#[test]
fn same_bytes_give_same_hex_in_every_form() {
    let tx = sample_tx();
    let bytes: Vec<u8> = serialize(&tx);
    let from_tx = (&tx).raw_hex();
    let from_slice = bytes.as_slice().raw_hex();
    let from_vec = (&bytes).raw_hex();
    let from_str = from_slice.as_str().raw_hex();
    let from_string = from_slice.clone().raw_hex();
    assert_eq!(from_tx, from_slice);
    assert_eq!(from_vec, from_slice);
    assert_eq!(from_str, from_slice);
    assert_eq!(from_string, from_slice);
    assert_eq!(from_slice.len(), 2 * bytes.len());
}
