use parity_crypto::publickey::{sign, KeyPair, Message};
use rlp::RlpStream;
use tethereum::ethcore::Action;
use tethereum::primitives::{H160, U256};
use tethereum::rpc::EthClient;
use tethereum::signature::signature_parts;
use tethereum::transaction::{decode_unverified, signing_payload, SignatureError, SignedTransaction, TxDecodeError};

fn key() -> KeyPair {
    KeyPair::from_secret_slice(&[0x42; 32]).unwrap()
}

fn fields(s: &mut RlpStream, action: Option<[u8; 20]>) {
    s.append(&ethereum_types::U256::from(7u64));
    s.append(&ethereum_types::U256::from(1_000_000_000u64));
    s.append(&ethereum_types::U256::from(21_000u64));
    match action {
        Some(to) => {
            s.append(&ethereum_types::H160(to));
        }
        None => {
            s.append(&"");
        }
    }
    s.append(&ethereum_types::U256::from(5u64));
    s.append(&vec![1u8, 2, 3]);
}

fn signing_message(action: Option<[u8; 20]>, chain_id: Option<u64>) -> Vec<u8> {
    let mut s = RlpStream::new_list(if chain_id.is_some() { 9 } else { 6 });
    fields(&mut s, action);
    if let Some(id) = chain_id {
        s.append(&id);
        s.append(&0u8);
        s.append(&0u8);
    }
    s.out().to_vec()
}

fn raw_tx(action: Option<[u8; 20]>, chain_id: Option<u64>, v_override: Option<u64>) -> Vec<u8> {
    let msg = Message::from_slice(&keccak_hash::keccak(signing_message(action, chain_id)).0);
    let sig = sign(key().secret(), &msg).unwrap();
    let v = match (v_override, chain_id) {
        (Some(v), _) => v,
        (None, Some(id)) => 35 + 2 * id + sig.v() as u64,
        (None, None) => 27 + sig.v() as u64,
    };
    let mut t = RlpStream::new_list(9);
    fields(&mut t, action);
    t.append(&v);
    t.append(&ethereum_types::U256::from_big_endian(sig.r()));
    t.append(&ethereum_types::U256::from_big_endian(sig.s()));
    t.out().to_vec()
}

fn check_signed(s: &SignedTransaction, raw: &[u8], action: Action) {
    assert_eq!(s.sender().0, key().address().0);
    assert_eq!(s.hash().0, keccak_hash::keccak(raw).0);
    assert_eq!(s.nonce, U256::from_u64(7));
    assert_eq!(s.gas_price, U256::from_u64(1_000_000_000));
    assert_eq!(s.gas, U256::from_u64(21_000));
    assert_eq!(s.action, action);
    assert_eq!(s.value, U256::from_u64(5));
    assert_eq!(s.data, vec![1, 2, 3]);
}

#[test]
fn raw_transaction_recovers_sender_without_chain_id() {
    let raw = raw_tx(Some([0xbb; 20]), None, None);
    let s = EthClient::raw_transaction(&raw).unwrap();
    check_signed(&s, &raw, Action::Call(H160([0xbb; 20])));
}

#[test]
fn raw_transaction_recovers_sender_with_chain_id() {
    let raw = raw_tx(None, Some(127), None);
    let s = EthClient::raw_transaction(&raw).unwrap();
    check_signed(&s, &raw, Action::Create);
}

#[test]
fn raw_transaction_signed_for_another_chain_recovers_another_sender() {
    let mut raw = raw_tx(None, Some(127), None);
    let good = EthClient::raw_transaction(&raw).unwrap();
    // Claim chain 126 for a signature made for chain 127: the message differs.
    let t = decode_unverified(&raw).unwrap();
    let mut other = RlpStream::new_list(9);
    fields(&mut other, None);
    other.append(&(t.v - 2));
    other.append(&ethereum_types::U256(t.r.0));
    other.append(&ethereum_types::U256(t.s.0));
    raw = other.out().to_vec();
    match EthClient::raw_transaction(&raw) {
        Ok(s) => assert_ne!(s.sender().0, good.sender().0),
        Err(e) => assert_eq!(e, "verify transaction failed"),
    }
}

#[test]
fn raw_transaction_errors() {
    assert_eq!(
        EthClient::raw_transaction(&[0x05]).err(),
        Some("rpc error: parse raw transaction failed from rlp")
    );
    let raw = raw_tx(Some([0xbb; 20]), None, Some(30));
    assert_eq!(EthClient::raw_transaction(&raw).err(), Some("verify transaction failed"));
}

#[test]
fn decode_unverified_reads_fields() {
    let raw = raw_tx(Some([0xcc; 20]), None, None);
    let t = decode_unverified(&raw).unwrap();
    assert_eq!(t.nonce, U256::from_u64(7));
    assert_eq!(t.action, Action::Call(H160([0xcc; 20])));
    assert_eq!(t.data, vec![1, 2, 3]);
    assert!(t.v == 27 || t.v == 28);
    assert_eq!(t.hash.0, keccak_hash::keccak(&raw).0);
    assert_eq!(signing_payload(&t, None), signing_message(Some([0xcc; 20]), None));
    let u = decode_unverified(&raw_tx(None, Some(3), None)).unwrap();
    assert_eq!(signing_payload(&u, Some(3)), signing_message(None, Some(3)));
}

#[test]
fn decode_unverified_errors() {
    assert!(matches!(decode_unverified(&[0x05]), Err(TxDecodeError::Rlp(_))));
    let mut s = RlpStream::new_list(8);
    for _ in 0..8 {
        s.append(&1u8);
    }
    assert!(matches!(decode_unverified(&s.out()), Err(TxDecodeError::IncorrectListLen)));
    let mut s = RlpStream::new_list(9);
    s.append(&1u8);
    s.append(&1u8);
    s.append(&1u8);
    s.begin_list(0);
    for _ in 0..5 {
        s.append(&1u8);
    }
    assert!(matches!(decode_unverified(&s.out()), Err(TxDecodeError::ActionExpectedToBeData)));
    let mut s = RlpStream::new_list(9);
    s.append(&1u8);
    s.begin_list(0);
    for _ in 0..7 {
        s.append(&1u8);
    }
    assert!(matches!(decode_unverified(&s.out()), Err(TxDecodeError::Rlp(_))));
}

#[test]
fn bad_v_is_refused_before_recovery() {
    let raw = raw_tx(Some([0xbb; 20]), None, Some(29));
    let t = decode_unverified(&raw).unwrap();
    assert!(matches!(SignedTransaction::new(t), Err(SignatureError::InvalidV)));
}

#[test]
fn signature_parts_of_v() {
    assert_eq!(signature_parts(27), Some((0, None)));
    assert_eq!(signature_parts(28), Some((1, None)));
    assert_eq!(signature_parts(0), None);
    assert_eq!(signature_parts(29), None);
    assert_eq!(signature_parts(34), None);
    assert_eq!(signature_parts(35), Some((0, Some(0))));
    assert_eq!(signature_parts(36), Some((1, Some(0))));
    assert_eq!(signature_parts(35 + 2 * 127 + 1), Some((1, Some(127))));
}

#[test]
fn send_raw_result_returns_hash() {
    let h = tethereum::primitives::H256([3; 32]);
    assert_eq!(EthClient::send_raw_result(Ok(()), h), Ok(h));
    assert_eq!(
        EthClient::send_raw_result(Err("invalid transaction received"), h),
        Err("rpc error: invalid transaction received")
    );
}
