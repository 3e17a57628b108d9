use tethereum::ethcore::{Action, ActionDecodeError, Header, transaction_root};
use tethereum::primitives::{H160, H256, U256};
use tethereum::rpc::{EthClient, NetClient, Web3Client, CHAIN_ID};
use tethereum::rpc_types::Bytes;
use tethereum::state::{
    Accounts, Apply, Basic, Log, account_exists, apply, basic, code, copy_accounts,
    original_storage, storage,
};
use tethereum::transaction::{SignedTransaction, TransactionInfo};
use tethereum::assoc::AssocMap;

fn word(b: u8) -> H256 {
    H256([b; 32])
}

fn modify(a: H160, balance: u64, nonce: u64, code: Option<Vec<u8>>, writes: Vec<(H256, H256)>, reset: bool) -> Apply {
    Apply::Modify {
        address: a,
        basic: Basic { balance: U256::from_u64(balance), nonce: U256::from_u64(nonce) },
        code,
        storage: writes,
        reset_storage: reset,
    }
}

#[test]
fn apply_writes_and_clears_storage() {
    let a = H160([1; 20]);
    let mut accounts: Accounts = AssocMap::new();
    let mut logs: Vec<Log> = Vec::new();
    apply(&mut accounts, &mut logs, vec![modify(a, 1, 0, Some(vec![0x60]), vec![(word(1), word(2)), (word(3), word(4))], false)], vec![], false);
    assert_eq!(storage(&accounts, &a, &word(1)), word(2));
    assert_eq!(original_storage(&accounts, &a, &word(3)), Some(word(4)));
    apply(&mut accounts, &mut logs, vec![modify(a, 1, 1, None, vec![(word(1), H256::zero())], false)], vec![], false);
    assert_eq!(original_storage(&accounts, &a, &word(1)), None);
    assert_eq!(storage(&accounts, &a, &word(1)), H256::zero());
    assert_eq!(original_storage(&accounts, &a, &word(3)), Some(word(4)));
    assert_eq!(code(&accounts, &a), vec![0x60]);
    assert_eq!(basic(&accounts, &a).nonce, U256::from_u64(1));
}

#[test]
fn apply_reset_storage_drops_old_slots() {
    let a = H160([1; 20]);
    let mut accounts: Accounts = AssocMap::new();
    let mut logs: Vec<Log> = Vec::new();
    apply(&mut accounts, &mut logs, vec![modify(a, 1, 0, None, vec![(word(1), word(2))], false)], vec![], false);
    apply(&mut accounts, &mut logs, vec![modify(a, 1, 0, None, vec![(word(5), word(6))], true)], vec![], false);
    assert_eq!(original_storage(&accounts, &a, &word(1)), None);
    assert_eq!(original_storage(&accounts, &a, &word(5)), Some(word(6)));
}

#[test]
fn apply_later_write_wins() {
    let a = H160([1; 20]);
    let mut accounts: Accounts = AssocMap::new();
    let mut logs: Vec<Log> = Vec::new();
    apply(&mut accounts, &mut logs, vec![modify(a, 1, 0, None, vec![(word(1), word(2)), (word(1), word(9))], false)], vec![], false);
    assert_eq!(storage(&accounts, &a, &word(1)), word(9));
    apply(&mut accounts, &mut logs, vec![modify(a, 1, 0, None, vec![(word(1), word(2)), (word(1), H256::zero())], false)], vec![], false);
    assert_eq!(original_storage(&accounts, &a, &word(1)), None);
}

#[test]
fn apply_delete_empty() {
    let a = H160([1; 20]);
    let b = H160([2; 20]);
    let mut accounts: Accounts = AssocMap::new();
    let mut logs: Vec<Log> = Vec::new();
    apply(&mut accounts, &mut logs, vec![modify(a, 0, 0, None, vec![], false)], vec![], false);
    assert!(account_exists(&accounts, &a));
    apply(&mut accounts, &mut logs, vec![modify(b, 0, 0, None, vec![], false)], vec![], true);
    assert!(!account_exists(&accounts, &b));
    apply(&mut accounts, &mut logs, vec![modify(a, 0, 0, None, vec![], false)], vec![], true);
    assert!(!account_exists(&accounts, &a));
    apply(&mut accounts, &mut logs, vec![modify(b, 0, 0, Some(vec![1]), vec![], false)], vec![], true);
    assert!(account_exists(&accounts, &b));
}

#[test]
fn apply_delete_and_logs() {
    let a = H160([1; 20]);
    let mut accounts: Accounts = AssocMap::new();
    let mut logs: Vec<Log> = vec![Log { address: a, topics: vec![], data: vec![0] }];
    apply(
        &mut accounts,
        &mut logs,
        vec![modify(a, 3, 0, None, vec![], false), Apply::Delete { address: a }],
        vec![Log { address: a, topics: vec![word(1)], data: vec![1] }],
        false,
    );
    assert!(!account_exists(&accounts, &a));
    assert_eq!(basic(&accounts, &a).balance, U256::zero());
    assert!(code(&accounts, &a).is_empty());
    assert_eq!(logs.len(), 2);
    assert_eq!(logs[1].data, vec![1]);
}

#[test]
fn copied_accounts_are_independent() {
    let a = H160([1; 20]);
    let mut accounts: Accounts = AssocMap::new();
    let mut logs: Vec<Log> = Vec::new();
    apply(&mut accounts, &mut logs, vec![modify(a, 3, 0, None, vec![(word(1), word(1))], false)], vec![], false);
    let copy = copy_accounts(&accounts);
    apply(&mut accounts, &mut logs, vec![Apply::Delete { address: a }], vec![], false);
    assert_eq!(basic(&copy, &a).balance, U256::from_u64(3));
    assert_eq!(storage(&copy, &a, &word(1)), word(1));
}

#[test]
fn header_rlp_matches_rlp_stream() {
    let mut h = Header::default();
    h.number = 0x1234;
    h.timestamp = 99;
    h.gas_limit = U256::from_u64(8_000_000);
    h.extra_data = vec![0xab; 40];
    let mut s = rlp::RlpStream::new();
    s.begin_list(13);
    s.append(&ethereum_types::H256(h.parent_hash.0));
    s.append(&ethereum_types::H256(h.uncles_hash.0));
    s.append(&ethereum_types::H160(h.author.0));
    s.append(&ethereum_types::H256(h.state_root.0));
    s.append(&ethereum_types::H256(h.transactions_root.0));
    s.append(&ethereum_types::H256(h.receipts_root.0));
    s.append(&ethereum_types::Bloom(h.log_bloom.0));
    s.append(&ethereum_types::U256(h.difficulty.0));
    s.append(&h.number);
    s.append(&ethereum_types::U256(h.gas_limit.0));
    s.append(&ethereum_types::U256(h.gas_used.0));
    s.append(&h.timestamp);
    s.append(&h.extra_data);
    assert_eq!(h.rlp(), s.out().to_vec());
    let hash = h.hash();
    assert_eq!(hash.0, keccak_hash::keccak(&h.rlp()).0);
    assert_eq!(h.compute_hash(), hash);
    assert_eq!(h.hash, Some(hash));
    assert_eq!(h.hash(), hash);
}

#[test]
fn keccak_constants() {
    let h = Header::default();
    assert_eq!(h.transactions_root.0, keccak_hash::KECCAK_NULL_RLP.0);
    assert_eq!(h.state_root.0, keccak_hash::KECCAK_NULL_RLP.0);
    assert_eq!(h.receipts_root.0, keccak_hash::KECCAK_NULL_RLP.0);
    assert_eq!(h.uncles_hash.0, keccak_hash::KECCAK_EMPTY_LIST_RLP.0);
    let w = Web3Client;
    assert_eq!(w.sha3(Bytes::new(vec![0x80])).0, keccak_hash::KECCAK_NULL_RLP.0);
    assert_eq!(w.sha3(Bytes::new(vec![0xc0])).0, keccak_hash::KECCAK_EMPTY_LIST_RLP.0);
    assert_eq!(transaction_root(&vec![]).0, keccak_hash::KECCAK_EMPTY_LIST_RLP.0);
}

#[test]
fn transaction_root_hashes_the_list_of_hashes() {
    let t = SignedTransaction {
        nonce: U256::zero(),
        gas_price: U256::zero(),
        gas: U256::zero(),
        action: Action::Create,
        value: U256::zero(),
        data: vec![],
        signer: H160([0; 20]),
        tx_hash: word(7),
    };
    let mut s = rlp::RlpStream::new();
    s.begin_list(1);
    s.append(&ethereum_types::H256(word(7).0));
    assert_eq!(transaction_root(&vec![t]).0, keccak_hash::keccak(s.out()).0);
}

#[test]
fn action_encoding() {
    assert_eq!(Action::Create.rlp_bytes(), vec![0x80]);
    let a = H160([0x11; 20]);
    let mut expected = vec![0x94];
    expected.extend_from_slice(&[0x11; 20]);
    assert_eq!(Action::Call(a).rlp_bytes(), expected);
    assert_eq!(Action::default(), Action::Create);
}

#[test]
fn action_decoding() {
    assert_eq!(Action::decode(&[0x80]).unwrap(), Action::Create);
    let mut item = vec![0x94];
    item.extend_from_slice(&[0x22; 20]);
    assert_eq!(Action::decode(&item).unwrap(), Action::Call(H160([0x22; 20])));
    assert!(matches!(Action::decode(&[0xc0]), Err(ActionDecodeError::RlpExpectedToBeData)));
    assert!(matches!(Action::decode(&[0x83, 1, 2, 3]), Err(ActionDecodeError::Rlp(_))));
}

#[test]
fn action_round_trip() {
    for a in [Action::Create, Action::Call(H160([0x00; 20])), Action::Call(H160([0x5a; 20]))] {
        assert_eq!(Action::decode(&a.rlp_bytes()).unwrap(), a);
    }
}

#[test]
fn contract_address_of_creation() {
    let signer = H160([
        0x6a, 0xc7, 0xea, 0x33, 0xf8, 0x83, 0x1e, 0xa9, 0xdc, 0xc5, 0x33, 0x93, 0xaa, 0xa8, 0x8b,
        0x25, 0xa7, 0x85, 0xdb, 0xf0,
    ]);
    let mut t = SignedTransaction {
        nonce: U256::from_u64(1),
        gas_price: U256::zero(),
        gas: U256::zero(),
        action: Action::Create,
        value: U256::zero(),
        data: vec![],
        signer,
        tx_hash: word(7),
    };
    assert_eq!(
        t.contract_address(),
        Some(H160([
            0x34, 0x3c, 0x43, 0xa3, 0x7d, 0x37, 0xdf, 0xf0, 0x8a, 0xe8, 0xc4, 0xa1, 0x15, 0x44,
            0xc7, 0x18, 0xab, 0xb4, 0xfc, 0xf8,
        ]))
    );
    assert_eq!(t.receiver(), None);
    t.action = Action::Call(H160([9; 20]));
    assert_eq!(t.contract_address(), None);
    assert_eq!(t.receiver(), Some(H160([9; 20])));
    assert_eq!(t.sender(), signer);
    assert_eq!(t.hash(), word(7));
}

#[test]
fn transaction_info_default() {
    let i = TransactionInfo::default();
    assert_eq!(i.index, 0);
    assert!(i.transaction.is_none());
    assert!(i.logs.is_empty());
    assert_eq!(i.block_hash, H256::zero());
}

#[test]
fn clients_answer_constants() {
    let w = Web3Client;
    assert_eq!(w.client_version(), "tethereum v0.1; rust");
    assert_eq!(w.sha3(Bytes::new(vec![])).0, keccak_hash::KECCAK_EMPTY.0);
    let n = NetClient;
    assert_eq!(n.version(), CHAIN_ID.to_string());
    assert_eq!(n.version(), "127");
    assert_eq!(n.peer_count(), 0);
    assert!(!n.is_listening());
}

#[test]
fn eth_client_answers() {
    let db = tethereum::db::HashMapEthDB::new_at(0);
    let rt = tethereum::runtime::Runtime { eth_db: std::sync::Arc::new(std::sync::RwLock::new(db)) };
    let c = EthClient::new(rt.clone());
    assert!(std::sync::Arc::ptr_eq(&c.runtime().eth_db, &rt.eth_db));
    assert_eq!(c.protocol_version(), "tethereum");
    assert_eq!(c.author(), H160([0; 20]));
    assert!(c.is_mining());
    assert_eq!(c.chain_id(), Some(127));
    assert_eq!(c.gas_price(), U256::zero());
    assert!(c.accounts().is_empty());
    assert_eq!(c.hashrate(), U256::zero());
    assert!(!c.syncing());
}

#[test]
fn h256_from_low_u64() {
    let h = H256::from_low_u64_be(0x0102030405060708);
    assert_eq!(h.0, ethereum_types::H256::from_low_u64_be(0x0102030405060708).0);
    assert!(H256::zero().is_zero());
    assert!(!h.is_zero());
}

#[test]
fn u256_words() {
    assert_eq!(U256::from_u64(7).0, ethereum_types::U256::from(7u64).0);
    assert!(U256::zero().is_zero());
    assert!(!U256::from_u64(1).is_zero());
}
