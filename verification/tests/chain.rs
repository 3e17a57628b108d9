use tethereum::db::{Execution, HashMapEthDB, unix};
use tethereum::ethcore::{Action, Block, Header, MemAccount, transaction_root};
use tethereum::primitives::{H160, H256, U256};
use tethereum::rpc::{BlockNumber, CallArgs, EthClient, EstimateArgs};
use tethereum::rpc_types::{Bytes, CallRequest, RpcBlock};
use tethereum::state::{Apply, Basic, ExitReason, Log, basic};
use tethereum::transaction::SignedTransaction;

fn addr(b: u8) -> H160 {
    H160([b; 20])
}

fn tx(hash: u8, action: Action) -> SignedTransaction {
    SignedTransaction {
        nonce: U256::from_u64(0),
        gas_price: U256::from_u64(1),
        gas: U256::from_u64(21000),
        action,
        value: U256::from_u64(5),
        data: vec![1, 2, 3],
        signer: addr(0xaa),
        tx_hash: H256([hash; 32]),
    }
}

fn credit(a: H160, balance: u64, nonce: u64) -> Apply {
    Apply::Modify {
        address: a,
        basic: Basic { balance: U256::from_u64(balance), nonce: U256::from_u64(nonce) },
        code: None,
        storage: vec![],
        reset_storage: false,
    }
}

fn succeed(values: Vec<Apply>) -> Execution {
    Execution {
        exit_reason: ExitReason::Succeed,
        result: Some(vec![9]),
        values,
        logs: vec![Log { address: addr(3), topics: vec![H256([4; 32])], data: vec![5] }],
    }
}

#[test]
fn genesis_database() {
    let db = HashMapEthDB::new_at(1234);
    assert_eq!(db.best_number(), 0);
    let g = db.best_block();
    assert_eq!(g.header.number, 0);
    assert_eq!(g.header.timestamp, 1234);
    assert_eq!(g.header.transactions_root.0, keccak_hash::KECCAK_NULL_RLP.0);
    assert_eq!(g.header.uncles_hash.0, keccak_hash::KECCAK_EMPTY_LIST_RLP.0);
    assert!(g.header.hash.is_some());
    assert_eq!(g.header.hash.unwrap().0, keccak_hash::keccak(&g.header.rlp()).0);
    assert!(db.state_at(0).is_some());
    assert!(db.state_at(1).is_none());
    assert_eq!(db.number_of(&g.header.hash.unwrap()), Some(0));
}

#[test]
fn new_uses_the_clock() {
    let before = unix().unwrap();
    let db = HashMapEthDB::new().unwrap();
    let after = unix().unwrap();
    let t = db.best_block().header.timestamp;
    assert!(before <= t && t <= after);
    assert!(before > 1_500_000_000);
}

#[test]
fn submit_extends_the_chain() {
    let mut db = HashMapEthDB::new_at(10);
    let genesis_hash = db.best_block().header.hash.unwrap();
    let t = tx(0x11, Action::Call(addr(0xbb)));
    let pending = db.prepare_tx_at(t, 20);
    assert_eq!(pending.block.header.number, 1);
    assert_eq!(pending.block.header.parent_hash, genesis_hash);
    assert_eq!(pending.block.header.timestamp, 20);
    assert_eq!(pending.block.header.state_root, H256::from_low_u64_be(1));
    assert_eq!(pending.block.header.receipts_root, H256::from_low_u64_be(1));
    assert_eq!(pending.block.header.transactions_root, transaction_root(&pending.block.transactions));
    let new_hash = pending.block.header.hash.unwrap();
    assert_eq!(db.submit_tx(pending, succeed(vec![credit(addr(0xbb), 50, 0)])), Ok(()));
    assert_eq!(db.best_number(), 1);
    let best = db.best_block();
    assert_eq!(best.header.hash(), new_hash);
    assert_eq!(best.header.parent_hash, genesis_hash);
    assert_eq!(best.transactions.len(), 1);
    assert_eq!(db.number_of(&new_hash), Some(1));
    assert_eq!(
        EthClient::parse_number(Some(BlockNumber::Hash { hash: new_hash, require_canonical: false }), &db),
        Ok(1)
    );
    assert_eq!(EthClient::balance(&db, addr(0xbb), None), Ok(U256::from_u64(50)));
    assert_eq!(EthClient::balance(&db, addr(0xbb), Some(BlockNumber::Earliest)), Ok(U256::zero()));
}

#[test]
fn failed_run_changes_nothing() {
    let mut db = HashMapEthDB::new_at(10);
    let pending = db.prepare_tx_at(tx(0x22, Action::Create), 11);
    let exec = Execution { exit_reason: ExitReason::Revert, result: None, values: vec![], logs: vec![] };
    assert_eq!(db.submit_tx(pending, exec), Err("invalid transaction received"));
    assert_eq!(db.best_number(), 0);
    assert!(db.receipt(H256([0x22; 32])).is_none());
    assert!(db.state_at(1).is_none());
}

#[test]
fn receipt_after_submit() {
    let mut db = HashMapEthDB::new_at(10);
    let t = tx(0x33, Action::Call(addr(0xbb)));
    let pending = db.prepare_tx_at(t, 12);
    let block_hash = pending.block.header.hash.unwrap();
    let state_root = pending.block.header.state_root;
    db.submit_tx(pending, succeed(vec![])).unwrap();
    let r = db.receipt(H256([0x33; 32])).unwrap();
    assert_eq!(r.transaction_hash, Some(H256([0x33; 32])));
    assert_eq!(r.transaction_index, Some(U256::zero()));
    assert_eq!(r.block_hash, Some(block_hash));
    assert_eq!(r.block_number, Some(U256::from_u64(1)));
    assert_eq!(r.from, Some(addr(0xaa)));
    assert_eq!(r.to, Some(addr(0xbb)));
    assert_eq!(r.contract_address, None);
    assert_eq!(r.state_root, Some(state_root));
    assert_eq!(r.status_code, Some(1));
    assert!(r.logs.is_empty());
    assert!(db.receipt(H256([0x34; 32])).is_none());
    assert!(EthClient::transaction_receipt(&db, H256([0x33; 32])).is_some());
}

#[test]
fn receipt_of_creation_names_the_contract() {
    let mut db = HashMapEthDB::new_at(10);
    let mut t = tx(0x44, Action::Create);
    t.signer = H160([
        0x6a, 0xc7, 0xea, 0x33, 0xf8, 0x83, 0x1e, 0xa9, 0xdc, 0xc5, 0x33, 0x93, 0xaa, 0xa8, 0x8b,
        0x25, 0xa7, 0x85, 0xdb, 0xf0,
    ]);
    let pending = db.prepare_tx_at(t, 12);
    db.submit_tx(pending, succeed(vec![])).unwrap();
    let r = db.receipt(H256([0x44; 32])).unwrap();
    assert_eq!(r.to, None);
    assert_eq!(
        r.contract_address,
        Some(H160([
            0xcd, 0x23, 0x4a, 0x47, 0x1b, 0x72, 0xba, 0x2f, 0x1c, 0xcf, 0x0a, 0x70, 0xfc, 0xab,
            0xa6, 0x48, 0xa5, 0xee, 0xcd, 0x8d,
        ]))
    );
}

#[test]
fn transaction_count_reads_nonce() {
    let mut db = HashMapEthDB::new_at(10);
    let pending = db.prepare_tx_at(tx(0x55, Action::Call(addr(0xbb))), 12);
    db.submit_tx(pending, succeed(vec![credit(addr(0xcc), 1, 7)])).unwrap();
    assert_eq!(EthClient::transaction_count(&db, addr(0xcc), None), Ok(U256::from_u64(7)));
    assert_eq!(EthClient::transaction_count(&db, addr(0xcc), Some(BlockNumber::Num(0))), Ok(U256::zero()));
    assert_eq!(EthClient::transaction_count(&db, addr(0xcc), Some(BlockNumber::Num(9))), Ok(U256::zero()));
    assert_eq!(
        EthClient::transaction_count(&db, addr(0xcc), Some(BlockNumber::Hash { hash: H256([9; 32]), require_canonical: true })),
        Err("parse number failed")
    );
}

#[test]
fn balance_errors() {
    let db = HashMapEthDB::new_at(10);
    assert_eq!(EthClient::balance(&db, addr(1), Some(BlockNumber::Num(3))), Err("invalid block number"));
    assert_eq!(
        EthClient::balance(&db, addr(1), Some(BlockNumber::Hash { hash: H256([9; 32]), require_canonical: false })),
        Err("parse block number failed")
    );
}

#[test]
fn parse_number_names() {
    let mut db = HashMapEthDB::new_at(10);
    let pending = db.prepare_tx_at(tx(0x66, Action::Create), 12);
    db.submit_tx(pending, succeed(vec![])).unwrap();
    assert_eq!(EthClient::parse_number(None, &db), Ok(1));
    assert_eq!(EthClient::parse_number(Some(BlockNumber::Latest), &db), Ok(1));
    assert_eq!(EthClient::parse_number(Some(BlockNumber::Pending), &db), Ok(1));
    assert_eq!(EthClient::parse_number(Some(BlockNumber::Earliest), &db), Ok(0));
    assert_eq!(EthClient::parse_number(Some(BlockNumber::Num(42)), &db), Ok(42));
    assert_eq!(
        EthClient::parse_number(Some(BlockNumber::Hash { hash: H256([1; 32]), require_canonical: false }), &db),
        Err("err")
    );
    assert_eq!(EthClient::block_number(&db), U256::from_u64(1));
}

#[test]
fn save_block_indexes_its_hash() {
    let mut db = HashMapEthDB::new_at(10);
    let mut b = Block::default();
    b.header.number = 7;
    let h = b.header.hash();
    db.save_block(b);
    assert_eq!(db.best_number(), 1);
    assert_eq!(db.number_of(&h), Some(7));
    assert_eq!(db.best_block().header.number, 7);
}

#[test]
fn block_by_number_gives_named_block() {
    let mut db = HashMapEthDB::new_at(10);
    let genesis_hash = db.best_block().header.hash.unwrap();
    let pending = db.prepare_tx_at(tx(0x11, Action::Call(addr(0xbb))), 20);
    let new_hash = pending.block.header.hash.unwrap();
    assert_eq!(db.submit_tx(pending, succeed(vec![])), Ok(()));

    let first = EthClient::block_by_number(&db, BlockNumber::Num(0), false).unwrap();
    assert_eq!(first.inner.hash, Some(genesis_hash));
    assert_eq!(first.inner.number, Some(U256::zero()));
    assert_eq!(first.inner.timestamp, U256::from_u64(10));
    assert!(first.extra_info.is_empty());
    assert_eq!(first.deref().miner, db.block_at(0).unwrap().header.author);

    let second = EthClient::block_by_number(&db, BlockNumber::Num(1), true).unwrap();
    assert_eq!(second.inner.hash, Some(new_hash));
    assert_eq!(second.inner.number, Some(U256::from_u64(1)));
    assert_eq!(second.inner.timestamp, U256::from_u64(20));

    let latest = EthClient::block_by_number(&db, BlockNumber::Latest, false).unwrap();
    assert_eq!(latest.inner.hash, Some(new_hash));
    let earliest = EthClient::block_by_number(&db, BlockNumber::Earliest, false).unwrap();
    assert_eq!(earliest.inner.hash, Some(genesis_hash));
    let by_hash = EthClient::block_by_number(
        &db,
        BlockNumber::Hash { hash: genesis_hash, require_canonical: true },
        false,
    )
    .unwrap();
    assert_eq!(by_hash.inner.number, Some(U256::zero()));

    assert!(EthClient::block_by_number(&db, BlockNumber::Num(2), false).is_none());
    assert!(EthClient::block_by_number(
        &db,
        BlockNumber::Hash { hash: H256([9; 32]), require_canonical: false },
        false
    )
    .is_none());
}

#[test]
fn rpc_block_of_header() {
    let mut h = Header::default();
    h.number = 3;
    h.extra_data = vec![1, 2];
    let b = RpcBlock::from_header(&h);
    assert_eq!(b.hash, Some(h.hash()));
    assert_eq!(b.number, Some(U256::from_u64(3)));
    assert_eq!(b.extra_data.0, vec![1, 2]);
    assert_eq!(b.size, Some(U256::from_u64(h.rlp().len() as u64)));
    assert!(b.seal_fields.is_empty());
    assert!(b.uncles.is_empty());
    assert_eq!(b.total_difficulty, None);
}

#[test]
fn call_args_rules() {
    let db = HashMapEthDB::new_at(10);
    let req = || CallRequest {
        from: None,
        to: Some(addr(5)),
        gas_price: None,
        gas: None,
        value: None,
        data: Some(Bytes::new(vec![1])),
        nonce: None,
    };
    let a: CallArgs = EthClient::call_args(req(), None, &db).ok().unwrap();
    assert_eq!(a.from, H160::zero());
    assert_eq!(a.to, addr(5));
    assert_eq!(a.number, 0);
    assert_eq!(a.data, vec![1]);
    let mut no_to = req();
    no_to.to = None;
    assert_eq!(EthClient::call_args(no_to, None, &db).err(), Some("missing contract address"));
    let bad = Some(BlockNumber::Hash { hash: H256([3; 32]), require_canonical: false });
    assert_eq!(EthClient::call_args(req(), bad, &db).err(), Some("parse number failed"));
    assert_eq!(EthClient::call_result(ExitReason::Succeed, vec![7]).ok().unwrap().0, vec![7]);
    assert_eq!(EthClient::call_result(ExitReason::Error, vec![7]).err(), Some("call failed"));
}

#[test]
fn estimate_args_defaults() {
    let db = HashMapEthDB::new_at(10);
    let req = CallRequest {
        from: Some(addr(6)),
        to: None,
        gas_price: None,
        gas: None,
        value: None,
        data: None,
        nonce: None,
    };
    let a: EstimateArgs = EthClient::estimate_args(req, Some(BlockNumber::Num(0)), &db).ok().unwrap();
    assert_eq!(a.from, addr(6));
    assert_eq!(a.value, U256::zero());
    assert_eq!(a.to, None);
    assert!(a.data.is_empty());
    assert_eq!(EthClient::estimate_result(21000), U256::from_u64(21000));
}

#[test]
fn mem_account_default_is_empty() {
    let a = MemAccount::default();
    assert_eq!(a.nonce, U256::zero());
    assert_eq!(a.balance, U256::zero());
    assert!(a.code.is_empty());
    assert_eq!(a.storage.len(), 0);
}

#[test]
fn backend_answers_from_state_and_block() {
    let mut db = HashMapEthDB::new_at(70);
    let pending = db.prepare_tx_at(tx(0x77, Action::Create), 77);
    db.submit_tx(
        pending,
        succeed(vec![Apply::Modify {
            address: addr(1),
            basic: Basic { balance: U256::from_u64(10), nonce: U256::from_u64(2) },
            code: Some(vec![0x60, 0x00]),
            storage: vec![(H256([1; 32]), H256([2; 32]))],
            reset_storage: false,
        }]),
    )
    .unwrap();
    let block = db.last_block();
    let backend = tethereum::db::EthDBBackend {
        accounts: db.state_at(1).unwrap(),
        gas_price: U256::from_u64(3),
        sender: addr(9),
        block,
    };
    assert_eq!(backend.gas_price(), U256::from_u64(3));
    assert_eq!(backend.origin(), addr(9));
    assert_eq!(backend.block_hash(U256::from_u64(0)), H256::zero());
    assert_eq!(backend.block_number(), U256::from_u64(1));
    assert_eq!(backend.block_timestamp(), U256::from_u64(77));
    assert_eq!(backend.block_coinbase(), H160::zero());
    assert_eq!(backend.block_difficulty(), U256::zero());
    assert_eq!(backend.block_gas_limit(), U256::zero());
    assert_eq!(backend.chain_id(), U256::from_u64(127));
    assert!(backend.account_exists(addr(1)));
    assert!(!backend.account_exists(addr(2)));
    assert_eq!(backend.basic(addr(1)).balance, U256::from_u64(10));
    assert_eq!(backend.basic(addr(1)).nonce, U256::from_u64(2));
    assert_eq!(backend.basic(addr(2)).balance, U256::zero());
    assert_eq!(backend.code(addr(1)), vec![0x60, 0x00]);
    assert!(backend.code(addr(2)).is_empty());
    assert_eq!(backend.storage(addr(1), H256([1; 32])), H256([2; 32]));
    assert_eq!(backend.storage(addr(1), H256([3; 32])), H256::zero());
    assert_eq!(backend.original_storage(addr(1), H256([1; 32])), Some(H256([2; 32])));
    assert_eq!(backend.original_storage(addr(2), H256([1; 32])), None);
}

#[test]
fn chain_stays_in_order() {
    let mut db = HashMapEthDB::new_at(1);
    for i in 0..3u8 {
        let pending = db.prepare_tx_at(tx(0x30 + i, Action::Call(addr(i))), 2 + i as u64);
        assert_eq!(db.submit_tx(pending, succeed(vec![credit(addr(i), 1, 0)])), Ok(()));
    }
    assert_eq!(db.best_number(), 3);
    for n in 0..4u64 {
        let b = db.block_at(n).unwrap();
        assert_eq!(b.header.number, n);
        assert_eq!(db.number_of(&b.header.hash()), Some(n));
        assert!(db.state_at(n).is_some());
    }
    assert!(db.block_at(4).is_none());
    assert!(db.state_at(4).is_none());
}
