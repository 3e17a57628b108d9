//! The chain database: blocks, the account state after each block, an index from block hash
//! to block number, and what each transaction left behind.
use vstd::prelude::*;
use crate::assoc::AssocMap;
use crate::ethcore::{
    Block, BlockState, Header, HeaderState, header_hash, is_default_header, keccak_empty_list_rlp_bytes,
    transaction_root, transactions_root_of, tx_hashes, txs_view,
};
use crate::primitives::{H160, H256, U256, all_zero_bytes};
use crate::rpc_types::{RpcBlock, RpcReceipt, represents_header};
use crate::state::{Accounts, Apply, ExitReason, Log, accounts_view, apply, apply_all, copy_accounts};
use crate::ethcore::AccountState;
use crate::transaction::{SignedTransaction, TransactionInfo, TransactionState, created_address, receiver_of};
use crate::rpc::{BlockNumber, best_of, number_for};

verus! {

/// `std::time::SystemTime::now` measured from `UNIX_EPOCH`, in whole seconds; none when the
/// clock reads before the epoch. Nothing is said of the value: it is the time.
#[verifier::external_body]
fn seconds_since_epoch() -> (r: Option<u64>) {
    std::time::SystemTime::now().duration_since(std::time::UNIX_EPOCH).ok().map(|d| d.as_secs())
}

/// Get unix epoch seconds; none when the clock reads before the epoch.
pub fn unix() -> (r: Option<u64>) {
    seconds_since_epoch()
}

/// `evm::Config`, the executor's settings for a hard fork.
#[verifier::external_type_specification]
#[verifier::external_body]
pub struct ExConfig(evm::Config);

/// `evm::Config::istanbul`: the executor's settings for the Istanbul hard fork. Nothing is
/// said of them: only the executor reads them.
#[verifier::external_body]
fn istanbul_config() -> evm::Config {
    evm::Config::istanbul()
}

/// The chain database.
pub struct HashMapEthDB {
    blocks: Vec<Block>,
    accounts: Vec<Accounts>,
    hash_index: AssocMap<H256, u64>,
    config: evm::Config,
    infos: AssocMap<H256, TransactionInfo>,
}

/// A transaction that is about to run: the block that will hold it, a copy of the state it
/// runs against, and what its record will say of the block before it.
pub struct PendingTx {
    /// The block that will hold the transaction.
    pub block: Block,
    /// The state it runs against; its effects go here.
    pub accounts: Accounts,
    /// The transaction.
    pub tx: SignedTransaction,
    /// State root of the block before it.
    pub post_state: H256,
    /// Hash of the block before it.
    pub parent_hash: H256,
}

/// What running a transaction gave.
pub struct Execution {
    /// How it ended.
    pub exit_reason: ExitReason,
    /// What a call returned; none for a creation.
    pub result: Option<Vec<u8>>,
    /// Its changes to the state.
    pub values: Vec<Apply>,
    /// Its logs.
    pub logs: Vec<Log>,
}

/// What a transaction runs against: the accounts it reads, its gas price and sender, and the
/// block that holds it.
pub struct EthDBBackend<'a> {
    pub accounts: &'a Accounts,
    pub gas_price: U256,
    pub sender: H160,
    pub block: &'a Block,
}

impl<'a> EthDBBackend<'a> {
    /// The gas price of the transaction.
    pub fn gas_price(&self) -> (r: U256)
        ensures
            r == self.gas_price,
    {
        self.gas_price
    }

    /// The sender of the transaction.
    pub fn origin(&self) -> (r: H160)
        ensures
            r == self.sender,
    {
        self.sender
    }

    /// The hash of a block by number: zero for every number.
    pub fn block_hash(&self, number: U256) -> (r: H256)
        ensures
            r.spec_is_zero(),
    {
        H256::zero()
    }

    /// The number of the block.
    pub fn block_number(&self) -> (r: U256)
        ensures
            r == U256::spec_from_u64(self.block.header.number),
    {
        U256::from_u64(self.block.header.number)
    }

    /// The author of the block.
    pub fn block_coinbase(&self) -> (r: H160)
        ensures
            r == self.block.header.author,
    {
        self.block.header.author
    }

    /// The timestamp of the block.
    pub fn block_timestamp(&self) -> (r: U256)
        ensures
            r == U256::spec_from_u64(self.block.header.timestamp),
    {
        U256::from_u64(self.block.header.timestamp)
    }

    /// The difficulty of the block.
    pub fn block_difficulty(&self) -> (r: U256)
        ensures
            r == self.block.header.difficulty,
    {
        self.block.header.difficulty
    }

    /// The gas limit of the block.
    pub fn block_gas_limit(&self) -> (r: U256)
        ensures
            r == self.block.header.gas_limit,
    {
        self.block.header.gas_limit
    }

    /// The chain id.
    pub fn chain_id(&self) -> (r: U256)
        ensures
            r == U256::spec_from_u64(crate::rpc::CHAIN_ID),
    {
        U256::from_u64(crate::rpc::CHAIN_ID)
    }

    /// Whether an account exists at `address`.
    pub fn account_exists(&self, address: H160) -> (r: bool)
        ensures
            r == self.accounts@.contains_key(address),
    {
        crate::state::account_exists(self.accounts, &address)
    }

    /// The balance and nonce at `address`; zero for a missing account.
    pub fn basic(&self, address: H160) -> (r: crate::state::Basic)
        ensures
            r.balance == crate::state::account_or_empty(accounts_view(self.accounts@), address).balance,
            r.nonce == crate::state::account_or_empty(accounts_view(self.accounts@), address).nonce,
    {
        crate::state::basic(self.accounts, &address)
    }

    /// The code at `address`; empty for a missing account.
    pub fn code(&self, address: H160) -> (r: Vec<u8>)
        ensures
            r@ == crate::state::account_or_empty(accounts_view(self.accounts@), address).code,
    {
        crate::state::code(self.accounts, &address)
    }

    /// The storage slot `index` at `address`; zero when the account or the slot is missing.
    pub fn storage(&self, address: H160, index: H256) -> (r: H256)
        ensures
            match crate::state::stored(accounts_view(self.accounts@), address, index) {
                Some(v) => r == v,
                None => r.spec_is_zero(),
            },
    {
        crate::state::storage(self.accounts, &address, &index)
    }

    /// The storage slot `index` at `address`, if the account and the slot exist.
    pub fn original_storage(&self, address: H160, index: H256) -> (r: Option<H256>)
        ensures
            r == crate::state::stored(accounts_view(self.accounts@), address, index),
    {
        crate::state::original_storage(self.accounts, &address, &index)
    }
}

/// Whether `b` is the block that follows a block with header `best` and holds `txs`: its parent
/// is that block, its number one more, its state and receipt roots the number, its
/// transactions root that of `txs`, its hash memoized; the other fields as in a default header,
/// but the timestamp, which is the time it was made.
pub open spec fn is_next_block(b: BlockState, best: HeaderState, txs: Seq<TransactionState>) -> bool {
    let h = b.header;
    &&& b.transactions == txs
    &&& b.uncles.len() == 0
    &&& h.parent_hash == header_hash(best)
    &&& h.number == best.number + 1
    &&& h.state_root.0@ == H256::spec_from_low_u64_be(h.number)
    &&& h.receipts_root.0@ == H256::spec_from_low_u64_be(h.number)
    &&& h.transactions_root == transactions_root_of(tx_hashes(txs))
    &&& all_zero_bytes(h.author.0@)
    &&& h.uncles_hash.0@ == keccak_empty_list_rlp_bytes()
    &&& h.extra_data.len() == 0
    &&& all_zero_bytes(h.log_bloom.0@)
    &&& h.gas_used == U256::spec_zero()
    &&& h.gas_limit == U256::spec_zero()
    &&& h.difficulty == U256::spec_zero()
    &&& h.hash == Some(header_hash(HeaderState { hash: None, ..h }))
}

impl HashMapEthDB {
    /// The blocks, oldest first.
    pub closed spec fn chain(&self) -> Seq<BlockState> {
        self.blocks@.map_values(|b: Block| b@)
    }

    /// The account state kept for each block, oldest first.
    pub closed spec fn states(&self) -> Seq<Map<H160, AccountState>> {
        self.accounts@.map_values(|a: Accounts| accounts_view(a@))
    }

    /// The block number of each indexed block hash.
    pub closed spec fn index(&self) -> Map<H256, u64> {
        self.hash_index@
    }

    /// The record of each transaction that ran, by transaction hash.
    pub closed spec fn infos(&self) -> Map<H256, TransactionInfo> {
        self.infos@
    }

    /// The database is well formed: it holds a block and a state; every block's hash is
    /// indexed, and every indexed hash is that of a block, mapped to its number; every record
    /// holds its transaction, and the hash of its block is indexed.
    pub closed spec fn wf(&self) -> bool {
        &&& self.blocks@.len() >= 1
        &&& self.accounts@.len() >= 1
        &&& forall|i: int|
            0 <= i < self.blocks@.len() ==> #[trigger] self.hash_index@.contains_key(
                header_hash(self.blocks@[i].header@),
            )
        &&& forall|k: H256|
            #[trigger] self.hash_index@.contains_key(k) ==> exists|i: int|
                0 <= i < self.blocks@.len() && header_hash(#[trigger] self.blocks@[i].header@) == k
                    && self.hash_index@[k] == self.blocks@[i].header.number
        &&& forall|k: H256|
            #[trigger] self.infos@.contains_key(k) ==> self.infos@[k].transaction is Some
                && self.hash_index@.contains_key(self.infos@[k].block_hash)
    }

    proof fn lemma_views(&self)
        ensures
            self.chain().len() == self.blocks@.len(),
            forall|i: int| 0 <= i < self.blocks@.len() ==> #[trigger] self.chain()[i] == self.blocks@[i]@,
            self.states().len() == self.accounts@.len(),
            forall|i: int| 0 <= i < self.accounts@.len() ==> #[trigger] self.states()[i] == accounts_view(self.accounts@[i]@),
    {
    }

    /// A database holding a genesis block made at `timestamp`, an empty state, and nothing
    /// else.
    pub fn new_at(timestamp: u64) -> (r: HashMapEthDB)
        ensures
            r.wf(),
            r.chain().len() == 1,
            r.states() == seq![Map::<H160, AccountState>::empty()],
            r.chain()[0].header.timestamp == timestamp,
            is_default_header(HeaderState { timestamp: 0, hash: None, ..r.chain()[0].header }),
            r.chain()[0].header.hash == Some(header_hash(HeaderState { hash: None, ..r.chain()[0].header })),
            r.chain()[0].transactions.len() == 0,
            r.chain()[0].uncles.len() == 0,
            r.index() == Map::<H256, u64>::empty().insert(header_hash(r.chain()[0].header), 0),
            r.infos() == Map::<H256, TransactionInfo>::empty(),
    {
        let mut h = Header::default();
        h.timestamp = timestamp;
        let ghost unhashed = h@;
        let hash = h.compute_hash();
        let g = Block { header: h, transactions: Vec::new(), uncles: Vec::new() };
        let mut blocks: Vec<Block> = Vec::new();
        blocks.push(g);
        let mut hash_index: AssocMap<H256, u64> = AssocMap::new();
        hash_index.insert(hash, 0);
        let mut accounts: Vec<Accounts> = Vec::new();
        accounts.push(AssocMap::new());
        let r = HashMapEthDB { blocks, accounts, hash_index, config: istanbul_config(), infos: AssocMap::new() };
        proof {
            assert(r.blocks@[0].header@ == HeaderState { hash: Some(hash), ..unhashed });
            assert(header_hash(r.blocks@[0].header@) == hash);
            assert(r.chain() =~= seq![r.blocks@[0]@]);
            assert(accounts_view(r.accounts@[0]@) =~= Map::<H160, AccountState>::empty());
            r.lemma_views();
            assert(r.states() =~= seq![Map::<H160, AccountState>::empty()]);
            assert(HeaderState { timestamp: 0, hash: None, ..r.chain()[0].header } == HeaderState { timestamp: 0, ..unhashed });
            assert(r.index() =~= Map::<H256, u64>::empty().insert(header_hash(r.chain()[0].header), 0));
            assert forall|k: H256| #[trigger] r.hash_index@.contains_key(k) implies exists|i: int|
                0 <= i < r.blocks@.len() && header_hash(#[trigger] r.blocks@[i].header@) == k
                    && r.hash_index@[k] == r.blocks@[i].header.number by {
                assert(header_hash(r.blocks@[0].header@) == k);
            }
        }
        r
    }

    /// A database holding a genesis block made now; none when the clock reads before the
    /// epoch.
    pub fn new() -> (r: Option<HashMapEthDB>)
        ensures
            r matches Some(db) ==> {
                &&& db.wf()
                &&& db.chain().len() == 1
                &&& db.states() == seq![Map::<H160, AccountState>::empty()]
                &&& is_default_header(HeaderState { timestamp: 0, hash: None, ..db.chain()[0].header })
                &&& db.chain()[0].header.hash == Some(header_hash(HeaderState { hash: None, ..db.chain()[0].header }))
                &&& db.chain()[0].transactions.len() == 0
                &&& db.chain()[0].uncles.len() == 0
                &&& db.index() == Map::<H256, u64>::empty().insert(header_hash(db.chain()[0].header), 0)
                &&& db.infos() == Map::<H256, TransactionInfo>::empty()
            },
    {
        match unix() {
            Some(t) => Some(HashMapEthDB::new_at(t)),
            None => None,
        }
    }

    /// The number of the best block: the position of the last one.
    pub fn best_number(&self) -> (r: u64)
        requires
            self.wf(),
        ensures
            r == self.chain().len() - 1,
    {
        proof {
            self.lemma_views();
        }
        (self.blocks.len() - 1) as u64
    }

    /// A copy of the best block.
    pub fn best_block(&self) -> (r: Block)
        requires
            self.wf(),
        ensures
            r@ == self.chain().last(),
    {
        proof {
            self.lemma_views();
        }
        self.blocks[self.blocks.len() - 1].duplicate()
    }

    /// The best block.
    pub fn last_block(&self) -> (r: &Block)
        requires
            self.wf(),
        ensures
            r@ == self.chain().last(),
    {
        proof {
            self.lemma_views();
        }
        &self.blocks[self.blocks.len() - 1]
    }

    /// The executor's settings that transactions run with.
    pub closed spec fn settings(&self) -> evm::Config {
        self.config
    }

    /// The executor's settings that transactions run with.
    pub fn config(&self) -> (r: &evm::Config)
        ensures
            *r == self.settings(),
    {
        &self.config
    }

    /// Block `n`, if there is one.
    pub fn block_at(&self, n: u64) -> (r: Option<&Block>)
        ensures
            match r {
                Some(b) => n < self.chain().len() && b@ == self.chain()[n as int],
                None => n >= self.chain().len(),
            },
    {
        proof {
            self.lemma_views();
        }
        if n < self.blocks.len() as u64 {
            Some(&self.blocks[n as usize])
        } else {
            None
        }
    }

    /// The state kept for block `n`, if there is one.
    pub fn state_at(&self, n: u64) -> (r: Option<&Accounts>)
        ensures
            match r {
                Some(a) => n < self.states().len() && accounts_view(a@) == self.states()[n as int],
                None => n >= self.states().len(),
            },
    {
        proof {
            self.lemma_views();
        }
        if n < self.accounts.len() as u64 {
            Some(&self.accounts[n as usize])
        } else {
            None
        }
    }

    /// The block number indexed under `hash`, if any.
    pub fn number_of(&self, hash: &H256) -> (r: Option<u64>)
        ensures
            match r {
                Some(n) => self.index().contains_key(*hash) && self.index()[*hash] == n,
                None => !self.index().contains_key(*hash),
            },
    {
        match self.hash_index.get(hash) {
            Some(n) => Some(*n),
            None => None,
        }
    }

    /// Appends a block and indexes its hash under its number.
    pub fn save_block(&mut self, block: Block)
        requires
            old(self).wf(),
        ensures
            final(self).wf(),
            final(self).settings() == old(self).settings(),
            final(self).chain() == old(self).chain().push(block@),
            final(self).states() == old(self).states(),
            final(self).index() == old(self).index().insert(header_hash(block.header@), block.header.number),
            final(self).infos() == old(self).infos(),
    {
        let ghost old_db = *self;
        let h = block.header.hash();
        let n = block.header.number;
        self.blocks.push(block);
        self.hash_index.insert(h, n);
        proof {
            old_db.lemma_views();
            self.lemma_views();
            assert(self.chain() =~= old_db.chain().push(block@));
            assert(self.states() =~= old_db.states());
            let len = self.blocks@.len();
            assert forall|i: int| 0 <= i < self.blocks@.len() implies #[trigger] self.hash_index@.contains_key(
                header_hash(self.blocks@[i].header@),
            ) by {
                if i < len - 1 {
                    assert(self.blocks@[i] == old_db.blocks@[i]);
                }
            }
            assert forall|k: H256| #[trigger] self.hash_index@.contains_key(k) implies exists|i: int|
                0 <= i < self.blocks@.len() && header_hash(#[trigger] self.blocks@[i].header@) == k
                    && self.hash_index@[k] == self.blocks@[i].header.number by {
                if k == h {
                    assert(header_hash(self.blocks@[len - 1].header@) == k);
                } else {
                    let i = choose|i: int|
                        0 <= i < old_db.blocks@.len() && header_hash(#[trigger] old_db.blocks@[i].header@) == k
                            && old_db.hash_index@[k] == old_db.blocks@[i].header.number;
                    assert(self.blocks@[i] == old_db.blocks@[i]);
                }
            }
        }
    }

    /// The block that follows the best block and holds `txs`, made at `timestamp`.
    pub fn new_block_at(&self, txs: Vec<SignedTransaction>, timestamp: u64) -> (r: Block)
        requires
            self.wf(),
            self.chain().last().header.number < u64::MAX,
        ensures
            is_next_block(r@, self.chain().last().header, txs_view(txs@)),
            r.header.timestamp == timestamp,
    {
        proof {
            self.lemma_views();
        }
        let best = &self.blocks[self.blocks.len() - 1];
        let mut h = Header::default();
        h.parent_hash = best.header.hash();
        h.number = best.header.number + 1;
        h.state_root = H256::from_low_u64_be(h.number);
        h.receipts_root = H256::from_low_u64_be(h.number);
        h.timestamp = timestamp;
        let mut b = Block { header: h, transactions: txs, uncles: Vec::new() };
        b.header.transactions_root = transaction_root(&b.transactions);
        let ghost unhashed = b.header@;
        b.header.compute_hash();
        proof {
            assert(HeaderState { hash: None, ..b.header@ } == unhashed);
            assert(b@.uncles =~= Seq::<HeaderState>::empty());
        }
        b
    }

    /// The block that follows the best block and holds `txs`, made now; none when the clock
    /// reads before the epoch.
    fn new_block(&self, txs: Vec<SignedTransaction>) -> (r: Option<Block>)
        requires
            self.wf(),
            self.chain().last().header.number < u64::MAX,
        ensures
            r matches Some(b) ==> is_next_block(b@, self.chain().last().header, txs_view(txs@)),
    {
        match unix() {
            Some(t) => Some(self.new_block_at(txs, t)),
            None => None,
        }
    }

    /// Readies `tx` to run in a new block made at `timestamp`, against a copy of the best
    /// state.
    pub fn prepare_tx_at(&self, tx: SignedTransaction, timestamp: u64) -> (r: PendingTx)
        requires
            self.wf(),
            self.chain().last().header.number < u64::MAX,
        ensures
            is_next_block(r.block@, self.chain().last().header, seq![tx@]),
            r.block.header.timestamp == timestamp,
            accounts_view(r.accounts@) == self.states().last(),
            r.tx@ == tx@,
            r.post_state == self.chain().last().header.state_root,
            r.parent_hash == header_hash(self.chain().last().header),
    {
        proof {
            self.lemma_views();
        }
        let mut txs: Vec<SignedTransaction> = Vec::new();
        txs.push(tx.duplicate());
        let block = self.new_block_at(txs, timestamp);
        let accounts = copy_accounts(&self.accounts[self.accounts.len() - 1]);
        let last = &self.blocks[self.blocks.len() - 1];
        let post_state = last.header.state_root;
        let parent_hash = last.header.hash();
        proof {
            assert(txs_view(txs@) =~= seq![tx@]);
        }
        PendingTx { block, accounts, tx, post_state, parent_hash }
    }

    /// Readies `tx` to run in a new block made now, against a copy of the best state; none
    /// when the clock reads before the epoch.
    pub fn prepare_tx(&self, tx: SignedTransaction) -> (r: Option<PendingTx>)
        requires
            self.wf(),
            self.chain().last().header.number < u64::MAX,
        ensures
            r matches Some(p) ==> {
                &&& is_next_block(p.block@, self.chain().last().header, seq![tx@])
                &&& accounts_view(p.accounts@) == self.states().last()
                &&& p.tx@ == tx@
                &&& p.post_state == self.chain().last().header.state_root
                &&& p.parent_hash == header_hash(self.chain().last().header)
            },
    {
        match unix() {
            Some(t) => Some(self.prepare_tx_at(tx, t)),
            None => None,
        }
    }

    /// Commits a transaction that ran, prepared against the best block and state: when it
    /// succeeded, its effects become the state of its
    /// block, the block is saved, and its record is kept under its hash; otherwise nothing
    /// changes and the transaction is refused.
    pub fn submit_tx(&mut self, pending: PendingTx, execution: Execution) -> (r: Result<(), &'static str>)
        requires
            old(self).wf(),
            is_next_block(pending.block@, old(self).chain().last().header, seq![pending.tx@]),
            accounts_view(pending.accounts@) == old(self).states().last(),
        ensures
            final(self).wf(),
            final(self).settings() == old(self).settings(),
            execution.exit_reason == ExitReason::Succeed ==> r is Ok && submitted(
                *old(self),
                *final(self),
                pending,
                execution,
            ),
            execution.exit_reason != ExitReason::Succeed ==> {
                &&& r == Err::<(), &'static str>("invalid transaction received")
                &&& final(self).chain() == old(self).chain()
                &&& final(self).states() == old(self).states()
                &&& final(self).index() == old(self).index()
                &&& final(self).infos() == old(self).infos()
            },
    {
        match execution.exit_reason {
            ExitReason::Succeed => {},
            _ => {
                return Err("invalid transaction received");
            },
        }
        let ghost old_db = *self;
        let PendingTx { block, accounts, tx, post_state, parent_hash } = pending;
        let Execution { exit_reason, result, values, logs } = execution;
        let mut accounts = accounts;
        let mut info = TransactionInfo::default();
        apply(&mut accounts, &mut info.logs, values, logs, false);
        info.post_state = post_state;
        info.parent_hash = parent_hash;
        info.block_hash = block.header.hash();
        info.index = 0;
        let tx_hash = tx.hash();
        info.transaction = Some(tx);
        info.result = result;
        self.accounts.push(accounts);
        proof {
            old_db.lemma_views();
            self.lemma_views();
            assert(self.states() =~= old_db.states().push(apply_all(accounts_view(pending.accounts@), execution.values@, false)));
            assert(self.chain() =~= old_db.chain());
        }
        self.save_block(block);
        let ghost mid = *self;
        self.infos.insert(tx_hash, info);
        proof {
            assert(self.infos() =~= mid.infos().insert(tx_hash, info));
            assert(self.infos().dom() =~= old_db.infos().dom().insert(tx_hash));
        }
        Ok(())
    }

    /// The receipt of the transaction with hash `hash`, if it ran.
    pub fn receipt(&self, hash: H256) -> (r: Option<RpcReceipt>)
        requires
            self.wf(),
        ensures
            !self.infos().contains_key(hash) ==> r is None,
            self.infos().contains_key(hash) ==> r is Some && is_receipt_of(
                r.unwrap(),
                hash,
                self.infos()[hash],
                self.index()[self.infos()[hash].block_hash],
                self.chain(),
            ),
    {
        proof {
            self.lemma_views();
        }
        match self.infos.get(&hash) {
            None => None,
            Some(info) => {
                let mut r = RpcReceipt::default();
                r.transaction_hash = Some(hash);
                r.transaction_index = Some(U256::from_u64(info.index));
                r.block_hash = Some(info.block_hash);
                let tx = match &info.transaction {
                    Some(t) => t,
                    None => {
                        return None;
                    },
                };
                r.from = Some(tx.sender());
                r.to = tx.receiver();
                let number = match self.hash_index.get(&info.block_hash) {
                    Some(n) => *n,
                    None => {
                        return None;
                    },
                };
                r.block_number = Some(U256::from_u64(number));
                r.contract_address = tx.contract_address();
                r.state_root = if number < self.blocks.len() as u64 {
                    Some(self.blocks[number as usize].header.state_root)
                } else {
                    None
                };
                r.status_code = Some(1);
                Some(r)
            },
        }
    }
}

/// Whether `new` is `old` after the transaction of `pending` ran with outcome `execution` and
/// was committed: the block is appended, the run's changes applied to the pending state make
/// the block's state, the block's hash is indexed under its number, and the transaction's
/// record is kept under its hash.
pub open spec fn submitted(old: HashMapEthDB, new: HashMapEthDB, pending: PendingTx, execution: Execution) -> bool {
    let h = pending.tx.tx_hash;
    &&& new.chain() == old.chain().push(pending.block@)
    &&& new.states() == old.states().push(apply_all(accounts_view(pending.accounts@), execution.values@, false))
    &&& new.index() == old.index().insert(header_hash(pending.block.header@), pending.block.header.number)
    &&& new.infos().dom() == old.infos().dom().insert(h)
    &&& forall|k: H256| k != h && #[trigger] old.infos().contains_key(k) ==> new.infos()[k] == old.infos()[k]
    &&& new.infos()[h].post_state == pending.post_state
    &&& new.infos()[h].parent_hash == pending.parent_hash
    &&& new.infos()[h].block_hash == header_hash(pending.block.header@)
    &&& new.infos()[h].index == 0
    &&& new.infos()[h].transaction == Some(pending.tx)
    &&& new.infos()[h].result == execution.result
    &&& new.infos()[h].logs@ == execution.logs@
}

/// Whether `r` is the receipt of the transaction with hash `hash` and record `info`, whose
/// block is indexed under number `n` in `chain`.
pub open spec fn is_receipt_of(r: RpcReceipt, hash: H256, info: TransactionInfo, n: u64, chain: Seq<BlockState>) -> bool {
    let tx = info.transaction.unwrap();
    &&& r.transaction_hash == Some(hash)
    &&& r.transaction_index == Some(U256::spec_from_u64(info.index))
    &&& r.block_hash == Some(info.block_hash)
    &&& r.from == Some(tx.signer)
    &&& r.to == receiver_of(tx.action)
    &&& r.block_number == Some(U256::spec_from_u64(n))
    &&& match tx.action {
        crate::ethcore::Action::Create => r.contract_address is Some && r.contract_address.unwrap().0@ == created_address(tx.signer, tx.nonce),
        crate::ethcore::Action::Call(_) => r.contract_address is None,
    }
    &&& r.state_root == (if n < chain.len() { Some(chain[n as int].header.state_root) } else { None::<H256> })
    &&& r.status_code == Some(1u64)
    &&& r.cumulative_gas_used == U256::spec_zero()
    &&& r.gas_used is None
    &&& r.logs@.len() == 0
    &&& all_zero_bytes(r.logs_bloom.0@)
}

} // verus!

verus! {

/// Every block's number is its position in the chain.
pub open spec fn numbered(chain: Seq<BlockState>) -> bool {
    forall|i: int| 0 <= i < chain.len() ==> #[trigger] chain[i].header.number == i
}

/// Committing a transaction prepared against the best block keeps every block numbered by
/// its position and a state for every block; the new best block is one further, follows the
/// old one, is named by its hash, and its state is the old best state with the run's changes.
pub proof fn law_submit_extends_chain(
    old: HashMapEthDB,
    new: HashMapEthDB,
    pending: PendingTx,
    execution: Execution,
    require_canonical: bool,
)
    requires
        old.wf(),
        numbered(old.chain()),
        old.states().len() == old.chain().len(),
        is_next_block(pending.block@, old.chain().last().header, seq![pending.tx@]),
        accounts_view(pending.accounts@) == old.states().last(),
        submitted(old, new, pending, execution),
    ensures
        numbered(new.chain()),
        new.states().len() == new.chain().len(),
        best_of(new) == best_of(old) + 1,
        new.chain().last().header.parent_hash == header_hash(old.chain().last().header),
        number_for(
            Some(BlockNumber::Hash { hash: header_hash(pending.block.header@), require_canonical }),
            best_of(new),
            new.index(),
        ) == Some(best_of(new)),
        number_for(None, best_of(new), new.index()) == Some(best_of(new)),
        new.states()[best_of(new) as int] == apply_all(old.states().last(), execution.values@, false),
{
    let n = old.chain().len() as int;
    assert(old.chain()[n - 1].header.number == n - 1);
    assert(new.chain()[n] == pending.block@);
    assert forall|i: int| 0 <= i < new.chain().len() implies #[trigger] new.chain()[i].header.number == i by {
        if i < n {
            assert(new.chain()[i] == old.chain()[i]);
        }
    }
}

/// The receipt of a transaction just committed names its sender, its receiver, its block by
/// hash and number, and the state root of that block.
pub proof fn law_receipt_after_submit(
    old: HashMapEthDB,
    new: HashMapEthDB,
    pending: PendingTx,
    execution: Execution,
    r: RpcReceipt,
)
    requires
        old.wf(),
        numbered(old.chain()),
        is_next_block(pending.block@, old.chain().last().header, seq![pending.tx@]),
        submitted(old, new, pending, execution),
        is_receipt_of(
            r,
            pending.tx.tx_hash,
            new.infos()[pending.tx.tx_hash],
            new.index()[new.infos()[pending.tx.tx_hash].block_hash],
            new.chain(),
        ),
    ensures
        new.infos().contains_key(pending.tx.tx_hash),
        r.transaction_hash == Some(pending.tx.tx_hash),
        r.from == Some(pending.tx.signer),
        r.to == receiver_of(pending.tx.action),
        r.block_hash == Some(header_hash(pending.block.header@)),
        r.block_number == Some(U256::spec_from_u64(pending.block.header.number)),
        r.state_root == Some(pending.block.header.state_root),
{
    let n = old.chain().len() as int;
    assert(old.chain()[n - 1].header.number == n - 1);
    assert(new.infos().dom().contains(pending.tx.tx_hash));
    assert(new.chain()[n] == pending.block@);
}

/// The chain is in order: block `i` is numbered `i`, there is a state for each block, and
/// each block's hash is indexed at its position.
pub open spec fn chain_in_order(db: HashMapEthDB) -> bool {
    &&& numbered(db.chain())
    &&& db.states().len() == db.chain().len()
    &&& forall|i: int|
        0 <= i < db.chain().len() ==> db.index().contains_key(header_hash(#[trigger] db.chain()[i].header))
            && db.index()[header_hash(db.chain()[i].header)] == i
}

/// No two blocks of the chain have the same hash.
pub open spec fn distinct_hashes(chain: Seq<BlockState>) -> bool {
    forall|i: int, j: int|
        0 <= i < j < chain.len() ==> header_hash(#[trigger] chain[i].header) != header_hash(
            #[trigger] chain[j].header,
        )
}

/// A fresh database is in order, and its one block's hash is distinct.
pub proof fn law_new_is_in_order(db: HashMapEthDB)
    requires
        db.chain().len() == 1,
        db.states().len() == 1,
        is_default_header(HeaderState { timestamp: 0, hash: None, ..db.chain()[0].header }),
        db.index() == Map::<H256, u64>::empty().insert(header_hash(db.chain()[0].header), 0),
    ensures
        chain_in_order(db),
        distinct_hashes(db.chain()),
{
}

/// Committing a transaction keeps the chain in order, if the new block's hash differs from
/// those of the blocks before it; and the hashes stay distinct.
pub proof fn law_submit_keeps_chain_in_order(
    old: HashMapEthDB,
    new: HashMapEthDB,
    pending: PendingTx,
    execution: Execution,
)
    requires
        old.wf(),
        chain_in_order(old),
        is_next_block(pending.block@, old.chain().last().header, seq![pending.tx@]),
        accounts_view(pending.accounts@) == old.states().last(),
        submitted(old, new, pending, execution),
        forall|i: int|
            0 <= i < old.chain().len() ==> header_hash(#[trigger] old.chain()[i].header) != header_hash(
                pending.block.header@,
            ),
    ensures
        chain_in_order(new),
        distinct_hashes(old.chain()) ==> distinct_hashes(new.chain()),
{
    let n = old.chain().len() as int;
    let h = header_hash(pending.block.header@);
    assert(old.chain()[n - 1].header.number == n - 1);
    assert(new.chain()[n] == pending.block@);
    assert forall|i: int| 0 <= i < new.chain().len() implies #[trigger] new.chain()[i].header.number == i by {
        if i < n {
            assert(new.chain()[i] == old.chain()[i]);
        }
    }
    assert forall|i: int| 0 <= i < new.chain().len() implies new.index().contains_key(
        header_hash(#[trigger] new.chain()[i].header),
    ) && new.index()[header_hash(new.chain()[i].header)] == i by {
        if i < n {
            assert(new.chain()[i] == old.chain()[i]);
            assert(header_hash(old.chain()[i].header) != h);
        }
    }
    if distinct_hashes(old.chain()) {
        assert forall|i: int, j: int| 0 <= i < j < new.chain().len() implies header_hash(
            #[trigger] new.chain()[i].header,
        ) != header_hash(#[trigger] new.chain()[j].header) by {
            assert(new.chain()[i] == old.chain()[i]);
            if j < n {
                assert(new.chain()[j] == old.chain()[j]);
            }
        }
    }
}

/// The RPC block of the block that follows `best` names `best`'s hash as its parent, its own
/// header's hash as its hash, and the number after `best`'s.
pub proof fn law_rpc_block_names_parent(
    b: RpcBlock,
    block: BlockState,
    best: HeaderState,
    txs: Seq<TransactionState>,
)
    requires
        is_next_block(block, best, txs),
        represents_header(b, block.header),
    ensures
        b.parent_hash == header_hash(best),
        b.hash == Some(header_hash(block.header)),
        b.number == Some(U256::spec_from_u64((best.number + 1) as u64)),
{
}

/// A receipt gives the block number indexed under the hash of the block that holds its
/// transaction.
pub proof fn law_receipt_number_is_indexed(db: HashMapEthDB, h: H256, r: RpcReceipt)
    requires
        db.wf(),
        db.infos().contains_key(h),
        is_receipt_of(r, h, db.infos()[h], db.index()[db.infos()[h].block_hash], db.chain()),
    ensures
        r.block_hash is Some,
        db.index().contains_key(r.block_hash.unwrap()),
        r.block_number == Some(U256::spec_from_u64(db.index()[r.block_hash.unwrap()])),
{
}

/// Committing a later transaction leaves the receipt of an earlier one as it was: the same
/// block hash and number, state root, sender, receiver, position and contract address.
pub proof fn law_receipt_survives_later_commits(
    old: HashMapEthDB,
    new: HashMapEthDB,
    pending: PendingTx,
    execution: Execution,
    h: H256,
    before: RpcReceipt,
    after: RpcReceipt,
)
    requires
        old.wf(),
        chain_in_order(old),
        old.infos().contains_key(h),
        h != pending.tx.tx_hash,
        header_hash(pending.block.header@) != old.infos()[h].block_hash,
        submitted(old, new, pending, execution),
        is_receipt_of(before, h, old.infos()[h], old.index()[old.infos()[h].block_hash], old.chain()),
        is_receipt_of(after, h, new.infos()[h], new.index()[new.infos()[h].block_hash], new.chain()),
    ensures
        after.block_hash == before.block_hash,
        after.block_number == before.block_number,
        after.state_root == before.state_root,
        after.from == before.from,
        after.to == before.to,
        after.transaction_index == before.transaction_index,
        after.contract_address == before.contract_address,
{
    broadcast use vstd::array::group_array_axioms;
    let info = old.infos()[h];
    let k = info.block_hash;
    assert(new.infos()[h] == info);
    assert(new.index()[k] == old.index()[k]);
    old.lemma_views();
    let i = choose|i: int|
        0 <= i < old.blocks@.len() && header_hash(#[trigger] old.blocks@[i].header@) == k
            && old.hash_index@[k] == old.blocks@[i].header.number;
    assert(old.chain()[i].header.number == i);
    let n = old.index()[k];
    assert(n < old.chain().len());
    assert(new.chain()[n as int] == old.chain()[n as int]);
    if before.contract_address is Some {
        assert(after.contract_address.unwrap().0 =~= before.contract_address.unwrap().0);
    }
}

} // verus!

