//! Accounts, blocks and headers of the chain.
use vstd::prelude::*;
use crate::assoc::AssocMap;
use crate::hashing::{
    concat_items, keccak, keccak_of, keccak_empty_list_rlp, keccak_null_rlp, rlp_decode_address,
    rlp_decoded_address, rlp_encode_bytes, rlp_encode_list, rlp_encode_u256, rlp_encode_u64,
    rlp_is_data, rlp_is_empty, rlp_of_bytes, rlp_of_list, rlp_of_u256, rlp_of_u64,
};
use crate::primitives::{Bloom, H160, H256, U256, all_zero_bytes};
use crate::transaction::{SignedTransaction, TransactionState};

verus! {

/// What an account holds, as mathematical values.
pub struct AccountState {
    pub nonce: U256,
    pub balance: U256,
    pub storage: Map<H256, H256>,
    pub code: Seq<u8>,
}

/// An account: nonce, balance, storage and code.
#[derive(Clone, Debug)]
pub struct MemAccount {
    /// Account nonce.
    pub nonce: U256,
    /// Account balance.
    pub balance: U256,
    /// Full account storage.
    pub storage: AssocMap<H256, H256>,
    /// Account code.
    pub code: Vec<u8>,
}

impl View for MemAccount {
    type V = AccountState;

    open spec fn view(&self) -> AccountState {
        AccountState {
            nonce: self.nonce,
            balance: self.balance,
            storage: self.storage@,
            code: self.code@,
        }
    }
}

/// The account that a missing one reads as: zero nonce and balance, no storage, no code.
pub open spec fn empty_account_state() -> AccountState {
    AccountState {
        nonce: U256::spec_zero(),
        balance: U256::spec_zero(),
        storage: Map::empty(),
        code: Seq::empty(),
    }
}

impl Default for MemAccount {
    fn default() -> (r: MemAccount)
        ensures
            r@ == empty_account_state(),
    {
        MemAccount {
            nonce: U256::zero(),
            balance: U256::zero(),
            storage: AssocMap::new(),
            code: Vec::new(),
        }
    }
}

impl MemAccount {
    /// A copy of this account.
    pub fn duplicate(&self) -> (r: MemAccount)
        ensures
            r@ == self@,
    {
        MemAccount {
            nonce: self.nonce,
            balance: self.balance,
            storage: self.storage.copied(),
            code: self.code.clone(),
        }
    }
}

/// Transaction action type.
#[derive(Clone, Copy, Debug, PartialEq, Eq)]
pub enum Action {
    /// Create creates new contract.
    Create,
    /// Calls contract at given address.
    /// In the case of a transfer, this is the receiver's address.
    Call(H160),
}

impl Default for Action {
    fn default() -> (r: Action)
        ensures
            r == Action::Create,
    {
        Action::Create
    }
}

/// The RLP encoding of an action: empty data (`0x80`) for a creation, the 20 address bytes
/// after `0x94` for a call.
pub open spec fn action_rlp(a: Action) -> Seq<u8> {
    match a {
        Action::Create => seq![0x80u8],
        Action::Call(addr) => seq![0x94u8] + addr.0@,
    }
}

/// Why an action could not be decoded.
#[derive(Debug)]
pub enum ActionDecodeError {
    /// The item is an empty list.
    RlpExpectedToBeData,
    /// The item does not decode to an address.
    Rlp(rlp::DecoderError),
}

/// What an RLP item decodes to as an action: empty data is a creation, an empty list is
/// refused, anything else is a call to the address it decodes to.
pub open spec fn decoded_action(item: Seq<u8>) -> Option<Action> {
    if item.len() > 0 && (item[0] == 0x80u8 || item[0] == 0xc0u8) {
        if item[0] < 0xc0u8 {
            Some(Action::Create)
        } else {
            None
        }
    } else {
        match rlp_decoded_address(item) {
            Some(addr) => Some(Action::Call(addr)),
            None => None,
        }
    }
}

impl Action {
    /// The RLP encoding of this action.
    pub fn rlp_bytes(&self) -> (r: Vec<u8>)
        ensures
            r@ == action_rlp(*self),
    {
        match self {
            Action::Create => {
                let empty: Vec<u8> = Vec::new();
                let r = rlp_encode_bytes(empty.as_slice());
                proof {
                    assert(seq![0x80u8] + empty@ =~= seq![0x80u8]);
                }
                r
            },
            Action::Call(addr) => rlp_encode_bytes(addr.0.as_slice()),
        }
    }

    /// Decodes an action from an RLP item.
    pub fn decode(item: &[u8]) -> (r: Result<Action, ActionDecodeError>)
        ensures
            match r {
                Ok(a) => decoded_action(item@) == Some(a),
                Err(_) => decoded_action(item@) is None,
            },
            r matches Err(ActionDecodeError::RlpExpectedToBeData) <==> (item@.len() > 0 && item@[0]
                == 0xc0u8),
            forall|a: Action| #[trigger] action_rlp(a) == item@ ==> (r matches Ok(x) && x == a),
    {
        proof {
            broadcast use vstd::array::group_array_axioms;
        }
        if rlp_is_empty(item) {
            if rlp_is_data(item) {
                Ok(Action::Create)
            } else {
                Err(ActionDecodeError::RlpExpectedToBeData)
            }
        } else {
            match rlp_decode_address(item) {
                Ok(addr) => {
                    proof {
                        assert forall|a: Action| #[trigger] action_rlp(a) == item@ implies a == Action::Call(addr) by {
                            if let Action::Call(b) = a {
                                assert(item@.subrange(1, 21) =~= b.0@);
                                assert(addr.0 =~= b.0);
                            }
                        }
                    }
                    Ok(Action::Call(addr))
                },
                Err(e) => Err(ActionDecodeError::Rlp(e)),
            }
        }
    }
}

/// A block header.
#[derive(Debug, Clone, PartialEq)]
pub struct Header {
    /// Parent hash.
    pub parent_hash: H256,
    /// Block timestamp.
    pub timestamp: u64,
    /// Block number.
    pub number: u64,
    /// Block author.
    pub author: H160,
    /// Transactions root.
    pub transactions_root: H256,
    /// Block uncles hash.
    pub uncles_hash: H256,
    /// Block extra data.
    pub extra_data: Vec<u8>,
    /// State root.
    pub state_root: H256,
    /// Block receipts root.
    pub receipts_root: H256,
    /// Block bloom.
    pub log_bloom: Bloom,
    /// Gas used for contracts execution.
    pub gas_used: U256,
    /// Block gas limit.
    pub gas_limit: U256,
    /// Block difficulty.
    pub difficulty: U256,
    /// Memoized hash of that header.
    pub hash: Option<H256>,
}

/// A header as mathematical values.
pub struct HeaderState {
    pub parent_hash: H256,
    pub timestamp: u64,
    pub number: u64,
    pub author: H160,
    pub transactions_root: H256,
    pub uncles_hash: H256,
    pub extra_data: Seq<u8>,
    pub state_root: H256,
    pub receipts_root: H256,
    pub log_bloom: Bloom,
    pub gas_used: U256,
    pub gas_limit: U256,
    pub difficulty: U256,
    pub hash: Option<H256>,
}

impl View for Header {
    type V = HeaderState;

    open spec fn view(&self) -> HeaderState {
        HeaderState {
            parent_hash: self.parent_hash,
            timestamp: self.timestamp,
            number: self.number,
            author: self.author,
            transactions_root: self.transactions_root,
            uncles_hash: self.uncles_hash,
            extra_data: self.extra_data@,
            state_root: self.state_root,
            receipts_root: self.receipts_root,
            log_bloom: self.log_bloom,
            gas_used: self.gas_used,
            gas_limit: self.gas_limit,
            difficulty: self.difficulty,
            hash: self.hash,
        }
    }
}

/// The RLP encodings of the thirteen header fields, in the order the header is encoded.
pub open spec fn header_rlp_items(h: HeaderState) -> Seq<Seq<u8>> {
    seq![
        rlp_of_bytes(h.parent_hash.0@),
        rlp_of_bytes(h.uncles_hash.0@),
        rlp_of_bytes(h.author.0@),
        rlp_of_bytes(h.state_root.0@),
        rlp_of_bytes(h.transactions_root.0@),
        rlp_of_bytes(h.receipts_root.0@),
        rlp_of_bytes(h.log_bloom.0@),
        rlp_of_u256(h.difficulty),
        rlp_of_u64(h.number),
        rlp_of_u256(h.gas_limit),
        rlp_of_u256(h.gas_used),
        rlp_of_u64(h.timestamp),
        rlp_of_bytes(h.extra_data),
    ]
}

/// The RLP encoding of a header: the list of its thirteen fields.
pub open spec fn header_rlp(h: HeaderState) -> Seq<u8> {
    rlp_of_list(header_rlp_items(h))
}

/// The hash of a header: the memoized one if there is one, else the digest of its encoding.
pub open spec fn header_hash(h: HeaderState) -> H256 {
    match h.hash {
        Some(x) => x,
        None => keccak_of(header_rlp(h)),
    }
}

/// The bytes of the digest of the RLP encoding of empty data.
pub open spec fn keccak_null_rlp_bytes() -> Seq<u8> {
    seq![
        0x56u8, 0xe8, 0x1f, 0x17, 0x1b, 0xcc, 0x55, 0xa6, 0xff, 0x83, 0x45, 0xe6, 0x92, 0xc0, 0xf8,
        0x6e, 0x5b, 0x48, 0xe0, 0x1b, 0x99, 0x6c, 0xad, 0xc0, 0x01, 0x62, 0x2f, 0xb5, 0xe3, 0x63,
        0xb4, 0x21,
    ]
}

/// The bytes of the digest of the RLP encoding of an empty list.
pub open spec fn keccak_empty_list_rlp_bytes() -> Seq<u8> {
    seq![
        0x1du8, 0xcc, 0x4d, 0xe8, 0xde, 0xc7, 0x5d, 0x7a, 0xab, 0x85, 0xb5, 0x67, 0xb6, 0xcc, 0xd4,
        0x1a, 0xd3, 0x12, 0x45, 0x1b, 0x94, 0x8a, 0x74, 0x13, 0xf0, 0xa1, 0x42, 0xfd, 0x40, 0xd4,
        0x93, 0x47,
    ]
}

/// The header that `Header::default` gives.
pub open spec fn is_default_header(h: HeaderState) -> bool {
    &&& all_zero_bytes(h.parent_hash.0@)
    &&& h.timestamp == 0
    &&& h.number == 0
    &&& all_zero_bytes(h.author.0@)
    &&& h.transactions_root.0@ == keccak_null_rlp_bytes()
    &&& h.uncles_hash.0@ == keccak_empty_list_rlp_bytes()
    &&& h.extra_data.len() == 0
    &&& h.state_root.0@ == keccak_null_rlp_bytes()
    &&& h.receipts_root.0@ == keccak_null_rlp_bytes()
    &&& all_zero_bytes(h.log_bloom.0@)
    &&& h.gas_used == U256::spec_zero()
    &&& h.gas_limit == U256::spec_zero()
    &&& h.difficulty == U256::spec_zero()
    &&& h.hash is None
}

impl Default for Header {
    fn default() -> (r: Header)
        ensures
            is_default_header(r@),
    {
        Header {
            parent_hash: H256::zero(),
            timestamp: 0,
            number: 0,
            author: H160::zero(),
            transactions_root: keccak_null_rlp(),
            uncles_hash: keccak_empty_list_rlp(),
            extra_data: Vec::new(),
            state_root: keccak_null_rlp(),
            receipts_root: keccak_null_rlp(),
            log_bloom: Bloom::zero(),
            gas_used: U256::zero(),
            gas_limit: U256::zero(),
            difficulty: U256::zero(),
            hash: None,
        }
    }
}

impl Header {
    /// The RLP encoding of this header.
    pub fn rlp(&self) -> (r: Vec<u8>)
        ensures
            r@ == header_rlp(self@),
    {
        let mut items: Vec<Vec<u8>> = Vec::new();
        items.push(rlp_encode_bytes(self.parent_hash.0.as_slice()));
        items.push(rlp_encode_bytes(self.uncles_hash.0.as_slice()));
        items.push(rlp_encode_bytes(self.author.0.as_slice()));
        items.push(rlp_encode_bytes(self.state_root.0.as_slice()));
        items.push(rlp_encode_bytes(self.transactions_root.0.as_slice()));
        items.push(rlp_encode_bytes(self.receipts_root.0.as_slice()));
        items.push(rlp_encode_bytes(self.log_bloom.0.as_slice()));
        items.push(rlp_encode_u256(self.difficulty));
        items.push(rlp_encode_u64(self.number));
        items.push(rlp_encode_u256(self.gas_limit));
        items.push(rlp_encode_u256(self.gas_used));
        items.push(rlp_encode_u64(self.timestamp));
        items.push(rlp_encode_bytes(self.extra_data.as_slice()));
        proof {
            assert(items@.map_values(|v: Vec<u8>| v@) =~= header_rlp_items(self@));
        }
        rlp_encode_list(&items)
    }

    /// Get & memoize the hash of this header (keccak of the RLP).
    pub fn compute_hash(&mut self) -> (r: H256)
        ensures
            r == header_hash(old(self)@),
            *final(self) == (Header { hash: Some(r), ..*old(self) }),
    {
        let hash = self.hash();
        self.hash = Some(hash);
        hash
    }

    /// Get the hash of this header (keccak of the RLP).
    pub fn hash(&self) -> (r: H256)
        ensures
            r == header_hash(self@),
    {
        match self.hash {
            Some(h) => h,
            None => keccak(self.rlp().as_slice()),
        }
    }

    /// A copy of this header.
    pub fn duplicate(&self) -> (r: Header)
        ensures
            r@ == self@,
    {
        Header {
            parent_hash: self.parent_hash,
            timestamp: self.timestamp,
            number: self.number,
            author: self.author,
            transactions_root: self.transactions_root,
            uncles_hash: self.uncles_hash,
            extra_data: self.extra_data.clone(),
            state_root: self.state_root,
            receipts_root: self.receipts_root,
            log_bloom: self.log_bloom,
            gas_used: self.gas_used,
            gas_limit: self.gas_limit,
            difficulty: self.difficulty,
            hash: self.hash,
        }
    }
}

/// The root of a list of transactions: the digest of the RLP list of their hashes.
pub open spec fn transactions_root_of(hashes: Seq<H256>) -> H256 {
    keccak_of(rlp_of_list(hashes.map_values(|h: H256| rlp_of_bytes(h.0@))))
}

/// The hashes of a sequence of transactions.
pub open spec fn tx_hashes(txs: Seq<TransactionState>) -> Seq<H256> {
    txs.map_values(|t: TransactionState| t.tx_hash)
}

/// The transactions of a vector as mathematical values.
pub open spec fn txs_view(txs: Seq<SignedTransaction>) -> Seq<TransactionState> {
    txs.map_values(|t: SignedTransaction| t@)
}

/// The root of the transactions: keccak of the RLP list of their hashes.
pub fn transaction_root(txs: &Vec<SignedTransaction>) -> (r: H256)
    ensures
        r == transactions_root_of(tx_hashes(txs_view(txs@))),
        txs@.len() == 0 ==> r == keccak_of(seq![0xc0u8]),
{
    let mut items: Vec<Vec<u8>> = Vec::new();
    let mut i: usize = 0;
    while i < txs.len()
        invariant
            i <= txs@.len(),
            items@.len() == i,
            forall|j: int| 0 <= j < i ==> #[trigger] items@[j]@ == rlp_of_bytes(txs@[j].tx_hash.0@),
        decreases txs@.len() - i,
    {
        let h = txs[i].hash();
        items.push(rlp_encode_bytes(h.0.as_slice()));
        i = i + 1;
    }
    proof {
        assert(items@.map_values(|v: Vec<u8>| v@) =~= tx_hashes(txs_view(txs@)).map_values(
            |h: H256| rlp_of_bytes(h.0@),
        ));
    }
    let list = rlp_encode_list(&items);
    proof {
        if txs@.len() == 0 {
            assert(items@.map_values(|v: Vec<u8>| v@) =~= Seq::<Seq<u8>>::empty());
            assert(concat_items(Seq::<Seq<u8>>::empty()) =~= Seq::<u8>::empty());
            assert(list@ =~= seq![0xc0u8]);
        }
    }
    keccak(list.as_slice())
}

/// A block: its header, transactions and uncles.
#[derive(Debug, Clone, PartialEq)]
pub struct Block {
    /// The header of this block.
    pub header: Header,
    /// The transactions in this block.
    pub transactions: Vec<SignedTransaction>,
    /// The uncles of this block.
    pub uncles: Vec<Header>,
}

/// A block as mathematical values.
pub struct BlockState {
    pub header: HeaderState,
    pub transactions: Seq<TransactionState>,
    pub uncles: Seq<HeaderState>,
}

impl View for Block {
    type V = BlockState;

    open spec fn view(&self) -> BlockState {
        BlockState {
            header: self.header@,
            transactions: txs_view(self.transactions@),
            uncles: self.uncles@.map_values(|h: Header| h@),
        }
    }
}

impl Default for Block {
    fn default() -> (r: Block)
        ensures
            is_default_header(r.header@),
            r.transactions@.len() == 0,
            r.uncles@.len() == 0,
    {
        Block { header: Header::default(), transactions: Vec::new(), uncles: Vec::new() }
    }
}

impl Block {
    /// A copy of this block.
    pub fn duplicate(&self) -> (r: Block)
        ensures
            r@ == self@,
    {
        let mut transactions: Vec<SignedTransaction> = Vec::new();
        let mut i: usize = 0;
        while i < self.transactions.len()
            invariant
                i <= self.transactions@.len(),
                transactions@.len() == i,
                forall|j: int| 0 <= j < i ==> #[trigger] transactions@[j]@ == self.transactions@[j]@,
            decreases self.transactions@.len() - i,
        {
            transactions.push(self.transactions[i].duplicate());
            i = i + 1;
        }
        let mut uncles: Vec<Header> = Vec::new();
        let mut i: usize = 0;
        while i < self.uncles.len()
            invariant
                i <= self.uncles@.len(),
                uncles@.len() == i,
                forall|j: int| 0 <= j < i ==> #[trigger] uncles@[j]@ == self.uncles@[j]@,
            decreases self.uncles@.len() - i,
        {
            uncles.push(self.uncles[i].duplicate());
            i = i + 1;
        }
        let r = Block { header: self.header.duplicate(), transactions, uncles };
        proof {
            assert(r@.transactions =~= self@.transactions);
            assert(r@.uncles =~= self@.uncles);
        }
        r
    }
}

} // verus!

verus! {

/// Memoizing a header's hash does not change it: the hash read afterwards is the one that was
/// computed.
pub proof fn law_memoized_hash_is_stable(h: HeaderState)
    ensures
        header_hash(HeaderState { hash: Some(header_hash(h)), ..h }) == header_hash(h),
{
}

/// A header is encoded as the list of its thirteen fields in this order: parent hash,
/// uncles hash, author, state root, transactions root, receipts root, bloom, difficulty,
/// number, gas limit, gas used, timestamp, extra data; hashes, author, bloom and extra data
/// as byte strings, the numbers as numbers.
pub proof fn law_header_fields_in_order(h: HeaderState)
    ensures
        header_rlp(h) == rlp_of_list(
            seq![
                rlp_of_bytes(h.parent_hash.0@),
                rlp_of_bytes(h.uncles_hash.0@),
                rlp_of_bytes(h.author.0@),
                rlp_of_bytes(h.state_root.0@),
                rlp_of_bytes(h.transactions_root.0@),
                rlp_of_bytes(h.receipts_root.0@),
                rlp_of_bytes(h.log_bloom.0@),
                rlp_of_u256(h.difficulty),
                rlp_of_u64(h.number),
                rlp_of_u256(h.gas_limit),
                rlp_of_u256(h.gas_used),
                rlp_of_u64(h.timestamp),
                rlp_of_bytes(h.extra_data),
            ],
        ),
{
}

} // verus!

