//! The values that the RPC interface hands out and takes in.
use vstd::prelude::*;
use std::collections::BTreeMap;
use crate::ethcore::{Block, Header, header_hash, header_rlp};
use crate::hex_text::{FromHexError, encode, decode, hex_decode, hex_encode, hex_bytes, hex_digit, hex_value, first_invalid_from};
use crate::primitives::{Bloom, H160, H256, H512, U256, all_zero_bytes};

verus! {

/// Value representation with additional info.
#[derive(Debug, Clone, PartialEq, Eq)]
pub struct Rich<T> {
    /// Standard value.
    pub inner: T,
    /// Engine-specific fields with additional description.
    /// Should be included directly to serialized block object.
    pub extra_info: BTreeMap<String, String>,
}

impl<T> Rich<T> {
    /// The standard value.
    pub fn deref(&self) -> (r: &T)
        ensures
            *r == self.inner,
    {
        &self.inner
    }
}

/// Block representation with additional info.
pub type RichBlock = Rich<RpcBlock>;

/// Block transactions.
#[derive(Debug)]
pub enum BlockTransactions {
    /// Only hashes.
    Hashes(Vec<H256>),
    /// Full transactions.
    Full(Vec<RpcTransaction>),
}

/// Represents condition on minimum block number or block timestamp.
#[derive(Clone, Copy, Debug, PartialEq, Eq, Hash)]
pub enum TransactionCondition {
    /// Valid at this minimum block number.
    Number(u64),
    /// Valid at given unix time.
    Timestamp(u64),
}

/// Transaction.
#[derive(Debug, Default, Clone, PartialEq)]
pub struct RpcTransaction {
    /// Hash
    pub hash: H256,
    /// Nonce
    pub nonce: U256,
    /// Block hash
    pub block_hash: Option<H256>,
    /// Block number
    pub block_number: Option<U256>,
    /// Transaction Index
    pub transaction_index: Option<U256>,
    /// Sender
    pub from: H160,
    /// Recipient
    pub to: Option<H160>,
    /// Transfered value
    pub value: U256,
    /// Gas Price
    pub gas_price: U256,
    /// Gas
    pub gas: U256,
    /// Data
    pub input: Bytes,
    /// Creates contract
    pub creates: Option<H160>,
    /// Raw transaction data
    pub raw: Bytes,
    /// Public key of the signer.
    pub public_key: Option<H512>,
    /// The network id of the transaction, if any.
    pub chain_id: Option<u64>,
    /// The standardised V field of the signature (0 or 1).
    pub standard_v: U256,
    /// The standardised V field of the signature.
    pub v: U256,
    /// The R field of the signature.
    pub r: U256,
    /// The S field of the signature.
    pub s: U256,
    /// Transaction activates at specified block.
    pub condition: Option<TransactionCondition>,
}

/// Block representation.
#[derive(Debug)]
pub struct RpcBlock {
    /// Hash of the block
    pub hash: Option<H256>,
    /// Hash of the parent
    pub parent_hash: H256,
    /// Hash of the uncles
    pub uncles_hash: H256,
    /// Authors address
    pub author: H160,
    /// Alias of `author`
    pub miner: H160,
    /// State root hash
    pub state_root: H256,
    /// Transactions root hash
    pub transactions_root: H256,
    /// Transactions receipts root hash
    pub receipts_root: H256,
    /// Block number
    pub number: Option<U256>,
    /// Gas Used
    pub gas_used: U256,
    /// Gas Limit
    pub gas_limit: U256,
    /// Extra data
    pub extra_data: Bytes,
    /// Logs bloom
    pub logs_bloom: Option<Bloom>,
    /// Timestamp
    pub timestamp: U256,
    /// Difficulty
    pub difficulty: U256,
    /// Total difficulty
    pub total_difficulty: Option<U256>,
    /// Seal fields
    pub seal_fields: Vec<Bytes>,
    /// Uncles' hashes
    pub uncles: Vec<H256>,
    /// Transactions
    pub transactions: BlockTransactions,
    /// Size in bytes
    pub size: Option<U256>,
}

/// Whether `b` is the representation of header `h`: its fields copied, its hash, its number
/// and timestamp as words, its size the length of its RLP encoding, no transactions.
pub open spec fn represents_header(b: RpcBlock, h: crate::ethcore::HeaderState) -> bool {
    &&& b.hash == Some(header_hash(h))
    &&& b.parent_hash == h.parent_hash
    &&& b.uncles_hash == h.uncles_hash
    &&& b.author == h.author
    &&& b.miner == h.author
    &&& b.state_root == h.state_root
    &&& b.transactions_root == h.transactions_root
    &&& b.receipts_root == h.receipts_root
    &&& b.number == Some(U256::spec_from_u64(h.number))
    &&& b.gas_used == h.gas_used
    &&& b.gas_limit == h.gas_limit
    &&& b.extra_data.0@ == h.extra_data
    &&& b.logs_bloom == Some(h.log_bloom)
    &&& b.timestamp == U256::spec_from_u64(h.timestamp)
    &&& b.difficulty == h.difficulty
    &&& b.total_difficulty is None
    &&& b.seal_fields@.len() == 0
    &&& b.uncles@.len() == 0
    &&& (b.transactions matches BlockTransactions::Full(v) && v@.len() == 0)
    &&& b.size == Some(U256::spec_from_u64(header_rlp(h).len() as u64))
}

impl RpcBlock {
    /// The representation of a header.
    pub fn from_header(h: &Header) -> (r: RpcBlock)
        ensures
            represents_header(r, h@),
    {
        let size = h.rlp().len();
        RpcBlock {
            hash: Some(h.hash()),
            parent_hash: h.parent_hash,
            uncles_hash: h.uncles_hash,
            author: h.author,
            miner: h.author,
            state_root: h.state_root,
            transactions_root: h.transactions_root,
            receipts_root: h.receipts_root,
            number: Some(U256::from_u64(h.number)),
            gas_used: h.gas_used,
            extra_data: Bytes(h.extra_data.clone()),
            logs_bloom: Some(h.log_bloom),
            timestamp: U256::from_u64(h.timestamp),
            difficulty: h.difficulty,
            total_difficulty: None,
            seal_fields: Vec::new(),
            uncles: Vec::new(),
            transactions: BlockTransactions::Full(Vec::new()),
            size: Some(U256::from_u64(size as u64)),
            gas_limit: h.gas_limit,
        }
    }

    /// The representation of a block: that of its header.
    pub fn from_block(b: &Block) -> (r: RpcBlock)
        ensures
            represents_header(r, b.header@),
    {
        RpcBlock::from_header(&b.header)
    }
}

/// Request.
#[derive(Debug, Default, PartialEq)]
pub struct Request {
    /// From
    pub from: Option<H160>,
    /// To
    pub to: Option<H160>,
    /// Gas Price
    pub gas_price: Option<U256>,
    /// Gas
    pub gas: Option<U256>,
    /// Value
    pub value: Option<U256>,
    /// Data
    pub data: Option<Vec<u8>>,
    /// Nonce
    pub nonce: Option<U256>,
}

/// Call request.
#[derive(Debug, Default, PartialEq)]
pub struct CallRequest {
    /// From
    pub from: Option<H160>,
    /// To
    pub to: Option<H160>,
    /// Gas Price
    pub gas_price: Option<U256>,
    /// Gas
    pub gas: Option<U256>,
    /// Value
    pub value: Option<U256>,
    /// Data
    pub data: Option<Bytes>,
    /// Nonce
    pub nonce: Option<U256>,
}

impl CallRequest {
    /// The request with the same fields, the data unwrapped to its bytes.
    pub fn into_request(self) -> (r: Request)
        ensures
            r.from == self.from,
            r.to == self.to,
            r.gas_price == self.gas_price,
            r.gas == self.gas,
            r.value == self.value,
            r.nonce == self.nonce,
            match self.data {
                Some(b) => r.data == Some(b.0),
                None => r.data is None,
            },
    {
        Request {
            from: self.from,
            to: self.to,
            gas_price: self.gas_price,
            gas: self.gas,
            value: self.value,
            data: match self.data {
                Some(b) => Some(b.0),
                None => None,
            },
            nonce: self.nonce,
        }
    }
}

/// Wrapper structure around vector of bytes.
#[derive(Debug, PartialEq, Default, Hash, Clone)]
pub struct Bytes(pub Vec<u8>);

impl Bytes {
    /// Simple constructor.
    pub fn new(bytes: Vec<u8>) -> (r: Bytes)
        ensures
            r.0 == bytes,
    {
        Bytes(bytes)
    }

    /// Convert back to vector.
    pub fn into_vec(self) -> (r: Vec<u8>)
        ensures
            r == self.0,
    {
        self.0
    }
}

impl From<Vec<u8>> for Bytes {
    fn from(bytes: Vec<u8>) -> (r: Bytes) {
        Bytes(bytes)
    }
}

impl vstd::std_specs::convert::FromSpecImpl<Vec<u8>> for Bytes {
    open spec fn obeys_from_spec() -> bool {
        true
    }

    open spec fn from_spec(v: Vec<u8>) -> Bytes {
        Bytes(v)
    }
}

impl From<Bytes> for Vec<u8> {
    fn from(b: Bytes) -> (r: Vec<u8>) {
        b.0
    }
}

impl vstd::std_specs::convert::FromSpecImpl<Bytes> for Vec<u8> {
    open spec fn obeys_from_spec() -> bool {
        true
    }

    open spec fn from_spec(b: Bytes) -> Vec<u8> {
        b.0
    }
}

/// The text of a byte string as the RPC interface writes it: `0x`, then lower-case hex.
pub open spec fn bytes_text(b: Seq<u8>) -> Seq<u8> {
    seq![0x30u8, 0x78u8] + hex_encode(b)
}

/// Why a text does not read as bytes.
#[derive(Clone, Copy, Debug, PartialEq, Eq)]
pub enum BytesError {
    /// Not `0x` followed by an even number of characters.
    InvalidFormat,
    /// The hex after `0x` does not decode.
    InvalidHex(FromHexError),
}

/// What a text reads as: `0x` followed by an even number of hex digits gives their bytes.
pub open spec fn bytes_of_text(s: Seq<u8>) -> Result<Seq<u8>, BytesError> {
    if s.len() >= 2 && s[0] == 0x30u8 && s[1] == 0x78u8 && s.len() % 2 == 0 {
        match hex_decode(s.subrange(2, s.len() as int)) {
            Ok(b) => Ok(b),
            Err(e) => Err(BytesError::InvalidHex(e)),
        }
    } else {
        Err(BytesError::InvalidFormat)
    }
}

impl Bytes {
    /// The text of these bytes: `0x`, then lower-case hex.
    pub fn to_hex(&self) -> (r: Vec<u8>)
        requires
            2 * self.0@.len() + 2 <= usize::MAX,
        ensures
            r@ == bytes_text(self.0@),
    {
        let mut r: Vec<u8> = Vec::new();
        r.push(0x30);
        r.push(0x78);
        let mut digits = encode(self.0.as_slice());
        r.append(&mut digits);
        proof {
            assert(r@ =~= bytes_text(self.0@));
        }
        r
    }
}

/// Reads bytes from the text that the RPC interface writes them as.
pub struct BytesVisitor;

impl BytesVisitor {
    /// Reads bytes from their text: `0x` followed by an even number of hex digits.
    pub fn visit_str(value: &[u8]) -> (r: Result<Bytes, BytesError>)
        ensures
            match r {
                Ok(b) => bytes_of_text(value@) == Ok::<Seq<u8>, BytesError>(b.0@),
                Err(e) => bytes_of_text(value@) == Err::<Seq<u8>, BytesError>(e),
            },
    {
        if value.len() >= 2 && value[0] == 0x30 && value[1] == 0x78 && value.len() % 2 == 0 {
            let digits = slice_from(value, 2);
            match decode(digits.as_slice()) {
                Ok(v) => Ok(Bytes::new(v)),
                Err(e) => Err(BytesError::InvalidHex(e)),
            }
        } else {
            Err(BytesError::InvalidFormat)
        }
    }
}

/// The bytes of `s` from position `start` on.
fn slice_from(s: &[u8], start: usize) -> (r: Vec<u8>)
    requires
        start <= s@.len(),
    ensures
        r@ == s@.subrange(start as int, s@.len() as int),
{
    let mut r: Vec<u8> = Vec::new();
    let mut i: usize = start;
    while i < s.len()
        invariant
            start <= i <= s@.len(),
            r@ == s@.subrange(start as int, i as int),
        decreases s@.len() - i,
    {
        r.push(s[i]);
        proof {
            assert(s@.subrange(start as int, i + 1) =~= s@.subrange(start as int, i as int).push(s@[i as int]));
        }
        i = i + 1;
    }
    r
}

/// What `Bytes::to_hex` writes, `BytesVisitor::visit_str` reads back: the text of any bytes
/// (`0x`, then their lower-case hex) reads as those bytes.
pub proof fn law_bytes_text_round_trip(b: Seq<u8>)
    ensures
        bytes_of_text(bytes_text(b)) == Ok::<Seq<u8>, BytesError>(b),
{
    let t = bytes_text(b);
    let h = hex_encode(b);
    assert(t.subrange(2, t.len() as int) =~= h);
    assert forall|j: int| 0 <= j < h.len() implies #[trigger] hex_value(h[j]) is Some by {
        let x = b[j / 2];
        assert(x >> 4u8 < 16u8) by (bit_vector);
        assert(x & 0x0fu8 < 16u8) by (bit_vector);
    }
    lemma_no_invalid(h, 0);
    assert forall|i: int| 0 <= i < b.len() implies #[trigger] hex_bytes(h)[i] == b[i] by {
        let x = b[i];
        assert(x >> 4u8 < 16u8) by (bit_vector);
        assert(x & 0x0fu8 < 16u8) by (bit_vector);
        assert(h[2 * i] == hex_digit(x >> 4u8));
        assert(h[2 * i + 1] == hex_digit(x & 0x0fu8));
        assert(((x >> 4u8) * 16 + (x & 0x0fu8)) as u8 == x) by (bit_vector);
    }
    assert(hex_bytes(h) =~= b);
}

proof fn lemma_no_invalid(s: Seq<u8>, i: int)
    requires
        0 <= i <= s.len(),
        forall|j: int| 0 <= j < s.len() ==> #[trigger] hex_value(s[j]) is Some,
    ensures
        first_invalid_from(s, i) is None,
    decreases s.len() - i,
{
    if i < s.len() {
        lemma_no_invalid(s, i + 1);
    }
}

/// Log.
#[derive(Debug, PartialEq, Hash, Clone, Default)]
pub struct RpcLog {
    /// H160
    pub address: H160,
    /// Topics
    pub topics: Vec<H256>,
    /// Data
    pub data: Bytes,
    /// Block Hash
    pub block_hash: Option<H256>,
    /// Block Number
    pub block_number: Option<U256>,
    /// Transaction Hash
    pub transaction_hash: Option<H256>,
    /// Transaction Index
    pub transaction_index: Option<U256>,
    /// Log Index in Block
    pub log_index: Option<U256>,
    /// Log Index in Transaction
    pub transaction_log_index: Option<U256>,
    /// Log Type
    pub log_type: String,
    /// Whether Log Type is Removed (Geth Compatibility Field)
    pub removed: bool,
}

/// Receipt.
#[derive(Debug)]
pub struct RpcReceipt {
    /// Transaction Hash
    pub transaction_hash: Option<H256>,
    /// Transaction index
    pub transaction_index: Option<U256>,
    /// Block hash
    pub block_hash: Option<H256>,
    /// Sender
    pub from: Option<H160>,
    /// Recipient
    pub to: Option<H160>,
    /// Block number
    pub block_number: Option<U256>,
    /// Cumulative gas used
    pub cumulative_gas_used: U256,
    /// Gas used
    pub gas_used: Option<U256>,
    /// Contract address
    pub contract_address: Option<H160>,
    /// Logs
    pub logs: Vec<RpcLog>,
    /// State Root
    pub state_root: Option<H256>,
    /// Logs bloom
    pub logs_bloom: Bloom,
    /// Status code
    pub status_code: Option<u64>,
}

impl Default for RpcReceipt {
    fn default() -> (r: RpcReceipt)
        ensures
            r.transaction_hash is None,
            r.transaction_index is None,
            r.block_hash is None,
            r.from is None,
            r.to is None,
            r.block_number is None,
            r.cumulative_gas_used == U256::spec_zero(),
            r.gas_used is None,
            r.contract_address is None,
            r.logs@.len() == 0,
            r.state_root is None,
            all_zero_bytes(r.logs_bloom.0@),
            r.status_code is None,
    {
        RpcReceipt {
            transaction_hash: None,
            transaction_index: None,
            block_hash: None,
            from: None,
            to: None,
            block_number: None,
            cumulative_gas_used: U256::zero(),
            gas_used: None,
            contract_address: None,
            logs: Vec::new(),
            state_root: None,
            logs_bloom: Bloom::zero(),
            status_code: None,
        }
    }
}

/// The RPC block of a header copies each of the header's fields into the field of the same
/// name: its parent hash (the hash of the block before it, not its own), uncles hash,
/// author (also as miner), the three roots each in its own place, gas, extra data, bloom and
/// difficulty; its number and timestamp as words; and its own hash as hash.
pub proof fn law_rpc_block_copies_header(b: RpcBlock, h: crate::ethcore::HeaderState)
    requires
        represents_header(b, h),
    ensures
        b.parent_hash == h.parent_hash,
        b.uncles_hash == h.uncles_hash,
        b.author == h.author,
        b.miner == h.author,
        b.state_root == h.state_root,
        b.transactions_root == h.transactions_root,
        b.receipts_root == h.receipts_root,
        b.gas_used == h.gas_used,
        b.gas_limit == h.gas_limit,
        b.extra_data.0@ == h.extra_data,
        b.logs_bloom == Some(h.log_bloom),
        b.difficulty == h.difficulty,
        b.number == Some(U256::spec_from_u64(h.number)),
        b.timestamp == U256::spec_from_u64(h.timestamp),
        b.hash == Some(header_hash(h)),
{
}

} // verus!

