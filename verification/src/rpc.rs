//! The RPC interface: block numbers as clients write them, and what each method answers.
use vstd::prelude::*;
use std::collections::BTreeMap;
use crate::db::HashMapEthDB;
use crate::hashing::{keccak, keccak_of};
use crate::hex_text::hex_value;
use crate::primitives::{H160, H256, U256, all_zero_bytes};
use crate::rpc_types::{Bytes, CallRequest, Rich, RichBlock, RpcBlock, RpcReceipt, represents_header};
use crate::runtime::Runtime;
use crate::state::{ExitReason, account_or_empty};
use crate::transaction::{SignedTransaction, decode_unverified, sender_of, signed_from, unverified_of};

verus! {

/// The chain's id.
pub const CHAIN_ID: u64 = 127;

/// A block, as a client names it.
#[derive(Clone, Copy, Debug, PartialEq, Eq, Hash)]
pub enum BlockNumber {
    /// Hash
    Hash {
        /// block hash
        hash: H256,
        /// only return blocks part of the canon chain
        require_canonical: bool,
    },
    /// Number
    Num(u64),
    /// Latest block
    Latest,
    /// Earliest block (genesis)
    Earliest,
    /// Pending block (being mined)
    Pending,
}

impl Default for BlockNumber {
    fn default() -> (r: BlockNumber)
        ensures
            r == BlockNumber::Latest,
    {
        BlockNumber::Latest
    }
}

/// Why text does not read as a number; the kinds of `std::num::ParseIntError` that reading an
/// unsigned number gives.
#[derive(Clone, Copy, Debug, PartialEq, Eq)]
pub enum IntErrorKind {
    /// Nothing to read.
    Empty,
    /// A character that is no digit.
    InvalidDigit,
    /// The number does not fit.
    PosOverflow,
}

/// The value of hex digits read left to right; the first digit that is none, or the first
/// step past `u64::MAX`, stops the reading.
pub open spec fn hex_digits_value(s: Seq<u8>) -> Result<u64, IntErrorKind>
    decreases s.len(),
{
    if s.len() == 0 {
        Ok(0)
    } else {
        match hex_digits_value(s.drop_last()) {
            Err(e) => Err(e),
            Ok(v) => match hex_value(s.last()) {
                None => Err(IntErrorKind::InvalidDigit),
                Some(d) => if v * 16 + d > u64::MAX {
                    Err(IntErrorKind::PosOverflow)
                } else {
                    Ok((v * 16 + d) as u64)
                },
            },
        }
    }
}

/// What `u64::from_str_radix(s, 16)` gives: empty text is refused, a lone sign is no digit, a
/// leading `+` is skipped, then the digits are read.
pub open spec fn from_hex_radix(s: Seq<u8>) -> Result<u64, IntErrorKind> {
    if s.len() == 0 {
        Err(IntErrorKind::Empty)
    } else if s.len() == 1 && (s[0] == 0x2bu8 || s[0] == 0x2du8) {
        Err(IntErrorKind::InvalidDigit)
    } else if s[0] == 0x2bu8 {
        hex_digits_value(s.skip(1))
    } else {
        hex_digits_value(s)
    }
}

/// Reads a number in base sixteen, as `u64::from_str_radix` does.
pub fn from_str_radix_16(s: &[u8]) -> (r: Result<u64, IntErrorKind>)
    ensures
        r == from_hex_radix(s@),
{
    if s.len() == 0 {
        return Err(IntErrorKind::Empty);
    }
    if s.len() == 1 && (s[0] == 0x2b || s[0] == 0x2d) {
        return Err(IntErrorKind::InvalidDigit);
    }
    let start: usize = if s[0] == 0x2b {
        1
    } else {
        0
    };
    let ghost digits = s@.skip(start as int);
    let mut v: u64 = 0;
    let mut i: usize = start;
    proof {
        assert(digits.take(0) =~= Seq::<u8>::empty());
        if start == 0 {
            assert(s@.skip(0) =~= s@);
        }
        assert(from_hex_radix(s@) == hex_digits_value(digits));
    }
    while i < s.len()
        invariant
            start <= i <= s@.len(),
            digits == s@.skip(start as int),
            from_hex_radix(s@) == hex_digits_value(digits),
            hex_digits_value(digits.take(i - start)) == Ok::<u64, IntErrorKind>(v),
        decreases s@.len() - i,
    {
        proof {
            assert(digits.take(i - start + 1).drop_last() =~= digits.take(i - start));
            assert(digits.take(i - start + 1).last() == s@[i as int]);
        }
        let d = match hex_digit_value(s[i]) {
            Some(d) => d,
            None => {
                proof {
                    assert(hex_digits_value(digits.take(i - start + 1)) == Err::<u64, IntErrorKind>(IntErrorKind::InvalidDigit));
                    lemma_error_persists(digits, i - start + 1);
                }
                return Err(IntErrorKind::InvalidDigit);
            },
        };
        let t: u128 = (v as u128) * 16 + (d as u128);
        if t > 0xffff_ffff_ffff_ffffu128 {
            proof {
                assert(hex_digits_value(digits.take(i - start + 1)) == Err::<u64, IntErrorKind>(IntErrorKind::PosOverflow));
                lemma_error_persists(digits, i - start + 1);
            }
            return Err(IntErrorKind::PosOverflow);
        }
        v = t as u64;
        i = i + 1;
    }
    proof {
        assert(digits.take(i - start) =~= digits);
    }
    Ok(v)
}

/// Once reading the first `n` digits fails, reading all of them fails the same way.
proof fn lemma_error_persists(s: Seq<u8>, n: int)
    requires
        0 <= n <= s.len(),
        hex_digits_value(s.take(n)) is Err,
    ensures
        hex_digits_value(s) == hex_digits_value(s.take(n)),
    decreases s.len() - n,
{
    if n < s.len() {
        assert(s.take(n + 1).drop_last() =~= s.take(n));
        lemma_error_persists(s, n + 1);
    } else {
        assert(s.take(n) =~= s);
    }
}

fn hex_digit_value(c: u8) -> (r: Option<u8>)
    ensures
        r == hex_value(c),
{
    if 0x41 <= c && c <= 0x46 {
        Some(c - 0x41 + 10)
    } else if 0x61 <= c && c <= 0x66 {
        Some(c - 0x61 + 10)
    } else if 0x30 <= c && c <= 0x39 {
        Some(c - 0x30)
    } else {
        None
    }
}

/// Why a block number could not be read.
#[derive(Clone, Debug, PartialEq, Eq)]
pub enum BlockNumberError {
    /// The digits after `0x` are no number.
    InvalidNumber(IntErrorKind),
    /// A number not starting with `0x`.
    MissingPrefix,
    /// An object with a key other than `blockNumber`, `blockHash` and `requireCanonical`.
    UnknownKey(Vec<u8>),
    /// An object with neither a block number nor a block hash.
    InvalidInput,
}

/// The bytes of `latest`.
pub open spec fn word_latest() -> Seq<u8> {
    seq![0x6cu8, 0x61, 0x74, 0x65, 0x73, 0x74]
}

/// The bytes of `earliest`.
pub open spec fn word_earliest() -> Seq<u8> {
    seq![0x65u8, 0x61, 0x72, 0x6c, 0x69, 0x65, 0x73, 0x74]
}

/// The bytes of `pending`.
pub open spec fn word_pending() -> Seq<u8> {
    seq![0x70u8, 0x65, 0x6e, 0x64, 0x69, 0x6e, 0x67]
}

/// Whether text starts with `0x`.
pub open spec fn has_hex_prefix(s: Seq<u8>) -> bool {
    s.len() >= 2 && s[0] == 0x30u8 && s[1] == 0x78u8
}

/// What a `0x`-prefixed hex number reads as.
pub open spec fn hex_number_of(s: Seq<u8>) -> Result<u64, BlockNumberError> {
    if has_hex_prefix(s) {
        match from_hex_radix(s.skip(2)) {
            Ok(n) => Ok(n),
            Err(k) => Err(BlockNumberError::InvalidNumber(k)),
        }
    } else {
        Err(BlockNumberError::MissingPrefix)
    }
}

/// What a block number written as text reads as: `latest`, `earliest`, `pending`, or a
/// `0x`-prefixed hex number.
pub open spec fn block_number_of_text(s: Seq<u8>) -> Result<BlockNumber, BlockNumberError> {
    if s == word_latest() {
        Ok(BlockNumber::Latest)
    } else if s == word_earliest() {
        Ok(BlockNumber::Earliest)
    } else if s == word_pending() {
        Ok(BlockNumber::Pending)
    } else {
        match hex_number_of(s) {
            Ok(n) => Ok(BlockNumber::Num(n)),
            Err(e) => Err(e),
        }
    }
}

/// Byte-wise equality of two byte strings.
fn same_bytes(a: &[u8], b: &[u8]) -> (r: bool)
    ensures
        r == (a@ == b@),
{
    if a.len() != b.len() {
        return false;
    }
    let mut i: usize = 0;
    while i < a.len()
        invariant
            a@.len() == b@.len(),
            i <= a@.len(),
            forall|j: int| 0 <= j < i ==> a@[j] == b@[j],
        decreases a@.len() - i,
    {
        if a[i] != b[i] {
            return false;
        }
        i = i + 1;
    }
    proof {
        assert(a@ =~= b@);
    }
    true
}

/// The bytes of `s` from position `start` on.
fn tail(s: &[u8], start: usize) -> (r: Vec<u8>)
    requires
        start <= s@.len(),
    ensures
        r@ == s@.skip(start as int),
{
    let mut r: Vec<u8> = Vec::new();
    let mut i: usize = start;
    while i < s.len()
        invariant
            start <= i <= s@.len(),
            r@ == s@.subrange(start as int, i as int),
        decreases s@.len() - i,
    {
        r.push(s[i]);
        proof {
            assert(s@.subrange(start as int, i + 1) =~= s@.subrange(start as int, i as int).push(s@[i as int]));
        }
        i = i + 1;
    }
    proof {
        assert(s@.subrange(start as int, i as int) =~= s@.skip(start as int));
    }
    r
}

/// Reads a `0x`-prefixed hex number.
pub fn parse_hex_number(value: &[u8]) -> (r: Result<u64, BlockNumberError>)
    ensures
        r == hex_number_of(value@),
{
    if value.len() >= 2 && value[0] == 0x30 && value[1] == 0x78 {
        let digits = tail(value, 2);
        match from_str_radix_16(digits.as_slice()) {
            Ok(n) => Ok(n),
            Err(k) => Err(BlockNumberError::InvalidNumber(k)),
        }
    } else {
        Err(BlockNumberError::MissingPrefix)
    }
}

/// The bytes of `blockNumber`.
pub open spec fn key_block_number() -> Seq<u8> {
    seq![0x62u8, 0x6c, 0x6f, 0x63, 0x6b, 0x4e, 0x75, 0x6d, 0x62, 0x65, 0x72]
}

/// The bytes of `blockHash`.
pub open spec fn key_block_hash() -> Seq<u8> {
    seq![0x62u8, 0x6c, 0x6f, 0x63, 0x6b, 0x48, 0x61, 0x73, 0x68]
}

/// The bytes of `requireCanonical`.
pub open spec fn key_require_canonical() -> Seq<u8> {
    seq![0x72u8, 0x65, 0x71, 0x75, 0x69, 0x72, 0x65, 0x43, 0x61, 0x6e, 0x6f, 0x6e, 0x69, 0x63, 0x61, 0x6c]
}

/// The keys that a block number written as an object may have.
#[derive(Clone, Copy, Debug, PartialEq, Eq)]
pub enum MapKeyKind {
    /// `blockNumber`, whose value is text.
    BlockNumber,
    /// `blockHash`, whose value is a hash.
    BlockHash,
    /// `requireCanonical`, whose value is a flag.
    RequireCanonical,
    /// Any other key.
    Unknown,
}

/// The kind of a key.
pub open spec fn key_kind(key: Seq<u8>) -> MapKeyKind {
    if key == key_block_number() {
        MapKeyKind::BlockNumber
    } else if key == key_block_hash() {
        MapKeyKind::BlockHash
    } else if key == key_require_canonical() {
        MapKeyKind::RequireCanonical
    } else {
        MapKeyKind::Unknown
    }
}

/// One entry of a block number written as an object, its value read as its key asks.
pub enum MapEntry {
    BlockNumber(Vec<u8>),
    BlockHash(H256),
    RequireCanonical(bool),
    Unknown(Vec<u8>),
}

/// Reads a block number, given as text or as an object entry by entry.
#[derive(Clone, Copy, Debug, PartialEq, Eq)]
pub struct BlockNumberVisitor {
    /// The `requireCanonical` flag seen so far.
    pub require_canonical: bool,
    /// The `blockHash` seen so far.
    pub block_hash: Option<H256>,
}

/// What reading one more entry leads to.
pub enum MapStep {
    /// Read on, in this state.
    Continue(BlockNumberVisitor),
    /// Stop with this outcome.
    Done(Result<BlockNumber, BlockNumberError>),
}

/// One step of reading an object: a block number ends the reading with its value; a hash or a
/// flag is kept; any other key is refused.
pub open spec fn map_step(v: BlockNumberVisitor, e: MapEntry) -> MapStep {
    match e {
        MapEntry::BlockNumber(value) => MapStep::Done(
            match hex_number_of(value@) {
                Ok(n) => Ok(BlockNumber::Num(n)),
                Err(err) => Err(err),
            },
        ),
        MapEntry::BlockHash(h) => MapStep::Continue(BlockNumberVisitor { block_hash: Some(h), ..v }),
        MapEntry::RequireCanonical(b) => MapStep::Continue(
            BlockNumberVisitor { require_canonical: b, ..v },
        ),
        MapEntry::Unknown(key) => MapStep::Done(Err(BlockNumberError::UnknownKey(key))),
    }
}

/// The end of an object: a hash seen gives that block, else the object is refused.
pub open spec fn map_end(v: BlockNumberVisitor) -> Result<BlockNumber, BlockNumberError> {
    match v.block_hash {
        Some(h) => Ok(BlockNumber::Hash { hash: h, require_canonical: v.require_canonical }),
        None => Err(BlockNumberError::InvalidInput),
    }
}

/// What reading the entries of an object from state `v` gives.
pub open spec fn map_outcome(v: BlockNumberVisitor, entries: Seq<MapEntry>) -> Result<
    BlockNumber,
    BlockNumberError,
>
    decreases entries.len(),
{
    if entries.len() == 0 {
        map_end(v)
    } else {
        match map_step(v, entries[0]) {
            MapStep::Continue(next) => map_outcome(next, entries.skip(1)),
            MapStep::Done(r) => r,
        }
    }
}

impl BlockNumberVisitor {
    /// The state before any entry: not canonical, no hash.
    pub fn new() -> (r: BlockNumberVisitor)
        ensures
            r == (BlockNumberVisitor { require_canonical: false, block_hash: None }),
    {
        BlockNumberVisitor { require_canonical: false, block_hash: None }
    }

    /// The kind of an object key.
    pub fn key_kind(key: &[u8]) -> (r: MapKeyKind)
        ensures
            r == key_kind(key@),
    {
        let number: Vec<u8> = vec![0x62, 0x6c, 0x6f, 0x63, 0x6b, 0x4e, 0x75, 0x6d, 0x62, 0x65, 0x72];
        let hash: Vec<u8> = vec![0x62, 0x6c, 0x6f, 0x63, 0x6b, 0x48, 0x61, 0x73, 0x68];
        let canonical: Vec<u8> = vec![0x72, 0x65, 0x71, 0x75, 0x69, 0x72, 0x65, 0x43, 0x61, 0x6e, 0x6f, 0x6e, 0x69, 0x63, 0x61, 0x6c];
        proof {
            assert(number@ =~= key_block_number());
            assert(hash@ =~= key_block_hash());
            assert(canonical@ =~= key_require_canonical());
        }
        if same_bytes(key, number.as_slice()) {
            MapKeyKind::BlockNumber
        } else if same_bytes(key, hash.as_slice()) {
            MapKeyKind::BlockHash
        } else if same_bytes(key, canonical.as_slice()) {
            MapKeyKind::RequireCanonical
        } else {
            MapKeyKind::Unknown
        }
    }

    /// Reads one more entry of an object.
    pub fn visit_entry(self, e: MapEntry) -> (r: MapStep)
        ensures
            r == map_step(self, e),
    {
        match e {
            MapEntry::BlockNumber(value) => MapStep::Done(
                match parse_hex_number(value.as_slice()) {
                    Ok(n) => Ok(BlockNumber::Num(n)),
                    Err(err) => Err(err),
                },
            ),
            MapEntry::BlockHash(h) => MapStep::Continue(
                BlockNumberVisitor { require_canonical: self.require_canonical, block_hash: Some(h) },
            ),
            MapEntry::RequireCanonical(b) => MapStep::Continue(
                BlockNumberVisitor { require_canonical: b, block_hash: self.block_hash },
            ),
            MapEntry::Unknown(key) => MapStep::Done(Err(BlockNumberError::UnknownKey(key))),
        }
    }

    /// Ends an object.
    pub fn visit_end(self) -> (r: Result<BlockNumber, BlockNumberError>)
        ensures
            r == map_end(self),
    {
        match self.block_hash {
            Some(h) => Ok(BlockNumber::Hash { hash: h, require_canonical: self.require_canonical }),
            None => Err(BlockNumberError::InvalidInput),
        }
    }

    /// Reads a block number written as an object, whose entries are all at hand.
    pub fn visit_map(entries: Vec<MapEntry>) -> (r: Result<BlockNumber, BlockNumberError>)
        ensures
            r == map_outcome(BlockNumberVisitor { require_canonical: false, block_hash: None }, entries@),
    {
        let ghost all = entries@;
        let mut pending = entries;
        let total = pending.len();
        let mut v = BlockNumberVisitor::new();
        proof {
            assert(all.skip(0) =~= all);
        }
        let mut done: usize = 0;
        while pending.len() > 0
            invariant
                entries@ == all,
                pending@ == all.skip(done as int),
                done + pending@.len() == total,
                total == all.len(),
                map_outcome(BlockNumberVisitor { require_canonical: false, block_hash: None }, all)
                    == map_outcome(v, pending@),
            decreases pending@.len(),
        {
            let ghost rest = pending@;
            let ghost before = v;
            let e = pending.remove(0);
            proof {
                assert(e == rest[0]);
                assert(pending@ =~= rest.skip(1));
                assert(pending@ =~= all.skip(done + 1));
                assert(map_outcome(before, rest) == match map_step(before, e) {
                    MapStep::Continue(next) => map_outcome(next, rest.skip(1)),
                    MapStep::Done(r) => r,
                });
            }
            let step = v.visit_entry(e);
            match step {
                MapStep::Continue(next) => {
                    v = next;
                },
                MapStep::Done(outcome) => {
                    proof {
                        assert(map_step(before, e) == MapStep::Done(outcome));
                    }
                    return outcome;
                },
            }
            done = done + 1;
        }
        v.visit_end()
    }

    /// Reads a block number written as text: `latest`, `earliest`, `pending`, or a
    /// `0x`-prefixed hex number.
    pub fn visit_str(value: &[u8]) -> (r: Result<BlockNumber, BlockNumberError>)
        ensures
            r == block_number_of_text(value@),
    {
        let latest: Vec<u8> = vec![0x6c, 0x61, 0x74, 0x65, 0x73, 0x74];
        let earliest: Vec<u8> = vec![0x65, 0x61, 0x72, 0x6c, 0x69, 0x65, 0x73, 0x74];
        let pending: Vec<u8> = vec![0x70, 0x65, 0x6e, 0x64, 0x69, 0x6e, 0x67];
        proof {
            assert(latest@ =~= word_latest());
            assert(earliest@ =~= word_earliest());
            assert(pending@ =~= word_pending());
        }
        if same_bytes(value, latest.as_slice()) {
            Ok(BlockNumber::Latest)
        } else if same_bytes(value, earliest.as_slice()) {
            Ok(BlockNumber::Earliest)
        } else if same_bytes(value, pending.as_slice()) {
            Ok(BlockNumber::Pending)
        } else {
            match parse_hex_number(value) {
                Ok(n) => Ok(BlockNumber::Num(n)),
                Err(e) => Err(e),
            }
        }
    }
}

/// The decimal digit for a number below ten.
pub open spec fn decimal_digit(d: nat) -> char {
    ((0x30 + d) as u8) as char
}

/// The decimal text of a number, without leading zeros.
pub open spec fn decimal_text(n: nat) -> Seq<char>
    decreases n,
{
    if n < 10 {
        seq![decimal_digit(n)]
    } else {
        decimal_text(n / 10).push(decimal_digit(n % 10))
    }
}

/// `u64::to_string`: the decimal text of `n`, without leading zeros.
#[verifier::external_body]
fn u64_to_string(n: u64) -> (r: String)
    ensures
        r@ == decimal_text(n as nat),
{
    n.to_string()
}

/// The block number that a client's block name stands for: the best block when none is
/// named, for `latest` and for `pending`; zero for `earliest`; the number itself; the indexed
/// number of a hash, if the hash is indexed.
pub open spec fn number_for(num: Option<BlockNumber>, best: u64, index: Map<H256, u64>) -> Option<u64> {
    match num {
        None => Some(best),
        Some(BlockNumber::Latest) => Some(best),
        Some(BlockNumber::Pending) => Some(best),
        Some(BlockNumber::Earliest) => Some(0),
        Some(BlockNumber::Num(n)) => Some(n),
        Some(BlockNumber::Hash { hash, require_canonical }) => if index.contains_key(hash) {
            Some(index[hash])
        } else {
            None
        },
    }
}

/// The number of the best block of a database.
pub open spec fn best_of(db: HashMapEthDB) -> u64 {
    (db.chain().len() - 1) as u64
}

/// What `eth_call` runs: from whom, to which contract, against which block, with what data.
pub struct CallArgs {
    pub from: H160,
    pub to: H160,
    pub number: u64,
    pub data: Vec<u8>,
}

/// What `eth_estimateGas` runs: from whom, against which block, with what value, to what,
/// with what data.
pub struct EstimateArgs {
    pub from: H160,
    pub number: u64,
    pub value: U256,
    pub to: Option<H160>,
    pub data: Vec<u8>,
}

/// The data of a call request: its bytes, or none.
pub open spec fn request_data(data: Option<Bytes>) -> Seq<u8> {
    match data {
        Some(b) => b.0@,
        None => Seq::empty(),
    }
}

/// The sender of a call request: the one given, or the zero address.
pub open spec fn request_from(from: Option<H160>, r: H160) -> bool {
    match from {
        Some(a) => r == a,
        None => all_zero_bytes(r.0@),
    }
}

fn data_bytes(data: Option<Bytes>) -> (r: Vec<u8>)
    ensures
        r@ == request_data(data),
{
    match data {
        Some(b) => b.0,
        None => Vec::new(),
    }
}

fn sender_or_zero(from: Option<H160>) -> (r: H160)
    ensures
        request_from(from, r),
{
    match from {
        Some(a) => a,
        None => H160::zero(),
    }
}

/// The client that answers `eth_*` methods.
pub struct EthClient {
    runtime: Runtime,
}

impl EthClient {
    /// The shared state this client reads.
    pub closed spec fn spec_runtime(&self) -> Runtime {
        self.runtime
    }

    pub fn new(r: Runtime) -> (c: EthClient)
        ensures
            c.spec_runtime() == r,
    {
        EthClient { runtime: r }
    }

    /// The shared state this client reads.
    pub fn runtime(&self) -> (r: &Runtime)
        ensures
            *r == self.spec_runtime(),
    {
        &self.runtime
    }

    /// The block number that a client's block name stands for.
    pub fn parse_number(num: Option<BlockNumber>, db: &HashMapEthDB) -> (r: Result<u64, &'static str>)
        requires
            db.wf(),
        ensures
            match number_for(num, best_of(*db), db.index()) {
                Some(n) => r == Ok::<u64, &'static str>(n),
                None => r == Err::<u64, &'static str>("err"),
            },
    {
        let num = match num {
            Some(n) => n,
            None => BlockNumber::Latest,
        };
        let number = match num {
            BlockNumber::Earliest => 0,
            BlockNumber::Hash { hash, require_canonical } => match db.number_of(&hash) {
                Some(n) => n,
                None => {
                    return Err("err");
                },
            },
            BlockNumber::Num(n) => n,
            BlockNumber::Pending => db.best_number(),
            BlockNumber::Latest => db.best_number(),
        };
        Ok(number)
    }

    /// `eth_protocolVersion`.
    pub fn protocol_version(&self) -> (r: String)
        ensures
            r@ == "tethereum"@,
    {
        "tethereum".to_string()
    }

    /// `eth_coinbase`: the zero address.
    pub fn author(&self) -> (r: H160)
        ensures
            all_zero_bytes(r.0@),
    {
        H160::zero()
    }

    /// `eth_mining`: always mining.
    pub fn is_mining(&self) -> (r: bool)
        ensures
            r,
    {
        true
    }

    /// `eth_chainId`.
    pub fn chain_id(&self) -> (r: Option<u64>)
        ensures
            r == Some(CHAIN_ID),
    {
        Some(CHAIN_ID)
    }

    /// `eth_gasPrice`: zero.
    pub fn gas_price(&self) -> (r: U256)
        ensures
            r == U256::spec_zero(),
    {
        U256::zero()
    }

    /// `eth_accounts`: none.
    pub fn accounts(&self) -> (r: Vec<H160>)
        ensures
            r@.len() == 0,
    {
        Vec::new()
    }

    /// `eth_hashrate`: zero.
    pub fn hashrate(&self) -> (r: U256)
        ensures
            r == U256::spec_zero(),
    {
        U256::zero()
    }

    /// `eth_syncing`: never syncing.
    pub fn syncing(&self) -> (r: bool)
        ensures
            !r,
    {
        false
    }

    /// `eth_blockNumber`: the number of the best block.
    pub fn block_number(db: &HashMapEthDB) -> (r: U256)
        requires
            db.wf(),
        ensures
            r == U256::spec_from_u64(best_of(*db)),
    {
        U256::from_u64(db.best_number())
    }

    /// `eth_getBalance`: the balance at `address` in the state of the named block.
    pub fn balance(db: &HashMapEthDB, address: H160, num: Option<BlockNumber>) -> (r: Result<U256, &'static str>)
        requires
            db.wf(),
        ensures
            match number_for(num, best_of(*db), db.index()) {
                None => r == Err::<U256, &'static str>("parse block number failed"),
                Some(n) => if n < db.states().len() {
                    r == Ok::<U256, &'static str>(account_or_empty(db.states()[n as int], address).balance)
                } else {
                    r == Err::<U256, &'static str>("invalid block number")
                },
            },
    {
        let number = match EthClient::parse_number(num, db) {
            Ok(n) => n,
            Err(_) => {
                return Err("parse block number failed");
            },
        };
        match db.state_at(number) {
            Some(states) => Ok(crate::state::basic(states, &address).balance),
            None => Err("invalid block number"),
        }
    }

    /// `eth_getBlockByNumber`: the named block, if the name stands for a block of the chain.
    /// Transactions are never listed, so `full` changes nothing.
    pub fn block_by_number(db: &HashMapEthDB, num: BlockNumber, full: bool) -> (r: Option<RichBlock>)
        requires
            db.wf(),
        ensures
            match number_for(Some(num), best_of(*db), db.index()) {
                Some(n) => if n < db.chain().len() {
                    &&& r is Some
                    &&& represents_header(r.unwrap().inner, db.chain()[n as int].header)
                    &&& r.unwrap().extra_info@ == Map::<String, String>::empty()
                } else {
                    r is None
                },
                None => r is None,
            },
    {
        let n = match EthClient::parse_number(Some(num), db) {
            Ok(n) => n,
            Err(_) => {
                return None;
            },
        };
        match db.block_at(n) {
            Some(b) => {
                let inner = RpcBlock::from_block(b);
                Some(Rich { inner, extra_info: BTreeMap::new() })
            },
            None => None,
        }
    }

    /// `eth_getTransactionCount`: the nonce at `k` in the state of the named block; zero when
    /// the block has no state or the account is missing.
    pub fn transaction_count(db: &HashMapEthDB, k: H160, num: Option<BlockNumber>) -> (r: Result<U256, &'static str>)
        requires
            db.wf(),
        ensures
            match number_for(num, best_of(*db), db.index()) {
                None => r == Err::<U256, &'static str>("parse number failed"),
                Some(n) => if n < db.states().len() {
                    r == Ok::<U256, &'static str>(account_or_empty(db.states()[n as int], k).nonce)
                } else {
                    r == Ok::<U256, &'static str>(U256::spec_zero())
                },
            },
    {
        let n = match EthClient::parse_number(num, db) {
            Ok(n) => n,
            Err(_) => {
                return Err("parse number failed");
            },
        };
        match db.state_at(n) {
            Some(states) => Ok(crate::state::basic(states, &k).nonce),
            None => Ok(U256::zero()),
        }
    }

    /// `eth_getTransactionReceipt`.
    pub fn transaction_receipt(db: &HashMapEthDB, h: H256) -> (r: Option<RpcReceipt>)
        requires
            db.wf(),
        ensures
            !db.infos().contains_key(h) ==> r is None,
            db.infos().contains_key(h) ==> r is Some && crate::db::is_receipt_of(
                r.unwrap(),
                h,
                db.infos()[h],
                db.index()[db.infos()[h].block_hash],
                db.chain(),
            ),
    {
        db.receipt(h)
    }

    /// `eth_sendRawTransaction`, before the run: the raw bytes decoded as a transaction and
    /// its sender recovered from the signature; the transaction's hash is the digest of the
    /// raw bytes.
    pub fn raw_transaction(raw: &[u8]) -> (r: Result<SignedTransaction, &'static str>)
        ensures
            match unverified_of(raw@) {
                Err(_) => r == Err::<SignedTransaction, &'static str>(
                    "rpc error: parse raw transaction failed from rlp",
                ),
                Ok(t) => match sender_of(t) {
                    None => r == Err::<SignedTransaction, &'static str>("verify transaction failed"),
                    Some(a) => r matches Ok(s) && signed_from(t, s@, a),
                },
            },
    {
        let t = match decode_unverified(raw) {
            Ok(t) => t,
            Err(_) => {
                return Err("rpc error: parse raw transaction failed from rlp");
            },
        };
        match SignedTransaction::new(t) {
            Ok(s) => Ok(s),
            Err(_) => Err("verify transaction failed"),
        }
    }

    /// `eth_sendRawTransaction`, after the run: the transaction's hash when it was committed.
    pub fn send_raw_result(outcome: Result<(), &'static str>, hash: H256) -> (r: Result<H256, &'static str>)
        ensures
            outcome is Ok ==> r == Ok::<H256, &'static str>(hash),
            outcome is Err ==> r == Err::<H256, &'static str>("rpc error: invalid transaction received"),
    {
        match outcome {
            Ok(()) => Ok(hash),
            Err(_) => Err("rpc error: invalid transaction received"),
        }
    }

    /// What `eth_call` runs: the contract must be named, the sender defaults to the zero
    /// address, the block must be found, the data defaults to none.
    pub fn call_args(req: CallRequest, num: Option<BlockNumber>, db: &HashMapEthDB) -> (r: Result<CallArgs, &'static str>)
        requires
            db.wf(),
        ensures
            req.to is None ==> (r matches Err(e) && e == "missing contract address"),
            req.to is Some && number_for(num, best_of(*db), db.index()) is None ==> (r matches Err(e) && e
                == "parse number failed"),
            req.to is Some && number_for(num, best_of(*db), db.index()) is Some ==> (r matches Ok(a) && {
                &&& request_from(req.from, a.from)
                &&& Some(a.to) == req.to
                &&& Some(a.number) == number_for(num, best_of(*db), db.index())
                &&& a.data@ == request_data(req.data)
            }),
    {
        let to = match req.to {
            Some(t) => t,
            None => {
                return Err("missing contract address");
            },
        };
        let from = sender_or_zero(req.from);
        let n = match EthClient::parse_number(num, db) {
            Ok(n) => n,
            Err(_) => {
                return Err("parse number failed");
            },
        };
        Ok(CallArgs { from, to, number: n, data: data_bytes(req.data) })
    }

    /// What `eth_call` answers once the call ran: its output when it succeeded.
    pub fn call_result(reason: ExitReason, ret: Vec<u8>) -> (r: Result<Bytes, &'static str>)
        ensures
            reason == ExitReason::Succeed ==> (r matches Ok(b) && b.0 == ret),
            reason != ExitReason::Succeed ==> (r matches Err(e) && e == "call failed"),
    {
        match reason {
            ExitReason::Succeed => Ok(Bytes(ret)),
            _ => Err("call failed"),
        }
    }

    /// What `eth_estimateGas` runs: the sender defaults to the zero address, the block must be
    /// found, the value defaults to zero, the data to none. The database is only read: an
    /// estimate keeps no change of its run.
    pub fn estimate_args(req: CallRequest, num: Option<BlockNumber>, db: &HashMapEthDB) -> (r: Result<EstimateArgs, &'static str>)
        requires
            db.wf(),
        ensures
            number_for(num, best_of(*db), db.index()) is None ==> (r matches Err(e) && e == "parse number failed"),
            number_for(num, best_of(*db), db.index()) is Some ==> (r matches Ok(a) && {
                &&& request_from(req.from, a.from)
                &&& Some(a.number) == number_for(num, best_of(*db), db.index())
                &&& a.value == match req.value {
                    Some(v) => v,
                    None => U256::spec_zero(),
                }
                &&& a.to == req.to
                &&& a.data@ == request_data(req.data)
            }),
    {
        let from = sender_or_zero(req.from);
        let n = match EthClient::parse_number(num, db) {
            Ok(n) => n,
            Err(_) => {
                return Err("parse number failed");
            },
        };
        let value = match req.value {
            Some(v) => v,
            None => U256::zero(),
        };
        Ok(EstimateArgs { from, number: n, value, to: req.to, data: data_bytes(req.data) })
    }

    /// What `eth_estimateGas` answers: the gas the run used.
    pub fn estimate_result(gas: u64) -> (r: U256)
        ensures
            r == U256::spec_from_u64(gas),
    {
        U256::from_u64(gas)
    }
}

/// The client that answers `web3_*` methods.
pub struct Web3Client;

impl Web3Client {
    /// `web3_clientVersion`.
    pub fn client_version(&self) -> (r: String)
        ensures
            r@ == "tethereum v0.1; rust"@,
    {
        "tethereum v0.1; rust".to_string()
    }

    /// `web3_sha3`: the Keccak digest of the data.
    pub fn sha3(&self, data: Bytes) -> (r: H256)
        ensures
            r == keccak_of(data.0@),
    {
        keccak(data.0.as_slice())
    }
}

/// The client that answers `net_*` methods.
pub struct NetClient;

impl NetClient {
    /// `net_version`: the chain id in decimal.
    pub fn version(&self) -> (r: String)
        ensures
            r@ == decimal_text(CHAIN_ID as nat),
    {
        u64_to_string(CHAIN_ID)
    }

    /// `net_peerCount`: no peers.
    pub fn peer_count(&self) -> (r: u64)
        ensures
            r == 0,
    {
        0
    }

    /// `net_listening`: not listening.
    pub fn is_listening(&self) -> (r: bool)
        ensures
            !r,
    {
        false
    }
}

} // verus!

verus! {

/// A `0x`-prefixed block number reads the same as text and as the `blockNumber` entry of an
/// object, whatever entries follow it.
pub proof fn law_number_text_agrees_with_object(v: BlockNumberVisitor, value: Vec<u8>, rest: Seq<MapEntry>)
    requires
        has_hex_prefix(value@),
    ensures
        map_outcome(v, seq![MapEntry::BlockNumber(value)] + rest) == block_number_of_text(value@),
{
    let entries = seq![MapEntry::BlockNumber(value)] + rest;
    assert(entries[0] == MapEntry::BlockNumber(value));
    assert(value@ != word_latest() && value@ != word_earliest() && value@ != word_pending()) by {
        if value@ == word_latest() {
            assert(value@[0] == 0x6cu8);
        }
        if value@ == word_earliest() {
            assert(value@[0] == 0x65u8);
        }
        if value@ == word_pending() {
            assert(value@[0] == 0x70u8);
        }
    }
}

/// The last `requireCanonical` value among the entries, or `dflt` when there is none.
pub open spec fn last_flag(es: Seq<MapEntry>, dflt: bool) -> bool
    decreases es.len(),
{
    if es.len() == 0 {
        dflt
    } else {
        match es.last() {
            MapEntry::RequireCanonical(b) => b,
            _ => last_flag(es.drop_last(), dflt),
        }
    }
}

/// The last `blockHash` value among the entries, or `dflt` when there is none.
pub open spec fn last_hash(es: Seq<MapEntry>, dflt: Option<H256>) -> Option<H256>
    decreases es.len(),
{
    if es.len() == 0 {
        dflt
    } else {
        match es.last() {
            MapEntry::BlockHash(h) => Some(h),
            _ => last_hash(es.drop_last(), dflt),
        }
    }
}

/// Every entry is a `blockHash` or a `requireCanonical`.
pub open spec fn hash_and_flag_only(es: Seq<MapEntry>) -> bool {
    forall|i: int| 0 <= i < es.len() ==> (#[trigger] es[i] is BlockHash || es[i] is RequireCanonical)
}

proof fn lemma_last_flag_front(es: Seq<MapEntry>, d: bool)
    requires
        es.len() > 0,
    ensures
        last_flag(es, d) == last_flag(
            es.skip(1),
            match es[0] {
                MapEntry::RequireCanonical(b) => b,
                _ => d,
            },
        ),
    decreases es.len(),
{
    let d1 = match es[0] {
        MapEntry::RequireCanonical(b) => b,
        _ => d,
    };
    if es.len() == 1 {
        assert(es.skip(1) =~= Seq::<MapEntry>::empty());
        assert(es.drop_last() =~= Seq::<MapEntry>::empty());
    } else {
        assert(es.skip(1).last() == es.last());
        assert(es.skip(1).drop_last() =~= es.drop_last().skip(1));
        assert(es.drop_last()[0] == es[0]);
        lemma_last_flag_front(es.drop_last(), d);
    }
}

proof fn lemma_last_hash_front(es: Seq<MapEntry>, d: Option<H256>)
    requires
        es.len() > 0,
    ensures
        last_hash(es, d) == last_hash(
            es.skip(1),
            match es[0] {
                MapEntry::BlockHash(h) => Some(h),
                _ => d,
            },
        ),
    decreases es.len(),
{
    if es.len() == 1 {
        assert(es.skip(1) =~= Seq::<MapEntry>::empty());
        assert(es.drop_last() =~= Seq::<MapEntry>::empty());
    } else {
        assert(es.skip(1).last() == es.last());
        assert(es.skip(1).drop_last() =~= es.drop_last().skip(1));
        assert(es.drop_last()[0] == es[0]);
        lemma_last_hash_front(es.drop_last(), d);
    }
}

/// A block number written as an object of `blockHash` and `requireCanonical` entries, in any
/// order, names the last hash given with the last flag given (the visitor's own when none
/// is), and is refused when no hash is given.
pub proof fn law_object_keeps_last_hash_and_flag(v: BlockNumberVisitor, es: Seq<MapEntry>)
    requires
        hash_and_flag_only(es),
    ensures
        map_outcome(v, es) == match last_hash(es, v.block_hash) {
            Some(h) => Ok(BlockNumber::Hash { hash: h, require_canonical: last_flag(es, v.require_canonical) }),
            None => Err(BlockNumberError::InvalidInput),
        },
    decreases es.len(),
{
    if es.len() > 0 {
        assert(es[0] is BlockHash || es[0] is RequireCanonical);
        lemma_last_flag_front(es, v.require_canonical);
        lemma_last_hash_front(es, v.block_hash);
        let next = match es[0] {
            MapEntry::BlockHash(h) => BlockNumberVisitor { block_hash: Some(h), ..v },
            MapEntry::RequireCanonical(b) => BlockNumberVisitor { require_canonical: b, ..v },
            _ => v,
        };
        assert(map_step(v, es[0]) == MapStep::Continue(next));
        assert forall|i: int| 0 <= i < es.skip(1).len() implies (#[trigger] es.skip(1)[i] is BlockHash
            || es.skip(1)[i] is RequireCanonical) by {
            assert(es.skip(1)[i] == es[i + 1]);
        }
        law_object_keeps_last_hash_and_flag(next, es.skip(1));
    }
}

} // verus!

