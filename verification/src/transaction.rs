//! Signed transactions and what the chain records of each one it ran.
use vstd::prelude::*;
use crate::ethcore::{Action, ActionDecodeError, action_rlp, decoded_action};
use crate::hashing::{
    keccak, keccak_of, rlp_decode_bytes, rlp_decode_u256, rlp_decode_u64, rlp_decoded_bytes,
    rlp_decoded_u256, rlp_decoded_u64, rlp_encode_bytes, rlp_encode_list, rlp_encode_u256,
    rlp_encode_u64, rlp_item_at, rlp_item_count, rlp_list_count, rlp_list_item, rlp_of_bytes,
    rlp_of_list, rlp_of_u256, rlp_of_u64,
};
use crate::primitives::{H160, H256, U256};
use crate::signature::{
    address_of_public, public_to_address, recover_public, recovered_public, signature_parts,
    signature_parts_of,
};
use crate::state::Log;

verus! {

/// A transaction whose signature has been checked, with the sender it recovers to.
#[derive(Debug, Clone, PartialEq)]
pub struct SignedTransaction {
    /// Sender's nonce.
    pub nonce: U256,
    /// Gas price.
    pub gas_price: U256,
    /// Gas limit.
    pub gas: U256,
    /// Contract creation or call.
    pub action: Action,
    /// Value transferred.
    pub value: U256,
    /// Call data or contract code.
    pub data: Vec<u8>,
    /// The address the signature recovers to.
    pub signer: H160,
    /// The hash of the signed transaction.
    pub tx_hash: H256,
}

/// A signed transaction as mathematical values.
pub struct TransactionState {
    pub nonce: U256,
    pub gas_price: U256,
    pub gas: U256,
    pub action: Action,
    pub value: U256,
    pub data: Seq<u8>,
    pub signer: H160,
    pub tx_hash: H256,
}

impl View for SignedTransaction {
    type V = TransactionState;

    open spec fn view(&self) -> TransactionState {
        TransactionState {
            nonce: self.nonce,
            gas_price: self.gas_price,
            gas: self.gas,
            action: self.action,
            value: self.value,
            data: self.data@,
            signer: self.signer,
            tx_hash: self.tx_hash,
        }
    }
}

/// The address of the contract that `sender` creates with nonce `nonce`: the last 20 bytes of
/// the digest of the RLP list of the sender and the nonce.
pub open spec fn created_address(sender: H160, nonce: U256) -> Seq<u8> {
    keccak_of(rlp_of_list(seq![rlp_of_bytes(sender.0@), rlp_of_u256(nonce)])).0@.subrange(12, 32)
}

/// The receiver of a transaction: the called address, none for a creation.
pub open spec fn receiver_of(a: Action) -> Option<H160> {
    match a {
        Action::Create => None,
        Action::Call(addr) => Some(addr),
    }
}

impl SignedTransaction {
    /// The sender.
    pub fn sender(&self) -> (r: H160)
        ensures
            r == self.signer,
    {
        self.signer
    }

    /// The hash.
    pub fn hash(&self) -> (r: H256)
        ensures
            r == self.tx_hash,
    {
        self.tx_hash
    }

    /// The receiver: the called address, none for a contract creation.
    pub fn receiver(&self) -> (r: Option<H160>)
        ensures
            r == receiver_of(self.action),
    {
        match self.action {
            Action::Create => None,
            Action::Call(addr) => Some(addr),
        }
    }

    /// The address of the contract that a creation makes; none for a call.
    pub fn contract_address(&self) -> (r: Option<H160>)
        ensures
            match self.action {
                Action::Create => r is Some && r.unwrap().0@ == created_address(self.signer, self.nonce),
                Action::Call(_) => r is None,
            },
    {
        match self.action {
            Action::Call(_) => None,
            Action::Create => {
                let mut items: Vec<Vec<u8>> = Vec::new();
                items.push(rlp_encode_bytes(self.signer.0.as_slice()));
                items.push(rlp_encode_u256(self.nonce));
                proof {
                    assert(items@.map_values(|v: Vec<u8>| v@) =~= seq![rlp_of_bytes(self.signer.0@), rlp_of_u256(self.nonce)]);
                }
                let digest = keccak(rlp_encode_list(&items).as_slice());
                let mut bytes = [0u8; 20];
                let mut i: usize = 0;
                while i < 20
                    invariant
                        i <= 20,
                        bytes@.len() == 20,
                        digest.0@.len() == 32,
                        forall|j: int| 0 <= j < i ==> bytes@[j] == digest.0@[12 + j],
                    decreases 20 - i,
                {
                    bytes[i] = digest.0[12 + i];
                    i = i + 1;
                }
                proof {
                    assert(bytes@ =~= digest.0@.subrange(12, 32));
                }
                Some(H160(bytes))
            },
        }
    }

    /// A copy of this transaction.
    pub fn duplicate(&self) -> (r: SignedTransaction)
        ensures
            r@ == self@,
    {
        SignedTransaction {
            nonce: self.nonce,
            gas_price: self.gas_price,
            gas: self.gas,
            action: self.action,
            value: self.value,
            data: self.data.clone(),
            signer: self.signer,
            tx_hash: self.tx_hash,
        }
    }
}

/// What the chain records of a transaction it ran.
pub struct TransactionInfo {
    /// State root of the block before it.
    pub post_state: H256,
    /// Hash of the block before it.
    pub parent_hash: H256,
    /// Hash of the block that holds it.
    pub block_hash: H256,
    /// Its position in that block.
    pub index: u64,
    /// The transaction itself.
    pub transaction: Option<SignedTransaction>,
    /// What a call returned.
    pub result: Option<Vec<u8>>,
    /// The logs it emitted.
    pub logs: Vec<Log>,
}

impl Default for TransactionInfo {
    fn default() -> (r: TransactionInfo)
        ensures
            r.post_state.spec_is_zero(),
            r.parent_hash.spec_is_zero(),
            r.block_hash.spec_is_zero(),
            r.index == 0,
            r.transaction is None,
            r.result is None,
            r.logs@.len() == 0,
    {
        TransactionInfo {
            post_state: H256::zero(),
            parent_hash: H256::zero(),
            block_hash: H256::zero(),
            index: 0,
            transaction: None,
            result: None,
            logs: Vec::new(),
        }
    }
}

/// A transaction as it arrives: its fields, its signature, and the digest of its raw bytes;
/// the signature has not been checked.
pub struct UnverifiedTransaction {
    /// Sender's nonce.
    pub nonce: U256,
    /// Gas price.
    pub gas_price: U256,
    /// Gas limit.
    pub gas: U256,
    /// Contract creation or call.
    pub action: Action,
    /// Value transferred.
    pub value: U256,
    /// Call data or contract code.
    pub data: Vec<u8>,
    /// The `v` of the signature: recovery id, and chain id when there is one.
    pub v: u64,
    /// The `r` of the signature.
    pub r: U256,
    /// The `s` of the signature.
    pub s: U256,
    /// The Keccak-256 digest of the raw transaction.
    pub hash: H256,
}

/// An unverified transaction as mathematical values.
pub struct UnverifiedState {
    pub nonce: U256,
    pub gas_price: U256,
    pub gas: U256,
    pub action: Action,
    pub value: U256,
    pub data: Seq<u8>,
    pub v: u64,
    pub r: U256,
    pub s: U256,
    pub hash: H256,
}

impl View for UnverifiedTransaction {
    type V = UnverifiedState;

    open spec fn view(&self) -> UnverifiedState {
        UnverifiedState {
            nonce: self.nonce,
            gas_price: self.gas_price,
            gas: self.gas,
            action: self.action,
            value: self.value,
            data: self.data@,
            v: self.v,
            r: self.r,
            s: self.s,
            hash: self.hash,
        }
    }
}

/// Why raw bytes do not decode as a transaction.
#[derive(Debug)]
pub enum TxDecodeError {
    /// The bytes, or one of the fields, are no valid RLP of what is expected there.
    Rlp(rlp::DecoderError),
    /// A list of other than nine items.
    IncorrectListLen,
    /// The action is an empty list.
    ActionExpectedToBeData,
}

/// The kinds of `TxDecodeError`.
#[derive(Clone, Copy, Debug, PartialEq, Eq)]
pub enum TxDecodeFailure {
    Rlp,
    IncorrectListLen,
    ActionExpectedToBeData,
}

/// The kind of a decoding error.
pub open spec fn failure_of(e: TxDecodeError) -> TxDecodeFailure {
    match e {
        TxDecodeError::Rlp(_) => TxDecodeFailure::Rlp,
        TxDecodeError::IncorrectListLen => TxDecodeFailure::IncorrectListLen,
        TxDecodeError::ActionExpectedToBeData => TxDecodeFailure::ActionExpectedToBeData,
    }
}

/// The 256-bit number that item `i` of a list decodes to.
pub open spec fn u256_item(raw: Seq<u8>, i: usize) -> Option<U256> {
    match rlp_list_item(raw, i) {
        Some(item) => rlp_decoded_u256(item),
        None => None,
    }
}

/// The 64-bit number that item `i` of a list decodes to.
pub open spec fn u64_item(raw: Seq<u8>, i: usize) -> Option<u64> {
    match rlp_list_item(raw, i) {
        Some(item) => rlp_decoded_u64(item),
        None => None,
    }
}

/// The byte string that item `i` of a list decodes to.
pub open spec fn bytes_item(raw: Seq<u8>, i: usize) -> Option<Seq<u8>> {
    match rlp_list_item(raw, i) {
        Some(item) => rlp_decoded_bytes(item),
        None => None,
    }
}

/// What raw bytes decode to as a transaction: an RLP list of nine items, read in order as
/// nonce, gas price, gas, action, value, data, `v`, `r` and `s`; its hash is the digest of
/// the raw bytes. The first field that does not decode decides the error.
pub open spec fn unverified_of(raw: Seq<u8>) -> Result<UnverifiedState, TxDecodeFailure> {
    match rlp_list_count(raw) {
        None => Err(TxDecodeFailure::Rlp),
        Some(c) => if c != 9 {
            Err(TxDecodeFailure::IncorrectListLen)
        } else if u256_item(raw, 0) is None || u256_item(raw, 1) is None || u256_item(raw, 2) is None {
            Err(TxDecodeFailure::Rlp)
        } else {
            match rlp_list_item(raw, 3) {
                None => Err(TxDecodeFailure::Rlp),
                Some(item) => if item.len() > 0 && item[0] == 0xc0u8 {
                    Err(TxDecodeFailure::ActionExpectedToBeData)
                } else {
                    match decoded_action(item) {
                        None => Err(TxDecodeFailure::Rlp),
                        Some(a) => if u256_item(raw, 4) is None || bytes_item(raw, 5) is None
                            || u64_item(raw, 6) is None || u256_item(raw, 7) is None || u256_item(
                            raw,
                            8,
                        ) is None {
                            Err(TxDecodeFailure::Rlp)
                        } else {
                            Ok(
                                UnverifiedState {
                                    nonce: u256_item(raw, 0).unwrap(),
                                    gas_price: u256_item(raw, 1).unwrap(),
                                    gas: u256_item(raw, 2).unwrap(),
                                    action: a,
                                    value: u256_item(raw, 4).unwrap(),
                                    data: bytes_item(raw, 5).unwrap(),
                                    v: u64_item(raw, 6).unwrap(),
                                    r: u256_item(raw, 7).unwrap(),
                                    s: u256_item(raw, 8).unwrap(),
                                    hash: keccak_of(raw),
                                },
                            )
                        },
                    }
                },
            }
        },
    }
}

/// Item `i` of a list, decoded as a 256-bit number.
fn u256_at(raw: &[u8], i: usize) -> (r: Result<U256, rlp::DecoderError>)
    ensures
        r is Ok <==> u256_item(raw@, i) is Some,
        r matches Ok(n) ==> u256_item(raw@, i) == Some(n),
{
    match rlp_item_at(raw, i) {
        Ok(item) => rlp_decode_u256(item.as_slice()),
        Err(e) => Err(e),
    }
}

/// Item `i` of a list, decoded as a 64-bit number.
fn u64_at(raw: &[u8], i: usize) -> (r: Result<u64, rlp::DecoderError>)
    ensures
        r is Ok <==> u64_item(raw@, i) is Some,
        r matches Ok(n) ==> u64_item(raw@, i) == Some(n),
{
    match rlp_item_at(raw, i) {
        Ok(item) => rlp_decode_u64(item.as_slice()),
        Err(e) => Err(e),
    }
}

/// Item `i` of a list, decoded as a byte string.
fn bytes_at(raw: &[u8], i: usize) -> (r: Result<Vec<u8>, rlp::DecoderError>)
    ensures
        r is Ok <==> bytes_item(raw@, i) is Some,
        r matches Ok(b) ==> bytes_item(raw@, i) == Some(b@),
{
    match rlp_item_at(raw, i) {
        Ok(item) => rlp_decode_bytes(item.as_slice()),
        Err(e) => Err(e),
    }
}

/// Decodes a raw transaction: an RLP list of nonce, gas price, gas, action, value, data,
/// `v`, `r` and `s`.
pub fn decode_unverified(raw: &[u8]) -> (r: Result<UnverifiedTransaction, TxDecodeError>)
    ensures
        match unverified_of(raw@) {
            Ok(t) => r matches Ok(u) && u@ == t,
            Err(k) => r matches Err(e) && failure_of(e) == k,
        },
{
    let count = match rlp_item_count(raw) {
        Ok(c) => c,
        Err(e) => {
            return Err(TxDecodeError::Rlp(e));
        },
    };
    if count != 9 {
        return Err(TxDecodeError::IncorrectListLen);
    }
    let nonce = match u256_at(raw, 0) {
        Ok(n) => n,
        Err(e) => {
            return Err(TxDecodeError::Rlp(e));
        },
    };
    let gas_price = match u256_at(raw, 1) {
        Ok(n) => n,
        Err(e) => {
            return Err(TxDecodeError::Rlp(e));
        },
    };
    let gas = match u256_at(raw, 2) {
        Ok(n) => n,
        Err(e) => {
            return Err(TxDecodeError::Rlp(e));
        },
    };
    let item = match rlp_item_at(raw, 3) {
        Ok(item) => item,
        Err(e) => {
            return Err(TxDecodeError::Rlp(e));
        },
    };
    let action = match Action::decode(item.as_slice()) {
        Ok(a) => a,
        Err(ActionDecodeError::RlpExpectedToBeData) => {
            return Err(TxDecodeError::ActionExpectedToBeData);
        },
        Err(ActionDecodeError::Rlp(e)) => {
            return Err(TxDecodeError::Rlp(e));
        },
    };
    let value = match u256_at(raw, 4) {
        Ok(n) => n,
        Err(e) => {
            return Err(TxDecodeError::Rlp(e));
        },
    };
    let data = match bytes_at(raw, 5) {
        Ok(b) => b,
        Err(e) => {
            return Err(TxDecodeError::Rlp(e));
        },
    };
    let v = match u64_at(raw, 6) {
        Ok(n) => n,
        Err(e) => {
            return Err(TxDecodeError::Rlp(e));
        },
    };
    let r = match u256_at(raw, 7) {
        Ok(n) => n,
        Err(e) => {
            return Err(TxDecodeError::Rlp(e));
        },
    };
    let s = match u256_at(raw, 8) {
        Ok(n) => n,
        Err(e) => {
            return Err(TxDecodeError::Rlp(e));
        },
    };
    let hash = keccak(raw);
    Ok(UnverifiedTransaction { nonce, gas_price, gas, action, value, data, v, r, s, hash })
}

/// The encoded items that a signature signs: nonce, gas price, gas, action, value and data,
/// then, with a chain id, the chain id and two zeros.
pub open spec fn signing_items(t: UnverifiedState, chain_id: Option<u64>) -> Seq<Seq<u8>> {
    let base = seq![
        rlp_of_u256(t.nonce),
        rlp_of_u256(t.gas_price),
        rlp_of_u256(t.gas),
        action_rlp(t.action),
        rlp_of_u256(t.value),
        rlp_of_bytes(t.data),
    ];
    match chain_id {
        Some(id) => base + seq![rlp_of_u64(id), rlp_of_u64(0), rlp_of_u64(0)],
        None => base,
    }
}

/// The digest that a signature signs.
pub open spec fn signing_message(t: UnverifiedState, chain_id: Option<u64>) -> H256 {
    keccak_of(rlp_of_list(signing_items(t, chain_id)))
}

/// The RLP list that a signature signs.
pub fn signing_payload(t: &UnverifiedTransaction, chain_id: Option<u64>) -> (r: Vec<u8>)
    ensures
        r@ == rlp_of_list(signing_items(t@, chain_id)),
{
    let mut items: Vec<Vec<u8>> = Vec::new();
    items.push(rlp_encode_u256(t.nonce));
    items.push(rlp_encode_u256(t.gas_price));
    items.push(rlp_encode_u256(t.gas));
    items.push(t.action.rlp_bytes());
    items.push(rlp_encode_u256(t.value));
    items.push(rlp_encode_bytes(t.data.as_slice()));
    match chain_id {
        Some(id) => {
            items.push(rlp_encode_u64(id));
            items.push(rlp_encode_u64(0));
            items.push(rlp_encode_u64(0));
        },
        None => {},
    }
    proof {
        assert(items@.map_values(|v: Vec<u8>| v@) =~= signing_items(t@, chain_id));
    }
    rlp_encode_list(&items)
}

/// The address that a transaction's signature recovers to, if its `v` is valid and the
/// signature recovers.
pub open spec fn sender_of(t: UnverifiedState) -> Option<Seq<u8>> {
    match signature_parts_of(t.v) {
        None => None,
        Some((id, chain_id)) => match recovered_public(signing_message(t, chain_id), t.r, t.s, id) {
            None => None,
            Some(p) => Some(address_of_public(p)),
        },
    }
}

/// Whether `s` is the transaction `t` with the sender `signer`: the same fields, and the hash
/// of the raw transaction.
pub open spec fn signed_from(t: UnverifiedState, s: TransactionState, signer: Seq<u8>) -> bool {
    &&& s.nonce == t.nonce
    &&& s.gas_price == t.gas_price
    &&& s.gas == t.gas
    &&& s.action == t.action
    &&& s.value == t.value
    &&& s.data == t.data
    &&& s.signer.0@ == signer
    &&& s.tx_hash == t.hash
}

/// Why a signature does not check.
#[derive(Clone, Copy, Debug, PartialEq, Eq)]
pub enum SignatureError {
    /// `v` is neither 27, 28 nor at least 35.
    InvalidV,
    /// No public key recovers from the signature.
    Unrecoverable,
}

impl SignedTransaction {
    /// Checks the signature of `t` and recovers its sender.
    pub fn new(t: UnverifiedTransaction) -> (r: Result<SignedTransaction, SignatureError>)
        ensures
            match signature_parts_of(t.v) {
                None => r == Err::<SignedTransaction, SignatureError>(SignatureError::InvalidV),
                Some((id, chain_id)) => match recovered_public(signing_message(t@, chain_id), t.r, t.s, id) {
                    None => r == Err::<SignedTransaction, SignatureError>(SignatureError::Unrecoverable),
                    Some(p) => r matches Ok(s) && signed_from(t@, s@, address_of_public(p)),
                },
            },
    {
        let (id, chain_id) = match signature_parts(t.v) {
            Some(parts) => parts,
            None => {
                return Err(SignatureError::InvalidV);
            },
        };
        let payload = signing_payload(&t, chain_id);
        let message = keccak(payload.as_slice());
        let public = match recover_public(&message, &t.r, &t.s, id) {
            Some(p) => p,
            None => {
                return Err(SignatureError::Unrecoverable);
            },
        };
        let signer = public_to_address(&public);
        Ok(
            SignedTransaction {
                nonce: t.nonce,
                gas_price: t.gas_price,
                gas: t.gas,
                action: t.action,
                value: t.value,
                data: t.data,
                signer,
                tx_hash: t.hash,
            },
        )
    }
}

} // verus!
