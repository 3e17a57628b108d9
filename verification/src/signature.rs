//! Transaction signatures: the recovery id and chain id that `v` carries, and the public key
//! and address that a signature recovers to, as `parity-crypto` computes them.
use vstd::prelude::*;
use crate::hashing::keccak_of;
use crate::primitives::{H160, H256, H512, U256};

verus! {

/// The public key that `parity_crypto::publickey::recover` recovers from the signature with
/// parts `r`, `s` and recovery id `id` over the message `msg`, if it recovers one.
pub uninterp spec fn recovered_public(msg: H256, r: U256, s: U256, id: u8) -> Option<H512>;

/// `parity_crypto::publickey::recover` of the signature made of `r`, `s` and `id` (each part as 32
/// big-endian bytes) over `msg`: the 64-byte public key, or none when recovery fails.
#[verifier::external_body]
pub(crate) fn recover_public(msg: &H256, r: &U256, s: &U256, id: u8) -> (p: Option<H512>)
    ensures
        p == recovered_public(*msg, *r, *s, id),
{
    let mut rb = [0u8; 32];
    ethereum_types::U256(r.0).to_big_endian(&mut rb);
    let mut sb = [0u8; 32];
    ethereum_types::U256(s.0).to_big_endian(&mut sb);
    let sig = parity_crypto::publickey::Signature::from_rsv(
        &parity_crypto::publickey::Message::from_slice(&rb),
        &parity_crypto::publickey::Message::from_slice(&sb),
        id,
    );
    match parity_crypto::publickey::recover(&sig, &parity_crypto::publickey::Message::from_slice(&msg.0)) {
        Ok(p) => Some(H512(p.0)),
        Err(_) => None,
    }
}

/// The address of a public key: the last 20 bytes of its Keccak-256 digest.
pub open spec fn address_of_public(p: H512) -> Seq<u8> {
    keccak_of(p.0@).0@.subrange(12, 32)
}

/// `parity_crypto::publickey::public_to_address`: the last 20 bytes of the Keccak-256 digest
/// of the public key (the crate hashes with `tiny_keccak::Keccak::v256`, as `keccak-hash`
/// does).
#[verifier::external_body]
pub(crate) fn public_to_address(p: &H512) -> (a: H160)
    ensures
        a.0@ == address_of_public(*p),
{
    H160(parity_crypto::publickey::public_to_address(&parity_crypto::publickey::Public::from_slice(&p.0)).0)
}

/// What the `v` of a signature carries: 27 and 28 give recovery ids 0 and 1 and no chain id;
/// 35 and above give recovery id `(v - 35) % 2` and chain id `(v - 35) / 2`; other values
/// are refused.
pub open spec fn signature_parts_of(v: u64) -> Option<(u8, Option<u64>)> {
    if v == 27 || v == 28 {
        Some(((v - 27) as u8, None))
    } else if v >= 35 {
        Some((((v - 35) % 2) as u8, Some(((v - 35) / 2) as u64)))
    } else {
        None
    }
}

/// The recovery id and chain id that `v` carries.
pub fn signature_parts(v: u64) -> (r: Option<(u8, Option<u64>)>)
    ensures
        r == signature_parts_of(v),
{
    if v == 27 || v == 28 {
        Some(((v - 27) as u8, None))
    } else if v >= 35 {
        Some((((v - 35) % 2) as u8, Some((v - 35) / 2)))
    } else {
        None
    }
}

} // verus!
