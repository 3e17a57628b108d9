//! Keccak hashing and RLP encoding, as the `keccak-hash` and `rlp` crates compute them.
use vstd::prelude::*;
use crate::primitives::{H160, H256, U256};

verus! {

/// The Keccak-256 digest of a byte string, as `keccak_hash::keccak` computes it.
pub uninterp spec fn keccak_of(data: Seq<u8>) -> H256;

/// The RLP encoding of a byte string, as `rlp::encode` writes it for a byte slice.
pub uninterp spec fn rlp_of_bytes(data: Seq<u8>) -> Seq<u8>;

/// The big-endian bytes of a number, without leading zeros; none for zero.
pub open spec fn be_min(n: nat) -> Seq<u8>
    decreases n,
{
    if n == 0 {
        Seq::empty()
    } else {
        be_min(n / 256).push((n % 256) as u8)
    }
}

/// The RLP encoding of a byte string: a single byte below `0x80` stands for itself; up to 55
/// bytes follow `0x80` plus their count; longer strings follow `0xb7` plus the length of their
/// length, then their length.
pub open spec fn rlp_string(d: Seq<u8>) -> Seq<u8> {
    if d.len() == 1 && d[0] < 0x80u8 {
        d
    } else if d.len() <= 55 {
        seq![(0x80 + d.len()) as u8] + d
    } else {
        seq![(0xb7 + be_min(d.len()).len()) as u8] + be_min(d.len()) + d
    }
}

/// The concatenation of encoded items.
pub open spec fn concat_items(items: Seq<Seq<u8>>) -> Seq<u8>
    decreases items.len(),
{
    if items.len() == 0 {
        Seq::empty()
    } else {
        concat_items(items.drop_last()) + items.last()
    }
}

/// The RLP list of encoded items: a payload up to 55 bytes follows `0xc0` plus its length;
/// a longer one follows `0xf7` plus the length of its length, then its length.
pub open spec fn rlp_list_bytes(items: Seq<Seq<u8>>) -> Seq<u8> {
    let p = concat_items(items);
    if p.len() <= 55 {
        seq![(0xc0 + p.len()) as u8] + p
    } else {
        seq![(0xf7 + be_min(p.len()).len()) as u8] + be_min(p.len()) + p
    }
}

/// The RLP encoding of a 64-bit number: its minimal big-endian bytes, as data.
pub open spec fn rlp_of_u64(n: u64) -> Seq<u8> {
    rlp_string(be_min(n as nat))
}

/// The RLP encoding of a 256-bit number: its minimal big-endian bytes, as data.
pub open spec fn rlp_of_u256(n: U256) -> Seq<u8> {
    rlp_string(be_min(n.value()))
}

/// The RLP list whose items are the given encoded items, as an `RlpStream` opened with
/// `new_list` and fed each item with `append_raw` writes it.
pub uninterp spec fn rlp_of_list(items: Seq<Seq<u8>>) -> Seq<u8>;

/// `keccak_hash::keccak`: the Keccak-256 digest of `data`.
#[verifier::external_body]
pub(crate) fn keccak(data: &[u8]) -> (r: H256)
    ensures
        r == keccak_of(data@),
{
    H256(keccak_hash::keccak(data).0)
}

/// `keccak_hash::KECCAK_NULL_RLP`: the digest of the RLP encoding of empty data (`0x80`).
#[verifier::external_body]
pub(crate) fn keccak_null_rlp() -> (r: H256)
    ensures
        r == keccak_of(seq![0x80u8]),
        r.0@ == seq![
            0x56u8, 0xe8, 0x1f, 0x17, 0x1b, 0xcc, 0x55, 0xa6, 0xff, 0x83, 0x45, 0xe6, 0x92, 0xc0,
            0xf8, 0x6e, 0x5b, 0x48, 0xe0, 0x1b, 0x99, 0x6c, 0xad, 0xc0, 0x01, 0x62, 0x2f, 0xb5,
            0xe3, 0x63, 0xb4, 0x21,
        ],
{
    H256(keccak_hash::KECCAK_NULL_RLP.0)
}

/// `keccak_hash::KECCAK_EMPTY_LIST_RLP`: the digest of the RLP encoding of an empty list
/// (`0xc0`).
#[verifier::external_body]
pub(crate) fn keccak_empty_list_rlp() -> (r: H256)
    ensures
        r == keccak_of(seq![0xc0u8]),
        r.0@ == seq![
            0x1du8, 0xcc, 0x4d, 0xe8, 0xde, 0xc7, 0x5d, 0x7a, 0xab, 0x85, 0xb5, 0x67, 0xb6, 0xcc,
            0xd4, 0x1a, 0xd3, 0x12, 0x45, 0x1b, 0x94, 0x8a, 0x74, 0x13, 0xf0, 0xa1, 0x42, 0xfd,
            0x40, 0xd4, 0x93, 0x47,
        ],
{
    H256(keccak_hash::KECCAK_EMPTY_LIST_RLP.0)
}

/// `rlp::encode` of a byte slice: its RLP encoding as data. The crate writes a length in at
/// most four bytes, so the encoding is stated for strings shorter than 2^32 bytes.
#[verifier::external_body]
pub(crate) fn rlp_encode_bytes(data: &[u8]) -> (r: Vec<u8>)
    ensures
        r@ == rlp_of_bytes(data@),
        data@.len() < 0x1_0000_0000 ==> r@ == rlp_string(data@),
{
    rlp::encode(&data).to_vec()
}

/// `rlp::encode` of a `u64`: its minimal big-endian bytes (`to_be_bytes` past the leading
/// zero bytes), encoded as data.
#[verifier::external_body]
pub(crate) fn rlp_encode_u64(n: u64) -> (r: Vec<u8>)
    ensures
        r@ == rlp_of_u64(n),
{
    rlp::encode(&n).to_vec()
}

/// `rlp::encode` of an `ethereum_types::U256` with the same limbs (least significant first):
/// its minimal big-endian bytes, encoded as data.
#[verifier::external_body]
pub(crate) fn rlp_encode_u256(n: U256) -> (r: Vec<u8>)
    ensures
        r@ == rlp_of_u256(n),
{
    rlp::encode(&ethereum_types::U256(n.0)).to_vec()
}

/// `rlp::RlpStream::new_list`, `append_raw` of each item as one item, then `out`: the RLP
/// list of the already encoded items. The crate writes a length in at most four bytes, so the
/// encoding is stated for payloads shorter than 2^32 bytes.
#[verifier::external_body]
pub(crate) fn rlp_encode_list(items: &Vec<Vec<u8>>) -> (r: Vec<u8>)
    ensures
        r@ == rlp_of_list(items@.map_values(|v: Vec<u8>| v@)),
        concat_items(items@.map_values(|v: Vec<u8>| v@)).len() < 0x1_0000_0000 ==> r@
            == rlp_list_bytes(items@.map_values(|v: Vec<u8>| v@)),
{
    let mut s = rlp::RlpStream::new_list(items.len());
    for item in items.iter() {
        s.append_raw(item, 1);
    }
    s.out().to_vec()
}

/// Whether an RLP item is empty data or an empty list, as `rlp::Rlp::is_empty` tells:
/// the item is not empty and its first byte is `0x80` or `0xc0`.
#[verifier::external_body]
pub(crate) fn rlp_is_empty(item: &[u8]) -> (r: bool)
    ensures
        r == (item@.len() > 0 && (item@[0] == 0x80u8 || item@[0] == 0xc0u8)),
{
    rlp::Rlp::new(item).is_empty()
}

/// Whether an RLP item is data rather than a list, as `rlp::Rlp::is_data` tells: the item is
/// not empty and its first byte is below `0xc0`.
#[verifier::external_body]
pub(crate) fn rlp_is_data(item: &[u8]) -> (r: bool)
    ensures
        r == (item@.len() > 0 && item@[0] < 0xc0u8),
{
    rlp::Rlp::new(item).is_data()
}

/// `rlp::DecoderError`, the reason an RLP item could not be decoded.
#[verifier::external_type_specification]
#[verifier::external_body]
pub struct ExDecoderError(rlp::DecoderError);

/// The address that `rlp::Rlp::as_val::<H160>` decodes from an RLP item, if it decodes one.
pub uninterp spec fn rlp_decoded_address(item: Seq<u8>) -> Option<H160>;

/// `rlp::Rlp::as_val::<H160>`: the 20-byte address that an RLP data item holds. What error
/// comes back on failure is left unsaid.
///
/// An item of `0x94` followed by 20 bytes is a short byte string of those 20 bytes, and
/// decodes to them.
#[verifier::external_body]
pub(crate) fn rlp_decode_address(item: &[u8]) -> (r: Result<H160, rlp::DecoderError>)
    ensures
        r is Ok <==> rlp_decoded_address(item@) is Some,
        r matches Ok(a) ==> rlp_decoded_address(item@) == Some(a),
        item@.len() == 21 && item@[0] == 0x94u8 ==> r is Ok && r.unwrap().0@ == item@.subrange(1, 21),
{
    rlp::Rlp::new(item).as_val::<ethereum_types::H160>().map(|a| H160(a.0))
}

/// The number of items of an RLP list, as `rlp::Rlp::item_count` counts them; none when the
/// item is no list.
pub uninterp spec fn rlp_list_count(raw: Seq<u8>) -> Option<usize>;

/// `rlp::Rlp::item_count`: the number of items of a list. It fails exactly when the item is
/// no list (empty, or a first byte below `0xc0`).
#[verifier::external_body]
pub(crate) fn rlp_item_count(raw: &[u8]) -> (r: Result<usize, rlp::DecoderError>)
    ensures
        r is Ok <==> rlp_list_count(raw@) is Some,
        r matches Ok(n) ==> rlp_list_count(raw@) == Some(n),
        r is Ok <==> (raw@.len() > 0 && raw@[0] >= 0xc0u8),
{
    rlp::Rlp::new(raw).item_count()
}

/// The bytes of item `index` of an RLP list, as `rlp::Rlp::at` finds them; none when the
/// item is no list or has no such item.
pub uninterp spec fn rlp_list_item(raw: Seq<u8>, index: usize) -> Option<Seq<u8>>;

/// `rlp::Rlp::at` then `as_raw`: the encoded bytes of item `index` of a list.
#[verifier::external_body]
pub(crate) fn rlp_item_at(raw: &[u8], index: usize) -> (r: Result<Vec<u8>, rlp::DecoderError>)
    ensures
        r is Ok <==> rlp_list_item(raw@, index) is Some,
        r matches Ok(item) ==> rlp_list_item(raw@, index) == Some(item@),
{
    match rlp::Rlp::new(raw).at(index) {
        Ok(item) => Ok(item.as_raw().to_vec()),
        Err(e) => Err(e),
    }
}

/// The 256-bit number that `rlp::Rlp::as_val::<U256>` decodes from an RLP item, if any.
pub uninterp spec fn rlp_decoded_u256(item: Seq<u8>) -> Option<U256>;

/// `rlp::Rlp::as_val::<ethereum_types::U256>`: the number an RLP data item holds, as limbs
/// least significant first. What error comes back on failure is left unsaid.
#[verifier::external_body]
pub(crate) fn rlp_decode_u256(item: &[u8]) -> (r: Result<U256, rlp::DecoderError>)
    ensures
        r is Ok <==> rlp_decoded_u256(item@) is Some,
        r matches Ok(n) ==> rlp_decoded_u256(item@) == Some(n),
{
    match rlp::Rlp::new(item).as_val::<ethereum_types::U256>() {
        Ok(n) => Ok(U256(n.0)),
        Err(e) => Err(e),
    }
}

/// The 64-bit number that `rlp::Rlp::as_val::<u64>` decodes from an RLP item, if any.
pub uninterp spec fn rlp_decoded_u64(item: Seq<u8>) -> Option<u64>;

/// `rlp::Rlp::as_val::<u64>`: the number an RLP data item holds. What error comes back on
/// failure is left unsaid.
#[verifier::external_body]
pub(crate) fn rlp_decode_u64(item: &[u8]) -> (r: Result<u64, rlp::DecoderError>)
    ensures
        r is Ok <==> rlp_decoded_u64(item@) is Some,
        r matches Ok(n) ==> rlp_decoded_u64(item@) == Some(n),
{
    rlp::Rlp::new(item).as_val::<u64>()
}

/// The byte string that `rlp::Rlp::as_val::<Vec<u8>>` decodes from an RLP item, if any.
pub uninterp spec fn rlp_decoded_bytes(item: Seq<u8>) -> Option<Seq<u8>>;

/// `rlp::Rlp::as_val::<Vec<u8>>`: the byte string an RLP data item holds. What error comes
/// back on failure is left unsaid.
#[verifier::external_body]
pub(crate) fn rlp_decode_bytes(item: &[u8]) -> (r: Result<Vec<u8>, rlp::DecoderError>)
    ensures
        r is Ok <==> rlp_decoded_bytes(item@) is Some,
        r matches Ok(b) ==> rlp_decoded_bytes(item@) == Some(b@),
{
    rlp::Rlp::new(item).as_val::<Vec<u8>>()
}

} // verus!
