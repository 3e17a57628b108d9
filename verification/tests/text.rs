use tethereum::hex_text::FromHexError;
use tethereum::rpc::{
    BlockNumber, BlockNumberError, BlockNumberVisitor, IntErrorKind, MapEntry, MapKeyKind,
    from_str_radix_16,
};
use tethereum::rpc_types::{Bytes, BytesError, BytesVisitor};
use tethereum::primitives::H256;

#[test]
fn bytes_to_hex_is_prefixed_lower_case() {
    let b = Bytes::new(vec![0x01, 0xab, 0x00, 0xff]);
    assert_eq!(b.to_hex(), b"0x01ab00ff".to_vec());
    assert_eq!(Bytes::new(vec![]).to_hex(), b"0x".to_vec());
}

#[test]
fn bytes_from_hex_reads_both_cases() {
    assert_eq!(BytesVisitor::visit_str(b"0x01AbfF").unwrap().into_vec(), vec![0x01, 0xab, 0xff]);
    assert_eq!(BytesVisitor::visit_str(b"0x").unwrap().into_vec(), Vec::<u8>::new());
}

#[test]
fn bytes_from_hex_refuses_bad_format() {
    assert_eq!(BytesVisitor::visit_str(b"0x1").err(), Some(BytesError::InvalidFormat));
    assert_eq!(BytesVisitor::visit_str(b"01ab").err(), Some(BytesError::InvalidFormat));
    assert_eq!(BytesVisitor::visit_str(b"0").err(), Some(BytesError::InvalidFormat));
    assert_eq!(BytesVisitor::visit_str(b"").err(), Some(BytesError::InvalidFormat));
}

#[test]
fn bytes_from_hex_names_first_bad_digit() {
    assert_eq!(
        BytesVisitor::visit_str(b"0x0g1z").err(),
        Some(BytesError::InvalidHex(FromHexError::InvalidHexCharacter { c: b'g', index: 1 }))
    );
    assert_eq!(
        BytesVisitor::visit_str(b"0xz0").err(),
        Some(BytesError::InvalidHex(FromHexError::InvalidHexCharacter { c: b'z', index: 0 }))
    );
}

#[test]
fn bytes_text_round_trip() {
    let all: Vec<u8> = (0..=255u8).collect();
    let text = Bytes::new(all.clone()).to_hex();
    assert_eq!(BytesVisitor::visit_str(&text).unwrap().into_vec(), all);
}

#[test]
fn bytes_hex_agrees_with_hex_crate() {
    let data = vec![0xde, 0xad, 0xbe, 0xef, 0x00, 0x10];
    let text = Bytes::new(data.clone()).to_hex();
    assert_eq!(String::from_utf8(text).unwrap(), format!("0x{}", hex::encode(&data)));
    assert_eq!(tethereum::hex_text::decode(b"DEADbeef").unwrap(), hex::decode("DEADbeef").unwrap());
    assert_eq!(tethereum::hex_text::decode(b"abc").err(), Some(FromHexError::OddLength));
}

#[test]
fn bytes_conversions() {
    let b: Bytes = vec![1u8, 2, 3].into();
    let v: Vec<u8> = b.into();
    assert_eq!(v, vec![1, 2, 3]);
}

#[test]
fn block_number_words() {
    assert_eq!(BlockNumberVisitor::visit_str(b"latest"), Ok(BlockNumber::Latest));
    assert_eq!(BlockNumberVisitor::visit_str(b"earliest"), Ok(BlockNumber::Earliest));
    assert_eq!(BlockNumberVisitor::visit_str(b"pending"), Ok(BlockNumber::Pending));
    assert_eq!(BlockNumber::default(), BlockNumber::Latest);
}

#[test]
fn block_number_hex() {
    assert_eq!(BlockNumberVisitor::visit_str(b"0x10"), Ok(BlockNumber::Num(16)));
    assert_eq!(BlockNumberVisitor::visit_str(b"0xffffffffffffffff"), Ok(BlockNumber::Num(u64::MAX)));
    assert_eq!(BlockNumberVisitor::visit_str(b"0x+1f"), Ok(BlockNumber::Num(31)));
}

#[test]
fn block_number_errors() {
    assert_eq!(BlockNumberVisitor::visit_str(b"10"), Err(BlockNumberError::MissingPrefix));
    assert_eq!(BlockNumberVisitor::visit_str(b"Latest"), Err(BlockNumberError::MissingPrefix));
    assert_eq!(
        BlockNumberVisitor::visit_str(b"0x"),
        Err(BlockNumberError::InvalidNumber(IntErrorKind::Empty))
    );
    assert_eq!(
        BlockNumberVisitor::visit_str(b"0xg"),
        Err(BlockNumberError::InvalidNumber(IntErrorKind::InvalidDigit))
    );
    assert_eq!(
        BlockNumberVisitor::visit_str(b"0x+"),
        Err(BlockNumberError::InvalidNumber(IntErrorKind::InvalidDigit))
    );
    assert_eq!(
        BlockNumberVisitor::visit_str(b"0x10000000000000000"),
        Err(BlockNumberError::InvalidNumber(IntErrorKind::PosOverflow))
    );
}

fn std_kind(s: &str) -> Result<u64, IntErrorKind> {
    u64::from_str_radix(s, 16).map_err(|e| match e.kind() {
        std::num::IntErrorKind::Empty => IntErrorKind::Empty,
        std::num::IntErrorKind::InvalidDigit => IntErrorKind::InvalidDigit,
        std::num::IntErrorKind::PosOverflow => IntErrorKind::PosOverflow,
        _ => panic!("unexpected kind"),
    })
}

#[test]
fn radix_16_agrees_with_std() {
    let cases = [
        "", "+", "-", "0", "+0", "-0", "f", "F", "ff", "+ff", "++1", "1-", "xyz", "10",
        "ffffffffffffffff", "10000000000000000", "fffffffffffffffff", "fffffffffffffffffz",
        "0000000000000000000000001", "DeadBeef", " 1", "1 ",
    ];
    for c in cases.iter() {
        assert_eq!(from_str_radix_16(c.as_bytes()), std_kind(c), "case {:?}", c);
    }
}

#[test]
fn block_number_object_with_hash() {
    let h = H256([7u8; 32]);
    let r = BlockNumberVisitor::visit_map(vec![
        MapEntry::BlockHash(h),
        MapEntry::RequireCanonical(true),
    ]);
    assert_eq!(r, Ok(BlockNumber::Hash { hash: h, require_canonical: true }));
    let r = BlockNumberVisitor::visit_map(vec![MapEntry::BlockHash(h)]);
    assert_eq!(r, Ok(BlockNumber::Hash { hash: h, require_canonical: false }));
}

#[test]
fn block_number_object_errors() {
    assert_eq!(BlockNumberVisitor::visit_map(vec![]), Err(BlockNumberError::InvalidInput));
    assert_eq!(
        BlockNumberVisitor::visit_map(vec![MapEntry::RequireCanonical(true)]),
        Err(BlockNumberError::InvalidInput)
    );
    assert_eq!(
        BlockNumberVisitor::visit_map(vec![MapEntry::Unknown(b"foo".to_vec())]),
        Err(BlockNumberError::UnknownKey(b"foo".to_vec()))
    );
    assert_eq!(
        BlockNumberVisitor::visit_map(vec![MapEntry::BlockNumber(b"12".to_vec())]),
        Err(BlockNumberError::MissingPrefix)
    );
}

#[test]
fn block_number_object_number_decides_at_once() {
    let h = H256([1u8; 32]);
    let r = BlockNumberVisitor::visit_map(vec![
        MapEntry::BlockHash(h),
        MapEntry::BlockNumber(b"0x5".to_vec()),
        MapEntry::Unknown(b"x".to_vec()),
    ]);
    assert_eq!(r, Ok(BlockNumber::Num(5)));
    // the same text read on its own gives the same block
    assert_eq!(BlockNumberVisitor::visit_str(b"0x5"), Ok(BlockNumber::Num(5)));
}

#[test]
fn block_number_object_keys() {
    assert_eq!(BlockNumberVisitor::key_kind(b"blockNumber"), MapKeyKind::BlockNumber);
    assert_eq!(BlockNumberVisitor::key_kind(b"blockHash"), MapKeyKind::BlockHash);
    assert_eq!(BlockNumberVisitor::key_kind(b"requireCanonical"), MapKeyKind::RequireCanonical);
    assert_eq!(BlockNumberVisitor::key_kind(b"blocknumber"), MapKeyKind::Unknown);
}
