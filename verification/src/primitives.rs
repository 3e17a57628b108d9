//! Fixed-size values of the chain: addresses, hashes, 256-bit words, blooms.
use vstd::prelude::*;

verus! {

/// A 20-byte account address.
#[derive(Clone, Copy, Debug, Default, PartialEq, Eq, Hash)]
pub struct H160(pub [u8; 20]);

/// A 32-byte hash or storage word.
#[derive(Clone, Copy, Debug, Default, PartialEq, Eq, Hash)]
pub struct H256(pub [u8; 32]);

/// An unsigned 256-bit integer, as four 64-bit limbs, least significant first.
#[derive(Clone, Copy, Debug, Default, PartialEq, Eq, Hash)]
pub struct U256(pub [u64; 4]);

/// A 64-byte value, such as a public key.
#[derive(Clone, Copy, Debug, PartialEq, Eq, Hash)]
pub struct H512(pub [u8; 64]);

/// A 2048-bit log bloom.
#[derive(Clone, Copy, Debug, PartialEq, Eq, Hash)]
pub struct Bloom(pub [u8; 256]);

/// Whether every byte of a byte sequence is zero.
pub open spec fn all_zero_bytes(s: Seq<u8>) -> bool {
    forall|i: int| 0 <= i < s.len() ==> s[i] == 0u8
}

/// A key of the library's association maps: a plain value compared byte by byte.
pub trait MapKey: Copy + Sized {
    /// Equality of two keys.
    fn same_key(&self, other: &Self) -> (r: bool)
        ensures
            r == (*self == *other),
    ;
}

impl H160 {
    pub fn zero() -> (r: H160)
        ensures
            all_zero_bytes(r.0@),
    {
        H160([0u8; 20])
    }

    /// Byte-wise equality.
    pub fn same(&self, other: &H160) -> (r: bool)
        ensures
            r == (*self == *other),
    {
        let mut i: usize = 0;
        while i < 20
            invariant
                i <= 20,
                forall|j: int| 0 <= j < i ==> self.0@[j] == other.0@[j],
            decreases 20 - i,
        {
            if self.0[i] != other.0[i] {
                return false;
            }
            i = i + 1;
        }
        proof {
            assert(self.0 =~= other.0);
        }
        true
    }
}

impl MapKey for H160 {
    fn same_key(&self, other: &Self) -> (r: bool) {
        self.same(other)
    }
}

/// The big-endian bytes of a 64-bit number: byte `i` of eight.
pub open spec fn be_byte(n: u64, i: int) -> u8 {
    ((n >> ((8 * (7 - i)) as u64)) & 0xffu64) as u8
}

impl H256 {
    pub fn zero() -> (r: H256)
        ensures
            r.spec_is_zero(),
    {
        H256([0u8; 32])
    }

    /// Whether all 32 bytes are zero.
    pub open spec fn spec_is_zero(&self) -> bool {
        all_zero_bytes(self.0@)
    }

    pub fn is_zero(&self) -> (r: bool)
        ensures
            r == self.spec_is_zero(),
    {
        let mut i: usize = 0;
        while i < 32
            invariant
                i <= 32,
                forall|j: int| 0 <= j < i ==> self.0@[j] == 0u8,
            decreases 32 - i,
        {
            if self.0[i] != 0 {
                return false;
            }
            i = i + 1;
        }
        true
    }

    /// Byte-wise equality.
    pub fn same(&self, other: &H256) -> (r: bool)
        ensures
            r == (*self == *other),
    {
        let mut i: usize = 0;
        while i < 32
            invariant
                i <= 32,
                forall|j: int| 0 <= j < i ==> self.0@[j] == other.0@[j],
            decreases 32 - i,
        {
            if self.0[i] != other.0[i] {
                return false;
            }
            i = i + 1;
        }
        proof {
            assert(self.0 =~= other.0);
        }
        true
    }

    /// The hash whose low eight bytes hold `n` big-endian and whose other bytes are zero.
    pub open spec fn spec_from_low_u64_be(n: u64) -> Seq<u8> {
        Seq::new(32, |i: int| if i < 24 { 0u8 } else { be_byte(n, i - 24) })
    }

    pub fn from_low_u64_be(n: u64) -> (r: H256)
        ensures
            r.0@ == H256::spec_from_low_u64_be(n),
    {
        let mut bytes = [0u8; 32];
        let mut i: usize = 0;
        while i < 8
            invariant
                i <= 8,
                bytes@.len() == 32,
                forall|j: int| 0 <= j < 24 ==> bytes@[j] == 0u8,
                forall|j: int| 0 <= j < i ==> bytes@[24 + j] == be_byte(n, j),
            decreases 8 - i,
        {
            let shift: u64 = 8 * (7 - i as u64);
            bytes[24 + i] = ((n >> shift) & 0xff) as u8;
            i = i + 1;
        }
        proof {
            assert(bytes@ =~= H256::spec_from_low_u64_be(n));
        }
        H256(bytes)
    }
}

impl MapKey for H256 {
    fn same_key(&self, other: &Self) -> (r: bool) {
        self.same(other)
    }
}

impl U256 {
    /// The number zero.
    pub open spec fn spec_zero() -> U256 {
        U256([0u64, 0u64, 0u64, 0u64])
    }

    /// The word holding a 64-bit number.
    pub open spec fn spec_from_u64(n: u64) -> U256 {
        U256([n, 0u64, 0u64, 0u64])
    }

    /// The number that the limbs stand for.
    pub open spec fn value(&self) -> nat {
        (self.0[0] + self.0[1] * 0x1_0000_0000_0000_0000 + self.0[2] * 0x1_0000_0000_0000_0000
            * 0x1_0000_0000_0000_0000 + self.0[3] * 0x1_0000_0000_0000_0000 * 0x1_0000_0000_0000_0000
            * 0x1_0000_0000_0000_0000) as nat
    }

    pub fn zero() -> (r: U256)
        ensures
            r == U256::spec_zero(),
            r.value() == 0,
    {
        U256([0u64, 0u64, 0u64, 0u64])
    }

    pub fn from_u64(n: u64) -> (r: U256)
        ensures
            r == U256::spec_from_u64(n),
            r.value() == n,
    {
        let r = U256([n, 0u64, 0u64, 0u64]);
        proof {
            assert(r.0@ =~= seq![n, 0u64, 0u64, 0u64]);
        }
        r
    }

    pub fn is_zero(&self) -> (r: bool)
        ensures
            r == (*self == U256::spec_zero()),
    {
        let r = self.0[0] == 0 && self.0[1] == 0 && self.0[2] == 0 && self.0[3] == 0;
        proof {
            if r {
                assert(self.0 =~= U256::spec_zero().0);
            } else {
                assert(self.0@ != U256::spec_zero().0@);
            }
        }
        r
    }
}

impl Bloom {
    pub fn zero() -> (r: Bloom)
        ensures
            all_zero_bytes(r.0@),
    {
        Bloom([0u8; 256])
    }
}

} // verus!
