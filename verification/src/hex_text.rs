//! Hexadecimal text of byte strings, as the `hex` crate writes and reads it.
use vstd::prelude::*;

verus! {

/// The lower-case hex digit of a number below sixteen.
pub open spec fn hex_digit(n: u8) -> u8 {
    if n < 10 {
        (0x30 + n) as u8
    } else {
        (0x61 + n - 10) as u8
    }
}

/// The lower-case hex text of a byte string: two digits per byte, high nibble first.
pub open spec fn hex_encode(b: Seq<u8>) -> Seq<u8> {
    Seq::new(
        2 * b.len(),
        |i: int|
            if i % 2 == 0 {
                hex_digit(b[i / 2] >> 4u8)
            } else {
                hex_digit(b[i / 2] & 0x0fu8)
            },
    )
}

/// The value of a hex digit, upper or lower case.
pub open spec fn hex_value(c: u8) -> Option<u8> {
    if 0x41 <= c <= 0x46 {
        Some((c - 0x41 + 10) as u8)
    } else if 0x61 <= c <= 0x66 {
        Some((c - 0x61 + 10) as u8)
    } else if 0x30 <= c <= 0x39 {
        Some((c - 0x30) as u8)
    } else {
        None
    }
}

/// Why hex text could not be decoded; the variants of `hex::FromHexError` that decoding gives.
#[derive(Clone, Copy, Debug, PartialEq, Eq)]
pub enum FromHexError {
    /// A byte that is no hex digit, and its position.
    InvalidHexCharacter { c: u8, index: usize },
    /// The text has an odd number of digits.
    OddLength,
}

/// The position of the first byte from `i` on that is no hex digit, if there is one.
pub open spec fn first_invalid_from(s: Seq<u8>, i: int) -> Option<int>
    decreases s.len() - i,
{
    if i < 0 || i >= s.len() {
        None
    } else if hex_value(s[i]) is None {
        Some(i)
    } else {
        first_invalid_from(s, i + 1)
    }
}

/// The bytes that valid hex text of even length stands for.
pub open spec fn hex_bytes(s: Seq<u8>) -> Seq<u8> {
    Seq::new(
        s.len() / 2,
        |i: int| (hex_value(s[2 * i]).unwrap() * 16 + hex_value(s[2 * i + 1]).unwrap()) as u8,
    )
}

/// What `hex::decode` makes of a text: odd length is refused, then the first byte that is no
/// hex digit, else the bytes.
pub open spec fn hex_decode(s: Seq<u8>) -> Result<Seq<u8>, FromHexError> {
    if s.len() % 2 != 0 {
        Err(FromHexError::OddLength)
    } else {
        match first_invalid_from(s, 0) {
            Some(j) => Err(FromHexError::InvalidHexCharacter { c: s[j], index: j as usize }),
            None => Ok(hex_bytes(s)),
        }
    }
}

/// The positions from `i` on hold hex digits exactly when no invalid one is found from `i`.
proof fn lemma_first_invalid(s: Seq<u8>, i: int)
    requires
        0 <= i <= s.len(),
    ensures
        first_invalid_from(s, i) is None <==> (forall|j: int| i <= j < s.len() ==> #[trigger] hex_value(s[j]) is Some),
        first_invalid_from(s, i) matches Some(j) ==> i <= j < s.len() && hex_value(s[j]) is None
            && forall|k: int| i <= k < j ==> #[trigger] hex_value(s[k]) is Some,
    decreases s.len() - i,
{
    if i < s.len() {
        lemma_first_invalid(s, i + 1);
    }
}

fn hex_digit_of(n: u8) -> (r: u8)
    requires
        n < 16,
    ensures
        r == hex_digit(n),
{
    if n < 10 {
        0x30 + n
    } else {
        0x61 + n - 10
    }
}

fn hex_value_of(c: u8) -> (r: Option<u8>)
    ensures
        r == hex_value(c),
{
    if 0x41 <= c && c <= 0x46 {
        Some(c - 0x41 + 10)
    } else if 0x61 <= c && c <= 0x66 {
        Some(c - 0x61 + 10)
    } else if 0x30 <= c && c <= 0x39 {
        Some(c - 0x30)
    } else {
        None
    }
}

/// `hex::encode`: the lower-case hex text of `data`.
pub fn encode(data: &[u8]) -> (r: Vec<u8>)
    requires
        2 * data@.len() <= usize::MAX,
    ensures
        r@ == hex_encode(data@),
{
    let mut out: Vec<u8> = Vec::new();
    let mut i: usize = 0;
    while i < data.len()
        invariant
            i <= data@.len(),
            out@ =~= hex_encode(data@.take(i as int)),
        decreases data@.len() - i,
    {
        let b = data[i];
        assert(b >> 4u8 < 16) by (bit_vector);
        assert(b & 0x0fu8 < 16) by (bit_vector);
        out.push(hex_digit_of(b >> 4));
        out.push(hex_digit_of(b & 0x0f));
        proof {
            assert(hex_encode(data@.take(i + 1)) =~= hex_encode(data@.take(i as int)).push(
                hex_digit(b >> 4u8),
            ).push(hex_digit(b & 0x0fu8)));
        }
        i = i + 1;
    }
    proof {
        assert(data@.take(i as int) =~= data@);
    }
    out
}

/// `hex::decode`: the bytes that hex text stands for.
pub fn decode(s: &[u8]) -> (r: Result<Vec<u8>, FromHexError>)
    ensures
        match r {
            Ok(v) => hex_decode(s@) == Ok::<Seq<u8>, FromHexError>(v@),
            Err(e) => hex_decode(s@) == Err::<Seq<u8>, FromHexError>(e),
        },
{
    if s.len() % 2 != 0 {
        return Err(FromHexError::OddLength);
    }
    proof {
        lemma_first_invalid(s@, 0);
    }
    let mut out: Vec<u8> = Vec::new();
    let mut i: usize = 0;
    while i < s.len() / 2
        invariant
            s@.len() % 2 == 0,
            i <= s@.len() / 2,
            forall|j: int| 0 <= j < 2 * i ==> #[trigger] hex_value(s@[j]) is Some,
            out@.len() == i,
            forall|j: int| 0 <= j < i ==> #[trigger] out@[j] == hex_bytes(s@)[j],
            first_invalid_from(s@, 0) is None <==> (forall|j: int| 0 <= j < s@.len() ==> #[trigger] hex_value(s@[j]) is Some),
            first_invalid_from(s@, 0) matches Some(j) ==> 0 <= j < s@.len() && hex_value(s@[j]) is None
                && forall|k: int| 0 <= k < j ==> #[trigger] hex_value(s@[k]) is Some,
        decreases s@.len() / 2 - i,
    {
        let hi = match hex_value_of(s[2 * i]) {
            Some(v) => v,
            None => {
                return Err(FromHexError::InvalidHexCharacter { c: s[2 * i], index: 2 * i });
            },
        };
        let lo = match hex_value_of(s[2 * i + 1]) {
            Some(v) => v,
            None => {
                return Err(FromHexError::InvalidHexCharacter { c: s[2 * i + 1], index: 2 * i + 1 });
            },
        };
        assert(hi < 16 && lo < 16);
        out.push(hi * 16 + lo);
        i = i + 1;
    }
    proof {
        assert(out@ =~= hex_bytes(s@));
    }
    Ok(out)
}

/// The digits run in character order: `0` to `9` for the numbers below ten, `a` to `f` for
/// ten to fifteen.
pub proof fn law_hex_digits_in_order()
    ensures
        hex_digit(0) == 0x30u8,
        hex_digit(9) == 0x39u8,
        hex_digit(10) == 0x61u8,
        hex_digit(15) == 0x66u8,
        forall|n: u8, m: u8| n < m < 10 ==> #[trigger] hex_digit(n) < #[trigger] hex_digit(m),
        forall|n: u8, m: u8| 10 <= n < m < 16 ==> #[trigger] hex_digit(n) < #[trigger] hex_digit(m),
{
}

/// The characters `0` to `9` read as zero to nine, in order; `a` to `f` and `A` to `F` as ten
/// to fifteen, in order; every other byte is no digit; and each digit reads back as its number.
pub proof fn law_hex_values_in_order()
    ensures
        hex_value(0x30u8) == Some(0u8),
        hex_value(0x39u8) == Some(9u8),
        hex_value(0x61u8) == Some(10u8),
        hex_value(0x66u8) == Some(15u8),
        hex_value(0x41u8) == Some(10u8),
        hex_value(0x46u8) == Some(15u8),
        forall|c: u8, d: u8|
            0x30 <= c < d <= 0x39 ==> #[trigger] hex_value(c) is Some && #[trigger] hex_value(d) is Some
                && hex_value(c).unwrap() < hex_value(d).unwrap(),
        forall|c: u8, d: u8|
            0x61 <= c < d <= 0x66 ==> #[trigger] hex_value(c) is Some && #[trigger] hex_value(d) is Some
                && hex_value(c).unwrap() < hex_value(d).unwrap(),
        forall|c: u8, d: u8|
            0x41 <= c < d <= 0x46 ==> #[trigger] hex_value(c) is Some && #[trigger] hex_value(d) is Some
                && hex_value(c).unwrap() < hex_value(d).unwrap(),
        forall|c: u8|
            !(0x30 <= c <= 0x39 || 0x61 <= c <= 0x66 || 0x41 <= c <= 0x46) ==> #[trigger] hex_value(c)
                is None,
        forall|n: u8| n < 16 ==> #[trigger] hex_value(hex_digit(n)) == Some(n),
{
}

/// The text of a byte is its high digit (the byte divided by sixteen) then its low digit (the
/// remainder); the text of joined byte strings is their texts joined; and two digits read back
/// as sixteen times the first plus the second.
pub proof fn law_hex_text_layout(x: u8, a: Seq<u8>, b: Seq<u8>, hi: u8, lo: u8)
    requires
        hi < 16,
        lo < 16,
    ensures
        hex_encode(seq![x]) == seq![hex_digit(x / 16), hex_digit(x % 16)],
        hex_encode(a + b) == hex_encode(a) + hex_encode(b),
        hex_decode(seq![hex_digit(hi), hex_digit(lo)]) == Ok::<Seq<u8>, FromHexError>(seq![(16 * hi + lo) as u8]),
{
    assert(x >> 4u8 == x / 16) by (bit_vector);
    assert(x & 0x0fu8 == x % 16) by (bit_vector);
    assert(hex_encode(seq![x]) =~= seq![hex_digit(x / 16), hex_digit(x % 16)]);
    let ab = a + b;
    assert forall|i: int| 0 <= i < hex_encode(ab).len() implies #[trigger] hex_encode(ab)[i] == (hex_encode(a)
        + hex_encode(b))[i] by {
        if i >= 2 * a.len() {
            let j = i - 2 * a.len();
            assert(i / 2 == a.len() + j / 2);
            assert(i % 2 == j % 2);
            assert(ab[i / 2] == b[j / 2]);
        } else {
            assert(ab[i / 2] == a[i / 2]);
        }
    }
    assert(hex_encode(ab) =~= hex_encode(a) + hex_encode(b));
    let t = seq![hex_digit(hi), hex_digit(lo)];
    assert(hex_value(hex_digit(hi)) == Some(hi));
    assert(hex_value(hex_digit(lo)) == Some(lo));
    assert(first_invalid_from(t, 2) is None);
    assert(first_invalid_from(t, 1) is None);
    assert(first_invalid_from(t, 0) is None);
    assert(hex_bytes(t) =~= seq![(16 * hi + lo) as u8]);
}

} // verus!

