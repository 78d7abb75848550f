//! Thirty-two-byte strings held as two sixteen-byte big-endian words.
//!
//! An identifier is compared, ordered and looked up as a pair of `u128`
//! words; the functions here move between that pair and the byte string it
//! stands for, and the lemmas say that the two determine each other.

use vstd::prelude::*;

verus! {

/// Byte `i` of a sixteen-byte word, counted from its most significant end.
pub open spec fn word_byte(w: u128, i: int) -> u8 {
    ((w >> (((15 - i) * 8) as u128)) & 0xff) as u8
}

/// The thirty-two bytes that the pair `(hi, lo)` stands for: those of `hi`,
/// then those of `lo`.
pub open spec fn pair_bytes(hi: u128, lo: u128) -> Seq<u8> {
    Seq::new(
        32,
        |i: int|
            if i < 16 {
                word_byte(hi, i)
            } else {
                word_byte(lo, i - 16)
            },
    )
}

/// Thirty-two zero bytes.
pub open spec fn zero_bytes() -> Seq<u8> {
    Seq::new(32, |i: int| 0u8)
}

/// The word whose first `n` bytes are `bytes[start..start + n]` and whose
/// other bytes are zero.
pub open spec fn word_of(bytes: Seq<u8>, start: int, n: nat) -> u128
    decreases n,
{
    if n == 0 {
        0
    } else {
        word_of(bytes, start, (n - 1) as nat) | ((bytes[start + n - 1] as u128) << (((16 - n)
            * 8) as u128))
    }
}

/// The pair of words that stands for the thirty-two bytes `bytes`.
pub open spec fn pack_spec(bytes: Seq<u8>) -> (u128, u128) {
    (word_of(bytes, 0, 16), word_of(bytes, 16, 16))
}

/// Putting the byte `b` where a word has a zero byte sets that byte and
/// leaves the others; `s` and `t` are the distances, in bits, of the byte set
/// and of the byte read from the word's least significant end.
proof fn lemma_place_byte(w: u128, b: u8, s: u128, t: u128)
    by (bit_vector)
    requires
        s % 8 == 0,
        s <= 120,
        t % 8 == 0,
        t <= 120,
        ((w >> s) & 0xff) as u8 == 0,
    ensures
        (((w | ((b as u128) << s)) >> t) & 0xff) as u8 == (if t == s {
            b
        } else {
            ((w >> t) & 0xff) as u8
        }),
{
}

/// Every byte of the zero word is zero.
proof fn lemma_byte_of_zero(t: u128)
    by (bit_vector)
    requires
        t <= 120,
    ensures
        ((0u128 >> t) & 0xff) as u8 == 0,
{
}

/// What is left of a word under the mask `0xff` fits in a byte.
proof fn lemma_byte_fits(w: u128, t: u128)
    by (bit_vector)
    ensures
        (w >> t) & 0xff <= 0xff,
{
}

/// The bytes of `word_of(bytes, start, n)`: the first `n` are those of
/// `bytes` from `start` on, the others are zero.
pub proof fn lemma_word_of_bytes(bytes: Seq<u8>, start: int, n: nat)
    requires
        n <= 16,
    ensures
        forall|j: int|
            0 <= j < 16 ==> #[trigger] word_byte(word_of(bytes, start, n), j) == (if j < n {
                bytes[start + j]
            } else {
                0
            }),
    decreases n,
{
    if n == 0 {
        assert forall|j: int| 0 <= j < 16 implies #[trigger] word_byte(0, j) == 0 by {
            lemma_byte_of_zero(((15 - j) * 8) as u128);
        }
    } else {
        let prev = word_of(bytes, start, (n - 1) as nat);
        let b = bytes[start + n - 1];
        let shift = ((16 - n) * 8) as u128;
        lemma_word_of_bytes(bytes, start, (n - 1) as nat);
        assert(word_byte(prev, n - 1) == 0);
        assert forall|j: int| 0 <= j < 16 implies #[trigger] word_byte(
            word_of(bytes, start, n),
            j,
        ) == (if j < n {
            bytes[start + j]
        } else {
            0
        }) by {
            lemma_place_byte(prev, b, shift, ((15 - j) * 8) as u128);
            assert(word_byte(prev, j) == (if j < n - 1 {
                bytes[start + j]
            } else {
                0
            }));
        }
    }
}

/// `pack_spec` gives a pair that stands for the bytes it was given.
pub proof fn lemma_pack_spec_bytes(bytes: Seq<u8>)
    requires
        bytes.len() == 32,
    ensures
        pair_bytes(pack_spec(bytes).0, pack_spec(bytes).1) == bytes,
{
    lemma_word_of_bytes(bytes, 0, 16);
    lemma_word_of_bytes(bytes, 16, 16);
    assert(pair_bytes(pack_spec(bytes).0, pack_spec(bytes).1) =~= bytes);
}

/// A word is determined by its sixteen bytes.
pub proof fn lemma_word_bytes_injective(a: u128, b: u128)
    requires
        forall|i: int| 0 <= i < 16 ==> word_byte(a, i) == word_byte(b, i),
    ensures
        a == b,
{
    assert(word_byte(a, 0) == word_byte(b, 0));
    assert(word_byte(a, 1) == word_byte(b, 1));
    assert(word_byte(a, 2) == word_byte(b, 2));
    assert(word_byte(a, 3) == word_byte(b, 3));
    assert(word_byte(a, 4) == word_byte(b, 4));
    assert(word_byte(a, 5) == word_byte(b, 5));
    assert(word_byte(a, 6) == word_byte(b, 6));
    assert(word_byte(a, 7) == word_byte(b, 7));
    assert(word_byte(a, 8) == word_byte(b, 8));
    assert(word_byte(a, 9) == word_byte(b, 9));
    assert(word_byte(a, 10) == word_byte(b, 10));
    assert(word_byte(a, 11) == word_byte(b, 11));
    assert(word_byte(a, 12) == word_byte(b, 12));
    assert(word_byte(a, 13) == word_byte(b, 13));
    assert(word_byte(a, 14) == word_byte(b, 14));
    assert(word_byte(a, 15) == word_byte(b, 15));
    assert(a == b) by (bit_vector)
        requires
            ((a >> 120) & 0xff) as u8 == ((b >> 120) & 0xff) as u8,
            ((a >> 112) & 0xff) as u8 == ((b >> 112) & 0xff) as u8,
            ((a >> 104) & 0xff) as u8 == ((b >> 104) & 0xff) as u8,
            ((a >> 96) & 0xff) as u8 == ((b >> 96) & 0xff) as u8,
            ((a >> 88) & 0xff) as u8 == ((b >> 88) & 0xff) as u8,
            ((a >> 80) & 0xff) as u8 == ((b >> 80) & 0xff) as u8,
            ((a >> 72) & 0xff) as u8 == ((b >> 72) & 0xff) as u8,
            ((a >> 64) & 0xff) as u8 == ((b >> 64) & 0xff) as u8,
            ((a >> 56) & 0xff) as u8 == ((b >> 56) & 0xff) as u8,
            ((a >> 48) & 0xff) as u8 == ((b >> 48) & 0xff) as u8,
            ((a >> 40) & 0xff) as u8 == ((b >> 40) & 0xff) as u8,
            ((a >> 32) & 0xff) as u8 == ((b >> 32) & 0xff) as u8,
            ((a >> 24) & 0xff) as u8 == ((b >> 24) & 0xff) as u8,
            ((a >> 16) & 0xff) as u8 == ((b >> 16) & 0xff) as u8,
            ((a >> 8) & 0xff) as u8 == ((b >> 8) & 0xff) as u8,
            ((a >> 0) & 0xff) as u8 == ((b >> 0) & 0xff) as u8,
    ;
}

/// Two pairs that stand for the same bytes are the same pair.
pub proof fn lemma_pair_bytes_injective(hi1: u128, lo1: u128, hi2: u128, lo2: u128)
    requires
        pair_bytes(hi1, lo1) == pair_bytes(hi2, lo2),
    ensures
        hi1 == hi2,
        lo1 == lo2,
{
    assert forall|i: int| 0 <= i < 16 implies word_byte(hi1, i) == word_byte(hi2, i) by {
        assert(pair_bytes(hi1, lo1)[i] == word_byte(hi1, i));
        assert(pair_bytes(hi2, lo2)[i] == word_byte(hi2, i));
    }
    assert forall|i: int| 0 <= i < 16 implies word_byte(lo1, i) == word_byte(lo2, i) by {
        assert(pair_bytes(hi1, lo1)[i + 16] == word_byte(lo1, i));
        assert(pair_bytes(hi2, lo2)[i + 16] == word_byte(lo2, i));
    }
    lemma_word_bytes_injective(hi1, hi2);
    lemma_word_bytes_injective(lo1, lo2);
}

/// The pair of zero words stands for thirty-two zero bytes.
pub proof fn lemma_zero_pair_bytes()
    ensures
        pair_bytes(0, 0) == zero_bytes(),
{
    assert forall|i: int| 0 <= i < 16 implies word_byte(0, i) == 0 by {
        lemma_byte_of_zero(((15 - i) * 8) as u128);
    }
    assert(pair_bytes(0, 0) =~= zero_bytes());
}

/// Packs thirty-two bytes into the pair of words that stands for them.
pub fn pack(bytes: &[u8; 32]) -> (pair: (u128, u128))
    ensures
        pair == pack_spec(bytes@),
        pair_bytes(pair.0, pair.1) == bytes@,
{
    let mut hi: u128 = 0;
    let mut lo: u128 = 0;
    let mut i: usize = 0;
    while i < 16
        invariant
            i <= 16,
            hi == word_of(bytes@, 0, i as nat),
            lo == word_of(bytes@, 16, i as nat),
        decreases 16 - i,
    {
        let shift: u128 = ((15 - i) * 8) as u128;
        hi = hi | ((bytes[i] as u128) << shift);
        lo = lo | ((bytes[i + 16] as u128) << shift);
        i = i + 1;
    }
    proof {
        lemma_pack_spec_bytes(bytes@);
    }
    (hi, lo)
}

/// Writes out the thirty-two bytes that the pair `(hi, lo)` stands for.
pub fn unpack(hi: u128, lo: u128) -> (bytes: [u8; 32])
    ensures
        bytes@ == pair_bytes(hi, lo),
{
    let mut bytes: [u8; 32] = [0u8; 32];
    let mut i: usize = 0;
    while i < 16
        invariant
            i <= 16,
            forall|j: int| 0 <= j < i ==> bytes@[j] == word_byte(hi, j),
            forall|j: int| 0 <= j < i ==> bytes@[j + 16] == word_byte(lo, j),
        decreases 16 - i,
    {
        let shift: u128 = ((15 - i) * 8) as u128;
        proof {
            lemma_byte_fits(hi, shift);
            lemma_byte_fits(lo, shift);
        }
        bytes[i] = ((hi >> shift) & 0xff) as u8;
        bytes[i + 16] = ((lo >> shift) & 0xff) as u8;
        i = i + 1;
    }
    assert(bytes@ =~= pair_bytes(hi, lo));
    bytes
}

} // verus!
