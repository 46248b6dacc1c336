//! The scalar computation itself: the bitwise Hamming distance between two
//! equal-length byte strings, together with the call-time error taxonomy and
//! the metric laws (identity, symmetry, triangle inequality) that the
//! distance satisfies.

use vstd::prelude::*;

verus! {

/// Number of set bits in one byte, as the sum of its eight bits.
pub open spec fn popcount_byte(x: u8) -> int {
    ((x >> 0) & 1) + ((x >> 1) & 1) + ((x >> 2) & 1) + ((x >> 3) & 1)
        + ((x >> 4) & 1) + ((x >> 5) & 1) + ((x >> 6) & 1) + ((x >> 7) & 1)
}

/// Bitwise Hamming distance between two equal-length byte sequences: the
/// number of bit positions at which they differ.
pub open spec fn hamming(a: Seq<u8>, b: Seq<u8>) -> int
    recommends
        a.len() == b.len(),
    decreases a.len(),
{
    if a.len() == 0 || b.len() == 0 {
        0
    } else {
        hamming(a.drop_last(), b.drop_last()) + popcount_byte(a.last() ^ b.last())
    }
}

proof fn lemma_popcount_byte_bounds(x: u8)
    ensures
        0 <= popcount_byte(x) <= 8,
{
    assert(0 <= popcount_byte(x) <= 8) by (bit_vector);
}

proof fn lemma_popcount_byte_xor_self(x: u8)
    ensures
        popcount_byte(x ^ x) == 0,
{
    assert(popcount_byte(x ^ x) == 0) by (bit_vector);
}

proof fn lemma_popcount_byte_sym(x: u8, y: u8)
    ensures
        popcount_byte(x ^ y) == popcount_byte(y ^ x),
{
    assert(popcount_byte(x ^ y) == popcount_byte(y ^ x)) by (bit_vector);
}

proof fn lemma_popcount_byte_triangle(x: u8, y: u8, z: u8)
    ensures
        popcount_byte(x ^ z) <= popcount_byte(x ^ y) + popcount_byte(y ^ z),
{
    assert(popcount_byte(x ^ z) <= popcount_byte(x ^ y) + popcount_byte(y ^ z)) by (bit_vector);
}

/// A sequence is at distance zero from itself.
pub proof fn lemma_hamming_self(a: Seq<u8>)
    ensures
        hamming(a, a) == 0,
    decreases a.len(),
{
    if a.len() > 0 {
        lemma_hamming_self(a.drop_last());
        lemma_popcount_byte_xor_self(a.last());
    }
}

/// Over equal-length sequences the distance does not depend on the order of
/// its arguments.
pub proof fn lemma_hamming_symmetric(a: Seq<u8>, b: Seq<u8>)
    requires
        a.len() == b.len(),
    ensures
        hamming(a, b) == hamming(b, a),
    decreases a.len(),
{
    if a.len() > 0 {
        lemma_hamming_symmetric(a.drop_last(), b.drop_last());
        lemma_popcount_byte_sym(a.last(), b.last());
    }
}

/// The triangle inequality: with sequences of one common length, the distance
/// is a metric.
pub proof fn lemma_hamming_triangle(a: Seq<u8>, b: Seq<u8>, c: Seq<u8>)
    requires
        a.len() == b.len(),
        b.len() == c.len(),
    ensures
        hamming(a, c) <= hamming(a, b) + hamming(b, c),
    decreases a.len(),
{
    if a.len() > 0 {
        lemma_hamming_triangle(a.drop_last(), b.drop_last(), c.drop_last());
        lemma_popcount_byte_triangle(a.last(), b.last(), c.last());
    }
}

proof fn lemma_hamming_take_succ(a: Seq<u8>, b: Seq<u8>, i: int)
    requires
        a.len() == b.len(),
        0 <= i < a.len(),
    ensures
        hamming(a.take(i + 1), b.take(i + 1)) == hamming(a.take(i), b.take(i))
            + popcount_byte(a[i] ^ b[i]),
{
    assert(a.take(i + 1).drop_last() =~= a.take(i));
    assert(b.take(i + 1).drop_last() =~= b.take(i));
}

/// One call-time failure of the scalar function, reported per row to the SQL
/// caller; it does not abort the statement's connection.
#[derive(Clone, Copy, Debug, PartialEq, Eq, Structural)]
pub enum HammingError {
    /// The two blob arguments differ in length.
    LengthMismatch,
}

impl HammingError {
    /// The message surfaced to the SQL caller alongside the error.
    pub fn message(&self) -> (r: &'static str)
        ensures
            r@ == "BLOBs must be same length"@,
    {
        "BLOBs must be same length"
    }
}

/// Count the set bits of one byte.
fn byte_popcount(x: u8) -> (r: u8)
    ensures
        r as int == popcount_byte(x),
{
    proof {
        assert(((x >> 0) & 1) <= 1 && ((x >> 1) & 1) <= 1 && ((x >> 2) & 1) <= 1
            && ((x >> 3) & 1) <= 1 && ((x >> 4) & 1) <= 1 && ((x >> 5) & 1) <= 1
            && ((x >> 6) & 1) <= 1 && ((x >> 7) & 1) <= 1) by (bit_vector);
    }
    ((x >> 0) & 1) + ((x >> 1) & 1) + ((x >> 2) & 1) + ((x >> 3) & 1)
        + ((x >> 4) & 1) + ((x >> 5) & 1) + ((x >> 6) & 1) + ((x >> 7) & 1)
}

/// The scalar function's computation: the Hamming distance of two blobs of
/// equal length, or the length-mismatch error when the lengths differ,
/// whatever the contents. The result depends on the two arguments alone.
pub fn hamming_distance(a: &[u8], b: &[u8]) -> (r: Result<i64, HammingError>)
    requires
        a@.len() == b@.len() ==> 8 * a@.len() <= i64::MAX,
    ensures
        a@.len() == b@.len() ==> r == Ok::<i64, HammingError>(hamming(a@, b@) as i64),
        a@.len() != b@.len() ==> r == Err::<i64, HammingError>(HammingError::LengthMismatch),
{
    if a.len() != b.len() {
        return Err(HammingError::LengthMismatch);
    }
    let mut dist: i64 = 0;
    let mut i: usize = 0;
    while i < a.len()
        invariant
            a@.len() == b@.len(),
            i <= a@.len(),
            8 * a@.len() <= i64::MAX,
            dist == hamming(a@.take(i as int), b@.take(i as int)),
            0 <= dist <= 8 * i,
        decreases a@.len() - i,
    {
        let p = byte_popcount(a[i] ^ b[i]);
        proof {
            lemma_popcount_byte_bounds(a@[i as int] ^ b@[i as int]);
            lemma_hamming_take_succ(a@, b@, i as int);
        }
        dist = dist + (p as i64);
        i = i + 1;
    }
    proof {
        assert(a@.take(a@.len() as int) =~= a@);
        assert(b@.take(b@.len() as int) =~= b@);
    }
    Ok(dist)
}

} // verus!
