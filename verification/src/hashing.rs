//! SHA-256 digests and the leading-zero test that proof of work rests on.

use vstd::prelude::*;
use sha2::{Digest, Sha256};

verus! {

/// The SHA-256 digest of a byte string.
pub uninterp spec fn sha256(bytes: Seq<u8>) -> Seq<u8>;

/// `sha2::Sha256::digest`: the 32-byte SHA-256 digest of `bytes`. The digest
/// is taken to depend on the bytes alone; nothing else is claimed of it.
#[verifier::external_body]
pub(crate) fn sha256_digest(bytes: &[u8]) -> (digest: [u8; 32])
    ensures
        digest@ == sha256(bytes@),
{
    Sha256::digest(bytes).into()
}

/// Bit `i` of a byte string, counted from the most significant bit of the
/// first byte.
pub open spec fn bit_at(bytes: Seq<u8>, i: int) -> bool {
    (bytes[i / 8] >> ((7 - i % 8) as u8)) & 1 != 0
}

/// Whether the first `n` bits of `bytes` are all zero.
pub open spec fn has_leading_zero_bits(bytes: Seq<u8>, n: nat) -> bool {
    forall|i: int| 0 <= i < n ==> !#[trigger] bit_at(bytes, i)
}

/// Whether the top `n` bits of `b` are zero, for `n` below 8.
pub open spec fn top_bits_zero(b: u8, n: nat) -> bool {
    n == 0 || b >> ((8 - n) as u8) == 0
}

proof fn lemma_bits_of_zero(b: u8, shift: u8)
    by (bit_vector)
    requires
        b == 0,
        shift < 8,
    ensures
        (b >> shift) & 1 == 0,
{
}

proof fn lemma_zero_from_bits(b: u8)
    by (bit_vector)
    requires
        (b >> 7u8) & 1 == 0,
        (b >> 6u8) & 1 == 0,
        (b >> 5u8) & 1 == 0,
        (b >> 4u8) & 1 == 0,
        (b >> 3u8) & 1 == 0,
        (b >> 2u8) & 1 == 0,
        (b >> 1u8) & 1 == 0,
        (b >> 0u8) & 1 == 0,
    ensures
        b == 0,
{
}

proof fn lemma_bits_of_top_zero(b: u8, n: u8, shift: u8)
    by (bit_vector)
    requires
        0 < n < 8,
        8 - n <= shift < 8,
        b >> ((8 - n) as u8) == 0,
    ensures
        (b >> shift) & 1 == 0,
{
}

proof fn lemma_top_zero_from_bits(b: u8, n: u8)
    by (bit_vector)
    requires
        0 < n < 8,
        (b >> 7u8) & 1 == 0,
        n > 1 ==> (b >> 6u8) & 1 == 0,
        n > 2 ==> (b >> 5u8) & 1 == 0,
        n > 3 ==> (b >> 4u8) & 1 == 0,
        n > 4 ==> (b >> 3u8) & 1 == 0,
        n > 5 ==> (b >> 2u8) & 1 == 0,
        n > 6 ==> (b >> 1u8) & 1 == 0,
    ensures
        b >> ((8 - n) as u8) == 0,
{
}

/// The first `n` bits are zero exactly when the first `n / 8` bytes are
/// zero and so are the top `n % 8` bits of the byte after them.
pub proof fn lemma_leading_zero_bits_by_bytes(bytes: Seq<u8>, n: nat)
    requires
        n / 8 < bytes.len(),
    ensures
        has_leading_zero_bits(bytes, n) <==> {
            &&& forall|j: int| 0 <= j < n / 8 ==> bytes[j] == 0
            &&& top_bits_zero(bytes[(n / 8) as int], n % 8)
        },
{
    let whole = (n / 8) as int;
    let part = n % 8;
    if has_leading_zero_bits(bytes, n) {
        assert forall|j: int| 0 <= j < whole implies bytes[j] == 0 by {
            assert(!bit_at(bytes, 8 * j + 0));
            assert(!bit_at(bytes, 8 * j + 1));
            assert(!bit_at(bytes, 8 * j + 2));
            assert(!bit_at(bytes, 8 * j + 3));
            assert(!bit_at(bytes, 8 * j + 4));
            assert(!bit_at(bytes, 8 * j + 5));
            assert(!bit_at(bytes, 8 * j + 6));
            assert(!bit_at(bytes, 8 * j + 7));
            lemma_zero_from_bits(bytes[j]);
        }
        if part > 0 {
            assert(!bit_at(bytes, 8 * whole + 0));
            assert(part > 1 ==> !bit_at(bytes, 8 * whole + 1));
            assert(part > 2 ==> !bit_at(bytes, 8 * whole + 2));
            assert(part > 3 ==> !bit_at(bytes, 8 * whole + 3));
            assert(part > 4 ==> !bit_at(bytes, 8 * whole + 4));
            assert(part > 5 ==> !bit_at(bytes, 8 * whole + 5));
            assert(part > 6 ==> !bit_at(bytes, 8 * whole + 6));
            lemma_top_zero_from_bits(bytes[whole], part as u8);
        }
    }
    if (forall|j: int| 0 <= j < whole ==> bytes[j] == 0) && top_bits_zero(bytes[whole], part) {
        assert forall|i: int| 0 <= i < n implies !#[trigger] bit_at(bytes, i) by {
            let shift = (7 - i % 8) as u8;
            if i / 8 < whole {
                lemma_bits_of_zero(bytes[i / 8], shift);
            } else {
                assert(i / 8 == whole);
                lemma_bits_of_top_zero(bytes[whole], part as u8, shift);
            }
        }
    }
}

/// Tests whether a digest starts with at least `n` zero bits.
pub fn starts_with_zero_bits(hash: &[u8; 32], n: u8) -> (r: bool)
    ensures
        r == has_leading_zero_bits(hash@, n as nat),
{
    let n_bytes: usize = (n / 8) as usize;
    let n_bits: u8 = n % 8;
    let mut i: usize = 0;
    while i < n_bytes
        invariant
            n_bytes == n / 8,
            i <= n_bytes < 32,
            forall|j: int| 0 <= j < i ==> hash@[j] == 0,
        decreases n_bytes - i,
    {
        if hash[i] != 0 {
            proof {
                lemma_leading_zero_bits_by_bytes(hash@, n as nat);
            }
            return false;
        }
        i += 1;
    }
    let next_byte: u8 = hash[n_bytes];
    proof {
        lemma_leading_zero_bits_by_bytes(hash@, n as nat);
    }
    n_bits == 0 || next_byte >> (8 - n_bits) == 0
}

} // verus!
