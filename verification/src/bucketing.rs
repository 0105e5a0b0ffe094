//! Placing a user in one of 10 000 buckets.
//!
//! The bucket of a user in an experiment is a 32-bit Murmur3 hash of the user
//! id followed by the experiment id, scaled down to the range of bucket
//! values. Every implementation of this scheme has to give the same user the
//! same bucket, so the scaling is exact integer arithmetic.

use vstd::prelude::*;
use vstd::string::*;
use vstd::utf8::encode_utf8;

verus! {

/// The seed of the hash.
pub const HASH_SEED: u32 = 1;

/// Bucket values lie in the range from 0 up to, and not including, this bound.
pub const MAX_OF_RANGE: u64 = 10_000;

/// The number of values that a 32-bit hash can take.
pub const HASH_SPACE: u64 = 0x1_0000_0000;

/// The longest input, in bytes, that the hash is taken of.
pub const MAX_KEY_BYTES: usize = 0xffff_ffff;

/// What `murmur3::murmur3_32` returns for the given bytes and seed: the 32-bit
/// Murmur3 hash, or `None` where the call reports an error.
pub uninterp spec fn murmur3_32_hash(bytes: Seq<u8>, seed: u32) -> Option<u32>;

/// Calls `murmur3::murmur3_32` on a reader over `bytes`.
///
/// Trusted: the result is the one value that the crate computes from these
/// bytes and this seed; an error of the reader becomes `None`. The crate
/// counts the bytes it has read in a `u32`, so longer inputs are left out.
#[verifier::external_body]
fn murmur3_32(bytes: &[u8], seed: u32) -> (hash: Option<u32>)
    requires
        bytes@.len() <= MAX_KEY_BYTES,
    ensures
        hash == murmur3_32_hash(bytes@, seed),
{
    let mut source: &[u8] = bytes;
    murmur3::murmur3_32(&mut source, seed).ok()
}

/// The bucket value of a hash: the hash as a fraction of the hash space,
/// times the number of buckets, rounded down.
///
/// In double precision `hash / 2^32 * 10000` is computed without rounding,
/// because `hash * 10000` is below `2^53`; its floor is this quotient.
pub open spec fn scaled(hash: u32) -> int {
    (hash as int * MAX_OF_RANGE as int) / (HASH_SPACE as int)
}

/// Every bucket value lies in the range of buckets, whatever the hash and
/// whatever the key.
pub proof fn bucket_values_are_in_range(hash: u32, bucketing_key: Seq<char>)
    ensures
        0 <= scaled(hash) < MAX_OF_RANGE,
        bucket_spec(bucketing_key) matches Some(bucket_value) ==> 0 <= bucket_value < MAX_OF_RANGE,
{
}

/// The bucket value of a hash.
pub fn bucket_of_hash(hash: u32) -> (bucket_value: u64)
    ensures
        bucket_value == scaled(hash),
        bucket_value < MAX_OF_RANGE,
{
    (hash as u64 * MAX_OF_RANGE) / HASH_SPACE
}

/// The key that is hashed for a user and an experiment: the user id followed
/// by the experiment id.
pub open spec fn bucketing_key_spec(user_id: Seq<char>, experiment_id: Seq<char>) -> Seq<char> {
    user_id + experiment_id
}

/// The key that is hashed for a user and an experiment.
pub fn bucketing_key(user_id: &str, experiment_id: &str) -> (key: String)
    ensures
        key@ == bucketing_key_spec(user_id@, experiment_id@),
{
    let mut key = user_id.to_owned();
    key.append(experiment_id);
    key
}

/// The bucket value of a bucketing key: the scaled hash of its UTF-8 bytes
/// under [`HASH_SEED`]. `None` where the key is longer than
/// [`MAX_KEY_BYTES`] or the hash cannot be had.
pub open spec fn bucket_spec(bucketing_key: Seq<char>) -> Option<int> {
    let bytes = encode_utf8(bucketing_key);
    if bytes.len() <= MAX_KEY_BYTES {
        match murmur3_32_hash(bytes, HASH_SEED) {
            Some(hash) => Some(scaled(hash)),
            None => None,
        }
    } else {
        None
    }
}

/// The bucket value of a bucketing key.
pub fn bucket(bucketing_key: &str) -> (bucket_value: Option<u64>)
    ensures
        match bucket_value {
            Some(b) => bucket_spec(bucketing_key@) == Some(b as int) && b < MAX_OF_RANGE,
            None => bucket_spec(bucketing_key@) is None,
        },
{
    let bytes = bucketing_key.as_bytes();
    if bytes.len() > MAX_KEY_BYTES {
        return None;
    }
    match murmur3_32(bytes, HASH_SEED) {
        Some(hash) => Some(bucket_of_hash(hash)),
        None => None,
    }
}

} // verus!
