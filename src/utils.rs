use vstd::prelude::*;

use crate::error::RaffleError;

verus! {

/// Keccak-256 digest of a byte string.
pub uninterp spec fn keccak256(data: Seq<u8>) -> Seq<u8>;

/// Little-endian encoding of a 32-bit count.
pub open spec fn le_bytes_u32(n: u32) -> Seq<u8> {
    seq![
        (n % 256) as u8,
        ((n / 256) % 256) as u8,
        ((n / 65536) % 256) as u8,
        (n / 16777216) as u8,
    ]
}

/// The unsigned integer whose little-endian encoding is the first four bytes of `b`.
pub open spec fn u32_from_le(b: Seq<u8>) -> int {
    b[0] as int + 256 * b[1] as int + 65536 * b[2] as int + 16777216 * b[3] as int
}

/// What is hashed to draw among `n` entries: the seed, then `n` in little-endian.
pub open spec fn seed_message(seed: Seq<u8>, n: u32) -> Seq<u8> {
    seed + le_bytes_u32(n)
}

/// The raw random number drawn from `seed` for a population of `n`.
pub open spec fn random_value(seed: Seq<u8>, n: u32) -> int {
    u32_from_le(keccak256(seed_message(seed, n)))
}

/// The winning index drawn from `seed` among `n` entries.
pub open spec fn winner_index(seed: Seq<u8>, n: u32) -> int {
    random_value(seed, n) % (n as int)
}

/// The seed a recent-blockhashes record yields: the first hash after its
/// 8-byte entry count, provided the count is not zero.
pub open spec fn blockhash_seed(data: Seq<u8>) -> Option<Seq<u8>> {
    if data.len() >= 40 && exists|i: int| 0 <= i < 8 && data[i] != 0 {
        Some(data.subrange(8, 40))
    } else {
        None
    }
}

/// Relies on solana_keccak_hasher::Hasher (`hash`, then `result`): the
/// Keccak-256 digest of the bytes fed to it.
#[verifier::external_body]
fn keccak_digest(data: &[u8]) -> (r: [u8; 32])
    ensures
        r@ == keccak256(data@),
{
    let mut hasher = solana_keccak_hasher::Hasher::default();
    hasher.hash(data);
    hasher.result().to_bytes()
}

/// Reads the first four bytes of a digest as a little-endian integer.
pub fn digest_prefix_u32(digest: &[u8; 32]) -> (r: u32)
    ensures
        r as int == u32_from_le(digest@),
{
    let b0 = digest[0] as u32;
    let b1 = digest[1] as u32;
    let b2 = digest[2] as u32;
    let b3 = digest[3] as u32;
    b0 + 256 * b1 + 65536 * b2 + 16777216 * b3
}

/// The bytes hashed for a draw: `seed` followed by `n` in little-endian.
fn build_seed_message(seed: &[u8; 32], n: u32) -> (r: Vec<u8>)
    ensures
        r@ == seed_message(seed@, n),
{
    let mut msg: Vec<u8> = Vec::with_capacity(36);
    let mut i: usize = 0;
    while i < 32
        invariant
            0 <= i <= 32,
            msg@ == seed@.subrange(0, i as int),
        decreases 32 - i,
    {
        msg.push(seed[i]);
        proof {
            assert(seed@.subrange(0, i + 1) =~= seed@.subrange(0, i as int).push(seed@[i as int]));
        }
        i = i + 1;
    }
    msg.push((n % 256) as u8);
    msg.push(((n / 256) % 256) as u8);
    msg.push(((n / 65536) % 256) as u8);
    msg.push((n / 16777216) as u8);
    assert(msg@ =~= seed_message(seed@, n));
    msg
}

/// The raw random number drawn from `randomness` for a population of `n`:
/// the first four bytes, little-endian, of the Keccak-256 digest of
/// `randomness` followed by `n` in little-endian.
pub fn random(randomness: [u8; 32], n: u32) -> (r: u32)
    ensures
        r as int == random_value(randomness@, n),
{
    let msg = build_seed_message(&randomness, n);
    let digest = keccak_digest(msg.as_slice());
    digest_prefix_u32(&digest)
}

/// Reduces a digest to an index below `population`.
pub fn winner_from_digest(digest: &[u8; 32], population: u32) -> (r: u32)
    requires
        population > 0,
    ensures
        r as int == u32_from_le(digest@) % (population as int),
        r < population,
{
    digest_prefix_u32(digest) % population
}

/// The winning index among `population` entries for a given seed. It depends
/// on its two arguments alone, and always lies below `population`.
pub fn derive_winner(seed: [u8; 32], population: u32) -> (r: u32)
    requires
        population > 0,
    ensures
        r as int == winner_index(seed@, population),
        r < population,
{
    let msg = build_seed_message(&seed, population);
    let digest = keccak_digest(msg.as_slice());
    winner_from_digest(&digest, population)
}

/// Extracts the most recent blockhash from a recent-blockhashes record: an
/// 8-byte little-endian entry count followed by 32-byte hashes.
pub fn recent_blockhashes(data: &[u8]) -> (r: Result<[u8; 32], RaffleError>)
    ensures
        match blockhash_seed(data@) {
            Some(seed) => r is Ok && r->Ok_0@ == seed,
            None => r == Err::<[u8; 32], RaffleError>(RaffleError::InvalidAccountData),
        },
{
    if data.len() < 40 {
        return Err(RaffleError::InvalidAccountData);
    }
    let mut any_entry = false;
    let mut i: usize = 0;
    while i < 8
        invariant
            0 <= i <= 8,
            data@.len() >= 40,
            any_entry == exists|j: int| 0 <= j < i && data@[j] != 0,
        decreases 8 - i,
    {
        if data[i] != 0 {
            any_entry = true;
        }
        i = i + 1;
    }
    if !any_entry {
        return Err(RaffleError::InvalidAccountData);
    }
    let mut last_blockhash: [u8; 32] = [0u8; 32];
    let mut k: usize = 0;
    while k < 32
        invariant
            0 <= k <= 32,
            data@.len() >= 40,
            forall|j: int| 0 <= j < k ==> last_blockhash@[j] == data@[8 + j],
        decreases 32 - k,
    {
        last_blockhash[k] = data[8 + k];
        k = k + 1;
    }
    assert(last_blockhash@ =~= data@.subrange(8, 40));
    Ok(last_blockhash)
}


/// A seed mixed from a slot hash and the clock: the little-endian integer
/// in `most_recent`, less the low 32 bits of `unix_timestamp`, floored at zero.
pub fn slot_seed(most_recent: [u8; 4], unix_timestamp: i64) -> (r: u32)
    ensures
        r as int == if u32_from_le(most_recent@) >= (unix_timestamp as u32) as int {
            u32_from_le(most_recent@) - (unix_timestamp as u32) as int
        } else {
            0
        },
{
    let value = most_recent[0] as u32 + 256 * (most_recent[1] as u32) + 65536 * (most_recent[2] as u32)
        + 16777216 * (most_recent[3] as u32);
    value.saturating_sub(unix_timestamp as u32)
}

} // verus!
