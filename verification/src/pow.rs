//! The values of the proof of work.
//!
//! The sizes, the seed and the cache of an epoch and the memory-hard
//! computation over them come from the `ethash` crate, the digests from
//! `keccak_hash`. What is made of them, and how a value is turned into a
//! difficulty, is stated here.

use crate::hash::{keccak, keccak256_digest, keccak512_digest, keccak_512, H256, H64};
use crate::uint::{be_value, two_pow_256, U256};
use vstd::prelude::*;

verus! {

/// Number of blocks in an Ethash epoch.
pub const EPOCH_LENGTH: u64 = 30_000;

/// Number of bytes in one item of the light cache.
pub const CACHE_ITEM_BYTES: usize = 64;

/// Number of bytes that one step of the computation mixes in.
pub const MIX_BYTES: usize = 128;

/// Number of bytes from which the size of the cache starts, at epoch zero.
pub const CACHE_BYTES_INIT: usize = 16_777_216;

/// Number of bytes by which the cache may grow from one epoch to the next.
pub const CACHE_BYTES_GROWTH: usize = 131_072;

/// Number of bytes from which the size of the dataset starts, at epoch zero.
pub const DATASET_BYTES_INIT: usize = 1_073_741_824;

/// Number of bytes by which the dataset may grow from one epoch to the next.
pub const DATASET_BYTES_GROWTH: usize = 8_388_608;

/// Whether the sizes of an epoch can be told on this machine: the bound from
/// which the size of its dataset steps down fits in a `usize`. The bound of
/// the cache is the smaller, and fits with it.
pub open spec fn epoch_in_reach(epoch: u64) -> bool {
    DATASET_BYTES_INIT + DATASET_BYTES_GROWTH * epoch <= usize::MAX
}

/// Tells whether the sizes of an epoch can be told on this machine.
pub fn is_epoch_in_reach(epoch: u64) -> (r: bool)
    ensures
        r == epoch_in_reach(epoch),
{
    let room: usize = (usize::MAX - DATASET_BYTES_INIT) / DATASET_BYTES_GROWTH;
    epoch <= room as u64
}

/// 2^255.
pub open spec fn two_pow_255() -> nat {
    0x8000_0000_0000_0000_0000_0000_0000_0000_0000_0000_0000_0000_0000_0000_0000_0000nat
}

/// The difficulty that a proof-of-work value implies: the largest 256-bit
/// number for a value of zero or one, and otherwise twice the quotient of
/// 2^255 by the value.
pub open spec fn boundary_difficulty(value: nat) -> nat {
    if value <= 1 {
        (two_pow_256() - 1) as nat
    } else {
        (two_pow_255() / value) * 2
    }
}

/// The mix digest and the value that the light Ethash computation gives for
/// the hash of a header without its seal and a nonce, over the cache of an
/// epoch and the size of the full dataset of that epoch.
pub uninterp spec fn light_pow_of(hash: Seq<u8>, nonce: Seq<u8>, full_size: nat, cache: Seq<u8>) -> (
    Seq<u8>,
    Seq<u8>,
);

/// `ethash::hashimoto_light`: the mix digest and the value of the proof of
/// work. The outside function indexes the cache by whole items and divides by
/// the number of mixes in the dataset, so it panics on a cache without a
/// whole item and on a dataset smaller than one mix.
#[verifier::external_body]
pub(crate) fn hashimoto_light(hash: &H256, nonce: &H64, full_size: usize, cache: &[u8]) -> (r: (
    H256,
    H256,
))
    requires
        cache@.len() >= CACHE_ITEM_BYTES,
        cache@.len() % (CACHE_ITEM_BYTES as nat) == 0,
        full_size >= MIX_BYTES,
    ensures
        (r.0@, r.1@) == light_pow_of(hash@, nonce@, full_size as nat, cache@),
{
    let (mix, value) = ethash::hashimoto_light(hash.0.into(), nonce.0.into(), full_size, cache);
    (H256(mix.0), H256(value.0))
}

/// The size in bytes of the cache of an epoch, as `ethash::get_cache_size`
/// tells it.
pub uninterp spec fn cache_size_of(epoch: nat) -> nat;

/// The size in bytes of the full dataset of an epoch, as
/// `ethash::get_full_size` tells it.
pub uninterp spec fn full_size_of(epoch: nat) -> nat;

/// The seed of an epoch, as `ethash::get_seedhash` tells it.
pub uninterp spec fn seedhash_of(epoch: nat) -> Seq<u8>;

/// The cache of a size that `ethash::make_cache` makes from a seed.
pub uninterp spec fn cache_of(size: nat, seed: Seq<u8>) -> Seq<u8>;

/// `ethash::get_cache_size`. The outside function starts 64 bytes below the
/// bound of the epoch, a multiple of 64, and steps down by 128 bytes until
/// the number of items is prime: the size is a whole number of items, and at
/// least two. It adds up the bound in a `usize`.
#[verifier::external_body]
pub(crate) fn get_cache_size(epoch: usize) -> (r: usize)
    requires
        CACHE_BYTES_INIT + CACHE_BYTES_GROWTH * epoch <= usize::MAX,
    ensures
        r == cache_size_of(epoch as nat),
        r >= CACHE_ITEM_BYTES,
        r % CACHE_ITEM_BYTES == 0,
{
    ethash::get_cache_size(epoch)
}

/// `ethash::get_full_size`. The outside function starts 128 bytes below the
/// bound of the epoch and steps down by 256 bytes until the number of mixes
/// is prime: the size holds at least two mixes. It adds up the bound in a
/// `usize`.
#[verifier::external_body]
pub(crate) fn get_full_size(epoch: usize) -> (r: usize)
    requires
        DATASET_BYTES_INIT + DATASET_BYTES_GROWTH * epoch <= usize::MAX,
    ensures
        r == full_size_of(epoch as nat),
        r >= MIX_BYTES,
{
    ethash::get_full_size(epoch)
}

/// `ethash::get_seedhash`: the seed of the epoch.
#[verifier::external_body]
pub(crate) fn get_seedhash(epoch: usize) -> (r: H256)
    ensures
        r@ == seedhash_of(epoch as nat),
{
    H256(ethash::get_seedhash(epoch).0)
}

/// `ethash::make_cache` on a buffer of `size` bytes: the outside function
/// fills the buffer in place, item by item, so the cache has the size of the
/// buffer. It panics on a buffer that does not hold whole items, and on one
/// without an item.
#[verifier::external_body]
pub(crate) fn make_cache(size: usize, seed: &H256) -> (r: Vec<u8>)
    requires
        size >= CACHE_ITEM_BYTES,
        size % CACHE_ITEM_BYTES == 0,
    ensures
        r@ == cache_of(size as nat, seed@),
        r@.len() == size,
{
    let mut cache = vec![0u8; size];
    ethash::make_cache(&mut cache, seed.0.into());
    cache
}

/// What the cache of an epoch is made from: the size of the cache, the size
/// of the full dataset, and the seed.
#[derive(Clone, Copy, Debug, PartialEq, Eq)]
pub struct Epoch {
    /// Number of the epoch.
    pub epoch: u64,
    /// Size of the cache, in bytes.
    pub cache_size: usize,
    /// Size of the full dataset, in bytes.
    pub full_size: usize,
    /// Seed of the cache.
    pub seed: H256,
}

impl Epoch {
    /// The sizes and the seed of an epoch.
    pub fn of(epoch: u64) -> (r: Epoch)
        requires
            epoch_in_reach(epoch),
        ensures
            r.epoch == epoch,
            r.cache_size == cache_size_of(epoch as nat),
            r.full_size == full_size_of(epoch as nat),
            r.seed@ == seedhash_of(epoch as nat),
            r.cache_size >= CACHE_ITEM_BYTES,
            r.cache_size % CACHE_ITEM_BYTES == 0,
            r.full_size >= MIX_BYTES,
    {
        let index = epoch as usize;
        Epoch {
            epoch,
            cache_size: get_cache_size(index),
            full_size: get_full_size(index),
            seed: get_seedhash(index),
        }
    }
}

/// The size of the full dataset and the cache of an epoch, as they are made
/// from its sizes and its seed.
pub open spec fn epoch_light(epoch: u64) -> (nat, Seq<u8>) {
    (full_size_of(epoch as nat), cache_of(cache_size_of(epoch as nat), seedhash_of(epoch as nat)))
}

/// The cache of one epoch, from which the light computation derives the items
/// of the dataset that it needs, with the size of that dataset.
///
/// A cache holds whole items, at least one, and its dataset at least one mix.
#[derive(Debug, PartialEq, Eq)]
pub struct LightCache {
    epoch: u64,
    full_size: usize,
    cache: Vec<u8>,
}

impl LightCache {
    /// What every cache holds.
    #[verifier::type_invariant]
    spec fn well_formed(&self) -> bool {
        usable(self.cache@, self.full_size)
    }

    /// The epoch that the cache was made for.
    pub closed spec fn epoch_spec(&self) -> u64 {
        self.epoch
    }

    /// The size of the full dataset of the epoch, in bytes.
    pub closed spec fn full_size_spec(&self) -> usize {
        self.full_size
    }

    /// The bytes of the cache.
    pub closed spec fn bytes(&self) -> Seq<u8> {
        self.cache@
    }

    /// Whether the cache is the one that is made from the sizes and the seed
    /// of its epoch.
    pub open spec fn genuine(&self) -> bool {
        (self.full_size_spec() as nat, self.bytes()) == epoch_light(self.epoch_spec())
    }

    /// A cache that was made elsewhere and is held for `epoch`: the given
    /// bytes, for a dataset of `full_size` bytes; `None` where the bytes are
    /// not whole items or the dataset holds no mix. The bytes are taken as
    /// they come: what is computed over them is computed over these bytes.
    pub fn new(epoch: u64, full_size: usize, cache: Vec<u8>) -> (r: Option<LightCache>)
        ensures
            r is Some <==> usable(cache@, full_size),
            r matches Some(light) ==> {
                &&& light.epoch_spec() == epoch
                &&& light.full_size_spec() == full_size
                &&& light.bytes() == cache@
            },
    {
        if cache.len() >= CACHE_ITEM_BYTES && cache.len() % CACHE_ITEM_BYTES == 0 && full_size
            >= MIX_BYTES {
            Some(LightCache { epoch, full_size, cache })
        } else {
            None
        }
    }

    /// The cache that is made from the sizes and the seed of an epoch; `None`
    /// where the size of the cache is not a whole number of items, or the
    /// dataset holds no mix.
    pub fn build(from: &Epoch) -> (r: Option<LightCache>)
        ensures
            r is Some <==> {
                &&& from.cache_size >= CACHE_ITEM_BYTES
                &&& from.cache_size % CACHE_ITEM_BYTES == 0
                &&& from.full_size >= MIX_BYTES
            },
            r matches Some(light) ==> {
                &&& light.epoch_spec() == from.epoch
                &&& light.full_size_spec() == from.full_size
                &&& light.bytes() == cache_of(from.cache_size as nat, from.seed@)
            },
    {
        if from.cache_size >= CACHE_ITEM_BYTES && from.cache_size % CACHE_ITEM_BYTES == 0
            && from.full_size >= MIX_BYTES {
            let cache = make_cache(from.cache_size, &from.seed);
            Some(LightCache { epoch: from.epoch, full_size: from.full_size, cache })
        } else {
            None
        }
    }

    /// The cache of an epoch, made from its sizes and its seed. This is the
    /// memory-hard part: it fills some tens of megabytes.
    pub fn for_epoch(epoch: u64) -> (r: LightCache)
        requires
            epoch_in_reach(epoch),
        ensures
            r.epoch_spec() == epoch,
            r.genuine(),
    {
        let from = Epoch::of(epoch);
        let cache = make_cache(from.cache_size, &from.seed);
        LightCache { epoch, full_size: from.full_size, cache }
    }

    /// The epoch that the cache was made for.
    pub fn epoch(&self) -> (r: u64)
        ensures
            r == self.epoch_spec(),
    {
        self.epoch
    }

    /// The mix digest and the value of the proof of work for a hash and a
    /// nonce.
    pub fn compute_light(&self, hash: &H256, nonce: &H64) -> (r: (H256, H256))
        ensures
            (r.0@, r.1@) == light_pow_of(
                hash@,
                nonce@,
                self.full_size_spec() as nat,
                self.bytes(),
            ),
    {
        proof {
            use_type_invariant(self);
        }
        hashimoto_light(hash, nonce, self.full_size, self.cache.as_slice())
    }
}

/// Whether the light computation can run over a cache and a dataset size: the
/// cache holds whole items, at least one, and the dataset at least one mix.
pub open spec fn usable(cache: Seq<u8>, full_size: usize) -> bool {
    &&& cache.len() >= CACHE_ITEM_BYTES
    &&& cache.len() % (CACHE_ITEM_BYTES as nat) == 0
    &&& full_size >= MIX_BYTES
}

/// `ethash::cross_boundary` on the big-endian number of a value: the
/// difficulty that the value implies.
#[verifier::external_body]
pub(crate) fn cross_boundary(value: &H256) -> (r: U256)
    ensures
        r@ == boundary_difficulty(be_value(value@)),
{
    U256(ethash::cross_boundary(value.0.into()).0)
}

/// The value that the quick check derives without the Ethash tables: the
/// Keccak-256 digest of the seed and the mix digest, where the seed is the
/// Keccak-512 digest of the hash and the nonce, the nonce bytes in reverse.
pub open spec fn quick_pow_value(hash: Seq<u8>, nonce: Seq<u8>, mix: Seq<u8>) -> Seq<u8> {
    keccak256_digest(keccak512_digest(hash + nonce.reverse()) + mix)
}

/// The value of the proof of work as the seal claims it, computed from the
/// hash of the header without its seal, the nonce and the mix digest alone.
pub fn quick_get_difficulty(hash: &H256, nonce: &H64, mix: &H256) -> (r: H256)
    ensures
        r@ == quick_pow_value(hash@, nonce@, mix@),
{
    let mut seed_input: Vec<u8> = Vec::new();
    let mut i: usize = 0;
    while i < 32
        invariant
            i <= 32,
            seed_input@ =~= hash@.take(i as int),
        decreases 32 - i,
    {
        seed_input.push(hash.0[i]);
        i = i + 1;
    }
    let mut j: usize = 0;
    while j < 8
        invariant
            j <= 8,
            seed_input@ =~= hash@ + nonce@.reverse().take(j as int),
        decreases 8 - j,
    {
        seed_input.push(nonce.0[7 - j]);
        j = j + 1;
    }
    assert(seed_input@ =~= hash@ + nonce@.reverse());
    let seed = keccak_512(seed_input.as_slice());
    let mut value_input: Vec<u8> = Vec::new();
    let mut k: usize = 0;
    while k < 64
        invariant
            k <= 64,
            value_input@ =~= seed@.take(k as int),
        decreases 64 - k,
    {
        value_input.push(seed[k]);
        k = k + 1;
    }
    let mut m: usize = 0;
    while m < 32
        invariant
            m <= 32,
            value_input@ =~= seed@ + mix@.take(m as int),
        decreases 32 - m,
    {
        value_input.push(mix.0[m]);
        m = m + 1;
    }
    assert(value_input@ =~= seed@ + mix@);
    keccak(value_input.as_slice())
}

} // verus!
