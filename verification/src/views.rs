//! A borrowed view onto an encoded header, and what each of its fields is.
//!
//! An encoded header is a list of fourteen items: thirteen byte strings, in
//! the order of the accessors below, and the list of the seal fields. Every
//! accessor reads its own item and nothing else; none keeps what it read.

use crate::codec::{
    check_size, decode_uint, decode_word, fixed_size, item_at, item_count, rlp_item,
    rlp_item_count, rlp_value_at, uint_outcome, uint_value, value_at, word_value, DecoderError,
};
use crate::hash::{bytes_to_array, Address, Bloom, H256};
use crate::header::BlockNumber;
use crate::uint::U256;
use vstd::prelude::*;

verus! {

/// Place of the parent hash in the list.
pub const PARENT_HASH_FIELD: usize = 0;

/// Place of the ommers hash in the list.
pub const UNCLES_HASH_FIELD: usize = 1;

/// Place of the author in the list.
pub const AUTHOR_FIELD: usize = 2;

/// Place of the state root in the list.
pub const STATE_ROOT_FIELD: usize = 3;

/// Place of the transactions root in the list.
pub const TRANSACTIONS_ROOT_FIELD: usize = 4;

/// Place of the receipts root in the list.
pub const RECEIPTS_ROOT_FIELD: usize = 5;

/// Place of the logs bloom in the list.
pub const LOG_BLOOM_FIELD: usize = 6;

/// Place of the difficulty in the list.
pub const DIFFICULTY_FIELD: usize = 7;

/// Place of the block number in the list.
pub const NUMBER_FIELD: usize = 8;

/// Place of the gas limit in the list.
pub const GAS_LIMIT_FIELD: usize = 9;

/// Place of the gas used in the list.
pub const GAS_USED_FIELD: usize = 10;

/// Place of the timestamp in the list.
pub const TIMESTAMP_FIELD: usize = 11;

/// Place of the extra data in the list.
pub const EXTRA_DATA_FIELD: usize = 12;

/// Place of the list of seal fields in the list.
pub const SEAL_FIELD: usize = 13;

/// The `size` bytes of the hash at `index` of the header encoded in `bytes`.
pub open spec fn hash_field(bytes: Seq<u8>, index: nat, size: nat) -> Result<Seq<u8>, DecoderError> {
    match rlp_value_at(bytes, index) {
        Ok(content) => fixed_size(content, size),
        Err(error) => Err(error),
    }
}

/// The 256-bit number at `index` of the header encoded in `bytes`.
pub open spec fn uint_field(bytes: Seq<u8>, index: nat) -> Result<nat, DecoderError> {
    match rlp_value_at(bytes, index) {
        Ok(content) => uint_value(content),
        Err(error) => Err(error),
    }
}

/// The 64-bit number at `index` of the header encoded in `bytes`.
pub open spec fn word_field(bytes: Seq<u8>, index: nat) -> Result<u64, DecoderError> {
    match rlp_value_at(bytes, index) {
        Ok(content) => word_value(content),
        Err(error) => Err(error),
    }
}

/// The first `count` items of the list encoded in `list`, each in its own
/// encoding, or the error of the first that is not found.
pub open spec fn listed_items(list: Seq<u8>, count: nat) -> Result<Seq<Seq<u8>>, DecoderError>
    decreases count,
{
    if count == 0 {
        Ok(Seq::empty())
    } else {
        match listed_items(list, (count - 1) as nat) {
            Err(error) => Err(error),
            Ok(items) => match rlp_item(list, (count - 1) as nat) {
                Err(error) => Err(error),
                Ok(item) => Ok(items.push(item)),
            },
        }
    }
}

/// The seal fields of the header encoded in `bytes`: the items of its last
/// list, as many as the list counts, each in its own encoding.
pub open spec fn seal_fields(bytes: Seq<u8>) -> Result<Seq<Seq<u8>>, DecoderError> {
    match rlp_item(bytes, SEAL_FIELD as nat) {
        Err(error) => Err(error),
        Ok(list) => match rlp_item_count(list) {
            Err(error) => Err(error),
            Ok(count) => listed_items(list, count),
        },
    }
}

/// A decoded array of bytes, or the error, by its view.
pub open spec fn array_outcome<const N: usize>(r: Result<[u8; N], DecoderError>) -> Result<
    Seq<u8>,
    DecoderError,
> {
    match r {
        Ok(bytes) => Ok(bytes@),
        Err(error) => Err(error),
    }
}

/// Decoded seal fields, or the error, by their views.
pub open spec fn seal_outcome(r: Result<Vec<Vec<u8>>, DecoderError>) -> Result<
    Seq<Seq<u8>>,
    DecoderError,
> {
    match r {
        Ok(fields) => Ok(crate::codec::byte_strings(fields@)),
        Err(error) => Err(error),
    }
}

/// Reads the hash of `N` bytes at `index`.
pub fn read_hash<const N: usize>(bytes: &[u8], index: usize) -> (r: Result<[u8; N], DecoderError>)
    ensures
        array_outcome(r) == hash_field(bytes@, index as nat, N as nat),
{
    let content = match value_at(bytes, index) {
        Ok(content) => content,
        Err(error) => {
            return Err(error);
        },
    };
    match check_size(content.as_slice(), N) {
        Ok(()) => Ok(bytes_to_array::<N>(content.as_slice())),
        Err(error) => Err(error),
    }
}

/// Reads the 256-bit number at `index`.
pub fn read_uint(bytes: &[u8], index: usize) -> (r: Result<U256, DecoderError>)
    ensures
        uint_outcome(r) == uint_field(bytes@, index as nat),
{
    match value_at(bytes, index) {
        Ok(content) => decode_uint(content.as_slice()),
        Err(error) => Err(error),
    }
}

/// Reads the 64-bit number at `index`.
pub fn read_word(bytes: &[u8], index: usize) -> (r: Result<u64, DecoderError>)
    ensures
        r == word_field(bytes@, index as nat),
{
    match value_at(bytes, index) {
        Ok(content) => decode_word(content.as_slice()),
        Err(error) => Err(error),
    }
}

/// Reads the seal fields.
pub fn read_seal(bytes: &[u8]) -> (r: Result<Vec<Vec<u8>>, DecoderError>)
    ensures
        seal_outcome(r) == seal_fields(bytes@),
{
    let list = match item_at(bytes, SEAL_FIELD) {
        Ok(list) => list,
        Err(error) => {
            return Err(error);
        },
    };
    let count = match item_count(list.as_slice()) {
        Ok(count) => count,
        Err(error) => {
            return Err(error);
        },
    };
    let mut fields: Vec<Vec<u8>> = Vec::new();
    let mut i: usize = 0;
    assert(crate::codec::byte_strings(fields@) =~= Seq::<Seq<u8>>::empty());
    while i < count
        invariant
            i <= count,
            rlp_item(bytes@, SEAL_FIELD as nat) == Ok::<Seq<u8>, DecoderError>(list@),
            rlp_item_count(list@) == Ok::<nat, DecoderError>(count as nat),
            listed_items(list@, i as nat) == Ok::<Seq<Seq<u8>>, DecoderError>(
                crate::codec::byte_strings(fields@),
            ),
        decreases count - i,
    {
        match item_at(list.as_slice(), i) {
            Ok(field) => {
                proof {
                    assert(crate::codec::byte_strings(fields@.push(field))
                        =~= crate::codec::byte_strings(fields@).push(field@));
                }
                fields.push(field);
            },
            Err(error) => {
                proof {
                    assert(listed_items(list@, (i + 1) as nat) == Err::<
                        Seq<Seq<u8>>,
                        DecoderError,
                    >(error));
                    lemma_listing_stops(list@, (i + 1) as nat, count as nat);
                }
                return Err(error);
            },
        }
        i = i + 1;
    }
    Ok(fields)
}

/// Once an item is not found, no longer listing finds it.
proof fn lemma_listing_stops(list: Seq<u8>, failed: nat, count: nat)
    requires
        failed <= count,
        listed_items(list, failed) is Err,
    ensures
        listed_items(list, count) == listed_items(list, failed),
    decreases count,
{
    if failed < count {
        lemma_listing_stops(list, failed, (count - 1) as nat);
    }
}

/// A view onto the bytes of an encoded header.
#[derive(Clone, Copy, Debug)]
pub struct HeaderView<'a> {
    bytes: &'a [u8],
}

impl<'a> HeaderView<'a> {
    /// The bytes that the view looks at.
    pub closed spec fn raw(&self) -> Seq<u8> {
        self.bytes@
    }

    /// A view onto `bytes`. Nothing is read yet.
    pub fn new(bytes: &'a [u8]) -> (r: HeaderView<'a>)
        ensures
            r.raw() == bytes@,
    {
        HeaderView { bytes }
    }

    /// Hash of the parent block.
    pub fn parent_hash(&self) -> (r: Result<H256, DecoderError>)
        ensures
            h256_outcome(r) == hash_field(self.raw(), PARENT_HASH_FIELD as nat, 32),
    {
        match read_hash::<32>(self.bytes, PARENT_HASH_FIELD) {
            Ok(bytes) => Ok(H256(bytes)),
            Err(error) => Err(error),
        }
    }

    /// Hash of the list of ommers.
    pub fn uncles_hash(&self) -> (r: Result<H256, DecoderError>)
        ensures
            h256_outcome(r) == hash_field(self.raw(), UNCLES_HASH_FIELD as nat, 32),
    {
        match read_hash::<32>(self.bytes, UNCLES_HASH_FIELD) {
            Ok(bytes) => Ok(H256(bytes)),
            Err(error) => Err(error),
        }
    }

    /// Beneficiary of the block.
    pub fn author(&self) -> (r: Result<Address, DecoderError>)
        ensures
            address_outcome(r) == hash_field(self.raw(), AUTHOR_FIELD as nat, 20),
    {
        match read_hash::<20>(self.bytes, AUTHOR_FIELD) {
            Ok(bytes) => Ok(Address(bytes)),
            Err(error) => Err(error),
        }
    }

    /// Root of the state trie.
    pub fn state_root(&self) -> (r: Result<H256, DecoderError>)
        ensures
            h256_outcome(r) == hash_field(self.raw(), STATE_ROOT_FIELD as nat, 32),
    {
        match read_hash::<32>(self.bytes, STATE_ROOT_FIELD) {
            Ok(bytes) => Ok(H256(bytes)),
            Err(error) => Err(error),
        }
    }

    /// Root of the transactions trie.
    pub fn transactions_root(&self) -> (r: Result<H256, DecoderError>)
        ensures
            h256_outcome(r) == hash_field(self.raw(), TRANSACTIONS_ROOT_FIELD as nat, 32),
    {
        match read_hash::<32>(self.bytes, TRANSACTIONS_ROOT_FIELD) {
            Ok(bytes) => Ok(H256(bytes)),
            Err(error) => Err(error),
        }
    }

    /// Root of the receipts trie.
    pub fn receipts_root(&self) -> (r: Result<H256, DecoderError>)
        ensures
            h256_outcome(r) == hash_field(self.raw(), RECEIPTS_ROOT_FIELD as nat, 32),
    {
        match read_hash::<32>(self.bytes, RECEIPTS_ROOT_FIELD) {
            Ok(bytes) => Ok(H256(bytes)),
            Err(error) => Err(error),
        }
    }

    /// Bloom filter of the logs.
    pub fn log_bloom(&self) -> (r: Result<Bloom, DecoderError>)
        ensures
            bloom_outcome(r) == hash_field(self.raw(), LOG_BLOOM_FIELD as nat, 256),
    {
        match read_hash::<256>(self.bytes, LOG_BLOOM_FIELD) {
            Ok(bytes) => Ok(Bloom(bytes)),
            Err(error) => Err(error),
        }
    }

    /// Difficulty of the block.
    pub fn difficulty(&self) -> (r: Result<U256, DecoderError>)
        ensures
            uint_outcome(r) == uint_field(self.raw(), DIFFICULTY_FIELD as nat),
    {
        read_uint(self.bytes, DIFFICULTY_FIELD)
    }

    /// Number of the block.
    pub fn number(&self) -> (r: Result<BlockNumber, DecoderError>)
        ensures
            r == word_field(self.raw(), NUMBER_FIELD as nat),
    {
        read_word(self.bytes, NUMBER_FIELD)
    }

    /// Gas limit of the block.
    pub fn gas_limit(&self) -> (r: Result<U256, DecoderError>)
        ensures
            uint_outcome(r) == uint_field(self.raw(), GAS_LIMIT_FIELD as nat),
    {
        read_uint(self.bytes, GAS_LIMIT_FIELD)
    }

    /// Gas used by the block.
    pub fn gas_used(&self) -> (r: Result<U256, DecoderError>)
        ensures
            uint_outcome(r) == uint_field(self.raw(), GAS_USED_FIELD as nat),
    {
        read_uint(self.bytes, GAS_USED_FIELD)
    }

    /// Time the block was produced, in seconds.
    pub fn timestamp(&self) -> (r: Result<u64, DecoderError>)
        ensures
            r == word_field(self.raw(), TIMESTAMP_FIELD as nat),
    {
        read_word(self.bytes, TIMESTAMP_FIELD)
    }

    /// Extra data of the block.
    pub fn extra_data(&self) -> (r: Result<Vec<u8>, DecoderError>)
        ensures
            crate::codec::bytes_outcome(r) == rlp_value_at(self.raw(), EXTRA_DATA_FIELD as nat),
    {
        value_at(self.bytes, EXTRA_DATA_FIELD)
    }

    /// Seal fields, each in its own encoding.
    pub fn seal(&self) -> (r: Result<Vec<Vec<u8>>, DecoderError>)
        ensures
            seal_outcome(r) == seal_fields(self.raw()),
    {
        read_seal(self.bytes)
    }
}

/// A decoded 256-bit hash, or the error, by its view.
pub open spec fn h256_outcome(r: Result<H256, DecoderError>) -> Result<Seq<u8>, DecoderError> {
    match r {
        Ok(hash) => Ok(hash@),
        Err(error) => Err(error),
    }
}

/// A decoded address, or the error, by its view.
pub open spec fn address_outcome(r: Result<Address, DecoderError>) -> Result<
    Seq<u8>,
    DecoderError,
> {
    match r {
        Ok(address) => Ok(address@),
        Err(error) => Err(error),
    }
}

/// A decoded bloom filter, or the error, by its view.
pub open spec fn bloom_outcome(r: Result<Bloom, DecoderError>) -> Result<Seq<u8>, DecoderError> {
    match r {
        Ok(bloom) => Ok(bloom@),
        Err(error) => Err(error),
    }
}

} // verus!
