//! A lazily decoded, owning view of an encoded header.
//!
//! The view keeps the bytes and nothing else. Each accessor decodes its own
//! field when it is asked, and reports what is wrong where the bytes are not
//! the encoding of a header. Where most of the fields are needed, decode the
//! header once.

use crate::codec::{
    byte_strings, bytes_outcome, item_count, rlp_item_count, rlp_value_at, uint_outcome,
    DecoderError,
};
use crate::hash::{keccak, keccak256_digest, Address, Bloom, H256};
use crate::header::{BlockNumber, Header as FullHeader};
use crate::uint::U256;
use crate::views::{
    address_outcome, bloom_outcome, h256_outcome, hash_field, seal_fields, seal_outcome,
    uint_field, word_field, HeaderView, AUTHOR_FIELD, DIFFICULTY_FIELD, EXTRA_DATA_FIELD,
    GAS_LIMIT_FIELD, GAS_USED_FIELD, LOG_BLOOM_FIELD, NUMBER_FIELD, PARENT_HASH_FIELD,
    RECEIPTS_ROOT_FIELD, STATE_ROOT_FIELD, TIMESTAMP_FIELD, TRANSACTIONS_ROOT_FIELD,
    UNCLES_HASH_FIELD,
};
use vstd::prelude::*;

verus! {

/// Number of items in the list of an encoded header: thirteen byte strings
/// and the list of the seal fields.
pub const HEADER_ITEMS: usize = 14;

/// Why the bytes are not the encoding of a header, or `None` where they are:
/// the error with which the items cannot be counted, a wrong number of
/// items, or the error of the first field, in the order of the encoding, that
/// the bytes do not hold.
pub open spec fn decode_failure(bytes: Seq<u8>) -> Option<DecoderError> {
    if rlp_item_count(bytes) is Err {
        Some(rlp_item_count(bytes)->Err_0)
    } else if rlp_item_count(bytes)->Ok_0 != HEADER_ITEMS {
        Some(DecoderError::RlpIncorrectListLen)
    } else if hash_field(bytes, PARENT_HASH_FIELD as nat, 32) is Err {
        Some(hash_field(bytes, PARENT_HASH_FIELD as nat, 32)->Err_0)
    } else if hash_field(bytes, UNCLES_HASH_FIELD as nat, 32) is Err {
        Some(hash_field(bytes, UNCLES_HASH_FIELD as nat, 32)->Err_0)
    } else if hash_field(bytes, AUTHOR_FIELD as nat, 20) is Err {
        Some(hash_field(bytes, AUTHOR_FIELD as nat, 20)->Err_0)
    } else if hash_field(bytes, STATE_ROOT_FIELD as nat, 32) is Err {
        Some(hash_field(bytes, STATE_ROOT_FIELD as nat, 32)->Err_0)
    } else if hash_field(bytes, TRANSACTIONS_ROOT_FIELD as nat, 32) is Err {
        Some(hash_field(bytes, TRANSACTIONS_ROOT_FIELD as nat, 32)->Err_0)
    } else if hash_field(bytes, RECEIPTS_ROOT_FIELD as nat, 32) is Err {
        Some(hash_field(bytes, RECEIPTS_ROOT_FIELD as nat, 32)->Err_0)
    } else if hash_field(bytes, LOG_BLOOM_FIELD as nat, 256) is Err {
        Some(hash_field(bytes, LOG_BLOOM_FIELD as nat, 256)->Err_0)
    } else if uint_field(bytes, DIFFICULTY_FIELD as nat) is Err {
        Some(uint_field(bytes, DIFFICULTY_FIELD as nat)->Err_0)
    } else if word_field(bytes, NUMBER_FIELD as nat) is Err {
        Some(word_field(bytes, NUMBER_FIELD as nat)->Err_0)
    } else if uint_field(bytes, GAS_LIMIT_FIELD as nat) is Err {
        Some(uint_field(bytes, GAS_LIMIT_FIELD as nat)->Err_0)
    } else if uint_field(bytes, GAS_USED_FIELD as nat) is Err {
        Some(uint_field(bytes, GAS_USED_FIELD as nat)->Err_0)
    } else if word_field(bytes, TIMESTAMP_FIELD as nat) is Err {
        Some(word_field(bytes, TIMESTAMP_FIELD as nat)->Err_0)
    } else if rlp_value_at(bytes, EXTRA_DATA_FIELD as nat) is Err {
        Some(rlp_value_at(bytes, EXTRA_DATA_FIELD as nat)->Err_0)
    } else if seal_fields(bytes) is Err {
        Some(seal_fields(bytes)->Err_0)
    } else {
        None
    }
}

/// Whether every field of `header` is the field that the bytes hold in its
/// place.
pub open spec fn decodes_to(bytes: Seq<u8>, header: FullHeader) -> bool {
    &&& hash_field(bytes, PARENT_HASH_FIELD as nat, 32) == Ok::<Seq<u8>, DecoderError>(
        header.parent_hash@,
    )
    &&& hash_field(bytes, UNCLES_HASH_FIELD as nat, 32) == Ok::<Seq<u8>, DecoderError>(
        header.uncles_hash@,
    )
    &&& hash_field(bytes, AUTHOR_FIELD as nat, 20) == Ok::<Seq<u8>, DecoderError>(header.author@)
    &&& hash_field(bytes, STATE_ROOT_FIELD as nat, 32) == Ok::<Seq<u8>, DecoderError>(
        header.state_root@,
    )
    &&& hash_field(bytes, TRANSACTIONS_ROOT_FIELD as nat, 32) == Ok::<Seq<u8>, DecoderError>(
        header.transactions_root@,
    )
    &&& hash_field(bytes, RECEIPTS_ROOT_FIELD as nat, 32) == Ok::<Seq<u8>, DecoderError>(
        header.receipts_root@,
    )
    &&& hash_field(bytes, LOG_BLOOM_FIELD as nat, 256) == Ok::<Seq<u8>, DecoderError>(
        header.log_bloom@,
    )
    &&& uint_field(bytes, DIFFICULTY_FIELD as nat) == Ok::<nat, DecoderError>(header.difficulty@)
    &&& word_field(bytes, NUMBER_FIELD as nat) == Ok::<u64, DecoderError>(header.number)
    &&& uint_field(bytes, GAS_LIMIT_FIELD as nat) == Ok::<nat, DecoderError>(header.gas_limit@)
    &&& uint_field(bytes, GAS_USED_FIELD as nat) == Ok::<nat, DecoderError>(header.gas_used@)
    &&& word_field(bytes, TIMESTAMP_FIELD as nat) == Ok::<u64, DecoderError>(header.timestamp)
    &&& rlp_value_at(bytes, EXTRA_DATA_FIELD as nat) == Ok::<Seq<u8>, DecoderError>(
        header.extra_data@,
    )
    &&& seal_fields(bytes) == Ok::<Seq<Seq<u8>>, DecoderError>(byte_strings(header.seal@))
}

/// Owning header view.
#[derive(Debug, Clone, PartialEq, Eq)]
pub struct Header(Vec<u8>);

impl Header {
    /// The bytes that the view owns.
    pub closed spec fn raw(&self) -> Seq<u8> {
        self.0@
    }

    /// Create a new owning header view. Nothing is read yet: bytes that are
    /// not an encoded header show when a field is asked for.
    pub fn new(encoded: Vec<u8>) -> (r: Self)
        ensures
            r.raw() == encoded@,
    {
        Header(encoded)
    }

    /// Upgrade this encoded view to a fully owned header: the items are
    /// counted, then every field is decoded, in the order of the encoding,
    /// and the first that fails is reported.
    pub fn decode(&self) -> (r: Result<FullHeader, DecoderError>)
        ensures
            match r {
                Ok(header) => decode_failure(self.raw()) is None && decodes_to(
                    self.raw(),
                    header,
                ),
                Err(error) => decode_failure(self.raw()) == Some(error),
            },
    {
        match item_count(self.0.as_slice()) {
            Ok(count) => {
                if count != HEADER_ITEMS {
                    return Err(DecoderError::RlpIncorrectListLen);
                }
            },
            Err(error) => {
                return Err(error);
            },
        }
        let view = self.view();
        let parent_hash = match view.parent_hash() {
            Ok(value) => value,
            Err(error) => {
                return Err(error);
            },
        };
        let uncles_hash = match view.uncles_hash() {
            Ok(value) => value,
            Err(error) => {
                return Err(error);
            },
        };
        let author = match view.author() {
            Ok(value) => value,
            Err(error) => {
                return Err(error);
            },
        };
        let state_root = match view.state_root() {
            Ok(value) => value,
            Err(error) => {
                return Err(error);
            },
        };
        let transactions_root = match view.transactions_root() {
            Ok(value) => value,
            Err(error) => {
                return Err(error);
            },
        };
        let receipts_root = match view.receipts_root() {
            Ok(value) => value,
            Err(error) => {
                return Err(error);
            },
        };
        let log_bloom = match view.log_bloom() {
            Ok(value) => value,
            Err(error) => {
                return Err(error);
            },
        };
        let difficulty = match view.difficulty() {
            Ok(value) => value,
            Err(error) => {
                return Err(error);
            },
        };
        let number = match view.number() {
            Ok(value) => value,
            Err(error) => {
                return Err(error);
            },
        };
        let gas_limit = match view.gas_limit() {
            Ok(value) => value,
            Err(error) => {
                return Err(error);
            },
        };
        let gas_used = match view.gas_used() {
            Ok(value) => value,
            Err(error) => {
                return Err(error);
            },
        };
        let timestamp = match view.timestamp() {
            Ok(value) => value,
            Err(error) => {
                return Err(error);
            },
        };
        let extra_data = match view.extra_data() {
            Ok(value) => value,
            Err(error) => {
                return Err(error);
            },
        };
        let seal = match view.seal() {
            Ok(value) => value,
            Err(error) => {
                return Err(error);
            },
        };
        Ok(
            FullHeader {
                parent_hash,
                uncles_hash,
                author,
                state_root,
                transactions_root,
                receipts_root,
                log_bloom,
                difficulty,
                number,
                gas_limit,
                gas_used,
                timestamp,
                extra_data,
                seal,
            },
        )
    }

    /// Get a borrowed header view onto the data.
    pub fn view(&self) -> (r: HeaderView<'_>)
        ensures
            r.raw() == self.raw(),
    {
        HeaderView::new(self.0.as_slice())
    }

    /// Consume the view and return the raw bytes.
    pub fn into_inner(self) -> (r: Vec<u8>)
        ensures
            r@ == self.raw(),
    {
        self.0
    }

    /// Returns the header hash: the Keccak-256 digest of all the bytes.
    pub fn hash(&self) -> (r: H256)
        ensures
            r@ == keccak256_digest(self.raw()),
    {
        keccak(self.0.as_slice())
    }

    /// Returns the parent hash.
    pub fn parent_hash(&self) -> (r: Result<H256, DecoderError>)
        ensures
            h256_outcome(r) == hash_field(self.raw(), PARENT_HASH_FIELD as nat, 32),
    {
        self.view().parent_hash()
    }

    /// Returns the uncles hash.
    pub fn uncles_hash(&self) -> (r: Result<H256, DecoderError>)
        ensures
            h256_outcome(r) == hash_field(self.raw(), UNCLES_HASH_FIELD as nat, 32),
    {
        self.view().uncles_hash()
    }

    /// Returns the author.
    pub fn author(&self) -> (r: Result<Address, DecoderError>)
        ensures
            address_outcome(r) == hash_field(self.raw(), AUTHOR_FIELD as nat, 20),
    {
        self.view().author()
    }

    /// Returns the state root.
    pub fn state_root(&self) -> (r: Result<H256, DecoderError>)
        ensures
            h256_outcome(r) == hash_field(self.raw(), STATE_ROOT_FIELD as nat, 32),
    {
        self.view().state_root()
    }

    /// Returns the transaction trie root.
    pub fn transactions_root(&self) -> (r: Result<H256, DecoderError>)
        ensures
            h256_outcome(r) == hash_field(self.raw(), TRANSACTIONS_ROOT_FIELD as nat, 32),
    {
        self.view().transactions_root()
    }

    /// Returns the receipts trie root.
    pub fn receipts_root(&self) -> (r: Result<H256, DecoderError>)
        ensures
            h256_outcome(r) == hash_field(self.raw(), RECEIPTS_ROOT_FIELD as nat, 32),
    {
        self.view().receipts_root()
    }

    /// Returns the block log bloom.
    pub fn log_bloom(&self) -> (r: Result<Bloom, DecoderError>)
        ensures
            bloom_outcome(r) == hash_field(self.raw(), LOG_BLOOM_FIELD as nat, 256),
    {
        self.view().log_bloom()
    }

    /// Difficulty of this block.
    pub fn difficulty(&self) -> (r: Result<U256, DecoderError>)
        ensures
            uint_outcome(r) == uint_field(self.raw(), DIFFICULTY_FIELD as nat),
    {
        self.view().difficulty()
    }

    /// Number of this block.
    pub fn number(&self) -> (r: Result<BlockNumber, DecoderError>)
        ensures
            r == word_field(self.raw(), NUMBER_FIELD as nat),
    {
        self.view().number()
    }

    /// Time this block was produced.
    pub fn timestamp(&self) -> (r: Result<u64, DecoderError>)
        ensures
            r == word_field(self.raw(), TIMESTAMP_FIELD as nat),
    {
        self.view().timestamp()
    }

    /// Gas limit of this block.
    pub fn gas_limit(&self) -> (r: Result<U256, DecoderError>)
        ensures
            uint_outcome(r) == uint_field(self.raw(), GAS_LIMIT_FIELD as nat),
    {
        self.view().gas_limit()
    }

    /// Total gas used in this block.
    pub fn gas_used(&self) -> (r: Result<U256, DecoderError>)
        ensures
            uint_outcome(r) == uint_field(self.raw(), GAS_USED_FIELD as nat),
    {
        self.view().gas_used()
    }

    /// Block extra data.
    pub fn extra_data(&self) -> (r: Result<Vec<u8>, DecoderError>)
        ensures
            bytes_outcome(r) == rlp_value_at(self.raw(), EXTRA_DATA_FIELD as nat),
    {
        self.view().extra_data()
    }

    /// Engine-specific seal fields.
    pub fn seal(&self) -> (r: Result<Vec<Vec<u8>>, DecoderError>)
        ensures
            seal_outcome(r) == seal_fields(self.raw()),
    {
        self.view().seal()
    }
}

} // verus!
