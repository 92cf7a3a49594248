//! The errors in which a violated consensus rule is reported.

use crate::codec::DecoderError;
use crate::hash::{Address, Bloom, H256};
use crate::header::BlockNumber;
use crate::text::{bytes_to_short_hex, decimal, short_hex, uint_to_decimal, word_to_decimal};
use crate::uint::U256;
use vstd::prelude::*;
use vstd::string::StringExecFns;

verus! {

/// A value was expected and another was found.
#[derive(Clone, Copy, Debug, PartialEq, Eq)]
pub struct Mismatch<T> {
    /// Value expected.
    pub expected: T,
    /// Value found.
    pub found: T,
}

/// A value lies outside the range in which it is valid.
#[derive(Clone, Copy, Debug, PartialEq, Eq)]
pub struct OutOfBounds<T> {
    /// Smallest valid value, where there is one.
    pub min: Option<T>,
    /// Largest valid value, where there is one.
    pub max: Option<T>,
    /// Value found.
    pub found: T,
}

/// Errors concerning block processing.
///
/// A time is the number of seconds since the beginning of 1970, as a header
/// carries it.
#[derive(Clone, Copy, Debug, PartialEq, Eq)]
pub enum BlockError {
    /// Block has too many uncles.
    TooManyUncles(OutOfBounds<usize>),
    /// Extra data is of an invalid length.
    ExtraDataOutOfBounds(OutOfBounds<usize>),
    /// Seal has the wrong number of fields.
    InvalidSealArity(Mismatch<usize>),
    /// Block has too much gas used.
    TooMuchGasUsed(OutOfBounds<U256>),
    /// Uncles hash in header is invalid.
    InvalidUnclesHash(Mismatch<H256>),
    /// An uncle is from a generation too old.
    UncleTooOld(OutOfBounds<BlockNumber>),
    /// An uncle is from the same generation as the block.
    UncleIsBrother(OutOfBounds<BlockNumber>),
    /// An uncle is already in the chain.
    UncleInChain(H256),
    /// An uncle is included twice.
    DuplicateUncle(H256),
    /// An uncle has a parent not in the chain.
    UncleParentNotInChain(H256),
    /// State root header field is invalid.
    InvalidStateRoot(Mismatch<H256>),
    /// Gas used header field is invalid.
    InvalidGasUsed(Mismatch<U256>),
    /// Transactions root header field is invalid.
    InvalidTransactionsRoot(Mismatch<H256>),
    /// Difficulty is out of range: a loose error, raised before the
    /// difficulty that the block must claim is known.
    DifficultyOutOfBounds(OutOfBounds<U256>),
    /// Difficulty header field is invalid: a strong error, raised once the
    /// difficulty that the block must claim is known.
    InvalidDifficulty(Mismatch<U256>),
    /// A 256-bit element of the seal is not the one expected.
    MismatchedH256SealElement(Mismatch<H256>),
    /// The proof of work of the seal is invalid.
    InvalidProofOfWork(OutOfBounds<U256>),
    /// Some low-level aspect of the seal is incorrect.
    InvalidSeal,
    /// Gas limit header field is invalid.
    InvalidGasLimit(OutOfBounds<U256>),
    /// Receipts trie root header field is invalid.
    InvalidReceiptsRoot(Mismatch<H256>),
    /// Timestamp header field is invalid.
    InvalidTimestamp(OutOfBounds<u64>),
    /// Timestamp header field is too far in future.
    TemporarilyInvalid(OutOfBounds<u64>),
    /// Log bloom header field is invalid.
    InvalidLogBloom(Mismatch<Bloom>),
    /// Number field of header is invalid.
    InvalidNumber(Mismatch<BlockNumber>),
    /// Block number isn't sensible.
    RidiculousNumber(OutOfBounds<BlockNumber>),
    /// Too many transactions from a particular address.
    TooManyTransactions(Address),
    /// Parent given is unknown.
    UnknownParent(H256),
    /// Uncle parent given is unknown.
    UnknownUncleParent(H256),
    /// No transition to epoch number.
    UnknownEpochTransition(u64),
}

/// Every way in which a call of this crate fails.
#[derive(Clone, Debug, PartialEq, Eq)]
pub enum Error {
    /// An error told in words.
    Msg(String),
    /// Error concerning block processing.
    Block(BlockError),
    /// Error of the key handling, in its own words.
    Ethkey(String),
    /// Decoding error.
    Decoder(DecoderError),
    /// PoW hash is invalid or out of date.
    PowHashInvalid,
    /// The value of the nonce or mishash is invalid.
    PowInvalid,
}

impl From<BlockError> for Error {
    fn from(error: BlockError) -> (r: Error) {
        Error::Block(error)
    }
}

impl vstd::std_specs::convert::FromSpecImpl<BlockError> for Error {
    open spec fn obeys_from_spec() -> bool {
        true
    }

    open spec fn from_spec(error: BlockError) -> Error {
        Error::Block(error)
    }
}

impl From<DecoderError> for Error {
    fn from(error: DecoderError) -> (r: Error) {
        Error::Decoder(error)
    }
}

impl vstd::std_specs::convert::FromSpecImpl<DecoderError> for Error {
    open spec fn obeys_from_spec() -> bool {
        true
    }

    open spec fn from_spec(error: DecoderError) -> Error {
        Error::Decoder(error)
    }
}

/// How a mismatch reads, given how its two values read.
pub open spec fn mismatch_text(expected: Seq<char>, found: Seq<char>) -> Seq<char> {
    "Expected "@ + expected + ", found "@ + found
}

/// How a value out of bounds reads, given how the value and its bounds read.
pub open spec fn bounds_text(min: Option<Seq<char>>, max: Option<Seq<char>>, found: Seq<char>) -> Seq<
    char,
> {
    "Value "@ + found + " out of bounds. "@ + (match (min, max) {
        (Some(low), Some(high)) => "Min="@ + low + ", Max="@ + high,
        (Some(low), None) => "Min="@ + low,
        (None, Some(high)) => "Max="@ + high,
        (None, None) => Seq::empty(),
    })
}

/// How a bound that may be missing reads.
pub open spec fn word_bound(bound: Option<u64>) -> Option<Seq<char>> {
    match bound {
        Some(value) => Some(decimal(value as nat)),
        None => None,
    }
}

/// How a bound that may be missing reads.
pub open spec fn size_bound(bound: Option<usize>) -> Option<Seq<char>> {
    match bound {
        Some(value) => Some(decimal(value as nat)),
        None => None,
    }
}

/// How a bound that may be missing reads.
pub open spec fn uint_bound(bound: Option<U256>) -> Option<Seq<char>> {
    match bound {
        Some(value) => Some(decimal(value@)),
        None => None,
    }
}

/// How bounds on a 64-bit number read.
pub open spec fn word_bounds_text(bounds: OutOfBounds<u64>) -> Seq<char> {
    bounds_text(word_bound(bounds.min), word_bound(bounds.max), decimal(bounds.found as nat))
}

/// How bounds on a size read.
pub open spec fn size_bounds_text(bounds: OutOfBounds<usize>) -> Seq<char> {
    bounds_text(
        size_bound(bounds.min),
        size_bound(bounds.max),
        decimal(bounds.found as nat),
    )
}

/// How bounds on a 256-bit number read.
pub open spec fn uint_bounds_text(bounds: OutOfBounds<U256>) -> Seq<char> {
    bounds_text(uint_bound(bounds.min), uint_bound(bounds.max), decimal(bounds.found@))
}

/// The words in which a block error is told: a sentence on the rule that was
/// broken, with the values at fault in it, inside `Block error (..)`.
pub open spec fn block_error_text(error: BlockError) -> Seq<char> {
    "Block error ("@ + (match error {
        BlockError::TooManyUncles(bounds) => "Block has too many uncles. "@ + size_bounds_text(
            bounds,
        ),
        BlockError::ExtraDataOutOfBounds(bounds) => "Extra block data too long. "@
            + size_bounds_text(bounds),
        BlockError::InvalidSealArity(mismatch) => "Block seal in incorrect format: "@
            + mismatch_text(
            decimal(mismatch.expected as nat),
            decimal(mismatch.found as nat),
        ),
        BlockError::TooMuchGasUsed(bounds) => "Block has too much gas used. "@ + uint_bounds_text(
            bounds,
        ),
        BlockError::InvalidUnclesHash(mismatch) => "Block has invalid uncles hash: "@
            + mismatch_text(short_hex(mismatch.expected@), short_hex(mismatch.found@)),
        BlockError::UncleTooOld(bounds) => "Uncle block is too old. "@ + word_bounds_text(bounds),
        BlockError::UncleIsBrother(bounds) => "Uncle from same generation as block. "@
            + word_bounds_text(bounds),
        BlockError::UncleInChain(hash) => "Uncle "@ + short_hex(hash@) + " already in chain"@,
        BlockError::DuplicateUncle(hash) => "Uncle "@ + short_hex(hash@)
            + " already in the header"@,
        BlockError::UncleParentNotInChain(hash) => "Uncle "@ + short_hex(hash@)
            + " has a parent not in the chain"@,
        BlockError::InvalidStateRoot(mismatch) => "Invalid state root in header: "@
            + mismatch_text(short_hex(mismatch.expected@), short_hex(mismatch.found@)),
        BlockError::InvalidGasUsed(mismatch) => "Invalid gas used in header: "@ + mismatch_text(
            decimal(mismatch.expected@),
            decimal(mismatch.found@),
        ),
        BlockError::InvalidTransactionsRoot(mismatch) => "Invalid transactions root in header: "@
            + mismatch_text(short_hex(mismatch.expected@), short_hex(mismatch.found@)),
        BlockError::DifficultyOutOfBounds(bounds) => "Invalid block difficulty: "@
            + uint_bounds_text(bounds),
        BlockError::InvalidDifficulty(mismatch) => "Invalid block difficulty: "@ + mismatch_text(
            decimal(mismatch.expected@),
            decimal(mismatch.found@),
        ),
        BlockError::MismatchedH256SealElement(mismatch) => "Seal element out of bounds: "@
            + mismatch_text(short_hex(mismatch.expected@), short_hex(mismatch.found@)),
        BlockError::InvalidProofOfWork(bounds) => "Block has invalid PoW: "@ + uint_bounds_text(
            bounds,
        ),
        BlockError::InvalidSeal => "Block has invalid seal."@,
        BlockError::InvalidGasLimit(bounds) => "Invalid gas limit: "@ + uint_bounds_text(bounds),
        BlockError::InvalidReceiptsRoot(mismatch) => "Invalid receipts trie root in header: "@
            + mismatch_text(short_hex(mismatch.expected@), short_hex(mismatch.found@)),
        BlockError::InvalidTimestamp(bounds) => "Invalid timestamp in header: "@
            + word_bounds_text(bounds),
        BlockError::TemporarilyInvalid(bounds) => "Future timestamp in header: "@
            + word_bounds_text(bounds),
        BlockError::InvalidLogBloom(mismatch) => "Invalid log bloom in header: "@ + mismatch_text(
            short_hex(mismatch.expected@),
            short_hex(mismatch.found@),
        ),
        BlockError::InvalidNumber(mismatch) => "Invalid number in header: "@ + mismatch_text(
            decimal(mismatch.expected as nat),
            decimal(mismatch.found as nat),
        ),
        BlockError::RidiculousNumber(bounds) => "Implausible block number. "@ + word_bounds_text(
            bounds,
        ),
        BlockError::TooManyTransactions(address) => "Too many transactions from: "@
            + short_hex(address@),
        BlockError::UnknownParent(hash) => "Unknown parent: "@ + short_hex(hash@),
        BlockError::UnknownUncleParent(hash) => "Unknown uncle parent: "@ + short_hex(hash@),
        BlockError::UnknownEpochTransition(number) => "Unknown transition to epoch number: "@
            + decimal(number as nat),
    }) + ")"@
}

/// Writes a mismatch.
fn write_mismatch(expected: String, found: String) -> (r: String)
    ensures
        r@ == mismatch_text(expected@, found@),
{
    let mut out = String::from_str("Expected ");
    out.append(expected.as_str());
    out.append(", found ");
    out.append(found.as_str());
    out
}

/// How a written bound that may be missing reads.
pub open spec fn written(bound: Option<String>) -> Option<Seq<char>> {
    match bound {
        Some(text) => Some(text@),
        None => None,
    }
}

/// Writes a value out of bounds.
fn write_bounds(min: Option<String>, max: Option<String>, found: String) -> (r: String)
    ensures
        r@ == bounds_text(written(min), written(max), found@),
{
    let mut limits = String::new();
    match (min, max) {
        (Some(low), Some(high)) => {
            limits.append("Min=");
            limits.append(low.as_str());
            limits.append(", Max=");
            limits.append(high.as_str());
            assert(limits@ =~= "Min="@ + low@ + ", Max="@ + high@);
        },
        (Some(low), None) => {
            limits.append("Min=");
            limits.append(low.as_str());
            assert(limits@ =~= "Min="@ + low@);
        },
        (None, Some(high)) => {
            limits.append("Max=");
            limits.append(high.as_str());
            assert(limits@ =~= "Max="@ + high@);
        },
        (None, None) => {},
    }
    let mut out = String::from_str("Value ");
    out.append(found.as_str());
    out.append(" out of bounds. ");
    out.append(limits.as_str());
    out
}

/// Writes bounds on a 64-bit number.
fn write_word_bounds(bounds: &OutOfBounds<u64>) -> (r: String)
    ensures
        r@ == word_bounds_text(*bounds),
{
    let min = match bounds.min {
        Some(value) => Some(word_to_decimal(value)),
        None => None,
    };
    let max = match bounds.max {
        Some(value) => Some(word_to_decimal(value)),
        None => None,
    };
    write_bounds(min, max, word_to_decimal(bounds.found))
}

/// Writes bounds on a size.
fn write_size_bounds(bounds: &OutOfBounds<usize>) -> (r: String)
    ensures
        r@ == size_bounds_text(*bounds),
{
    let min = match bounds.min {
        Some(value) => Some(word_to_decimal(value as u64)),
        None => None,
    };
    let max = match bounds.max {
        Some(value) => Some(word_to_decimal(value as u64)),
        None => None,
    };
    write_bounds(min, max, word_to_decimal(bounds.found as u64))
}

/// Writes bounds on a 256-bit number.
fn write_uint_bounds(bounds: &OutOfBounds<U256>) -> (r: String)
    ensures
        r@ == uint_bounds_text(*bounds),
{
    let min = match bounds.min {
        Some(value) => Some(uint_to_decimal(&value)),
        None => None,
    };
    let max = match bounds.max {
        Some(value) => Some(uint_to_decimal(&value)),
        None => None,
    };
    write_bounds(min, max, uint_to_decimal(&bounds.found))
}

/// Writes a mismatch of hashes.
fn write_hash_mismatch(mismatch: &Mismatch<H256>) -> (r: String)
    ensures
        r@ == mismatch_text(short_hex(mismatch.expected@), short_hex(mismatch.found@)),
{
    write_mismatch(
        bytes_to_short_hex(mismatch.expected.0.as_slice()),
        bytes_to_short_hex(mismatch.found.0.as_slice()),
    )
}

/// Writes a mismatch of 256-bit numbers.
fn write_uint_mismatch(mismatch: &Mismatch<U256>) -> (r: String)
    ensures
        r@ == mismatch_text(decimal(mismatch.expected@), decimal(mismatch.found@)),
{
    write_mismatch(uint_to_decimal(&mismatch.expected), uint_to_decimal(&mismatch.found))
}

/// Puts a sentence and the values at fault into the frame of a block error.
fn framed(before: &str, values: String, after: &str) -> (r: String)
    ensures
        r@ == "Block error ("@ + (before@ + values@ + after@) + ")"@,
{
    let mut sentence = String::from_str(before);
    sentence.append(values.as_str());
    sentence.append(after);
    let mut out = String::from_str("Block error (");
    out.append(sentence.as_str());
    out.append(")");
    out
}

impl BlockError {
    /// The words in which the error is told.
    pub fn message(&self) -> (r: String)
        ensures
            r@ == block_error_text(*self),
    {
        let empty = String::new();
        let r = match self {
            BlockError::TooManyUncles(bounds) => framed(
                "Block has too many uncles. ",
                write_size_bounds(bounds),
                "",
            ),
            BlockError::ExtraDataOutOfBounds(bounds) => framed(
                "Extra block data too long. ",
                write_size_bounds(bounds),
                "",
            ),
            BlockError::InvalidSealArity(mismatch) => framed(
                "Block seal in incorrect format: ",
                write_mismatch(
                    word_to_decimal(mismatch.expected as u64),
                    word_to_decimal(mismatch.found as u64),
                ),
                "",
            ),
            BlockError::TooMuchGasUsed(bounds) => framed(
                "Block has too much gas used. ",
                write_uint_bounds(bounds),
                "",
            ),
            BlockError::InvalidUnclesHash(mismatch) => framed(
                "Block has invalid uncles hash: ",
                write_hash_mismatch(mismatch),
                "",
            ),
            BlockError::UncleTooOld(bounds) => framed(
                "Uncle block is too old. ",
                write_word_bounds(bounds),
                "",
            ),
            BlockError::UncleIsBrother(bounds) => framed(
                "Uncle from same generation as block. ",
                write_word_bounds(bounds),
                "",
            ),
            BlockError::UncleInChain(hash) => framed(
                "Uncle ",
                bytes_to_short_hex(hash.0.as_slice()),
                " already in chain",
            ),
            BlockError::DuplicateUncle(hash) => framed(
                "Uncle ",
                bytes_to_short_hex(hash.0.as_slice()),
                " already in the header",
            ),
            BlockError::UncleParentNotInChain(hash) => framed(
                "Uncle ",
                bytes_to_short_hex(hash.0.as_slice()),
                " has a parent not in the chain",
            ),
            BlockError::InvalidStateRoot(mismatch) => framed(
                "Invalid state root in header: ",
                write_hash_mismatch(mismatch),
                "",
            ),
            BlockError::InvalidGasUsed(mismatch) => framed(
                "Invalid gas used in header: ",
                write_uint_mismatch(mismatch),
                "",
            ),
            BlockError::InvalidTransactionsRoot(mismatch) => framed(
                "Invalid transactions root in header: ",
                write_hash_mismatch(mismatch),
                "",
            ),
            BlockError::DifficultyOutOfBounds(bounds) => framed(
                "Invalid block difficulty: ",
                write_uint_bounds(bounds),
                "",
            ),
            BlockError::InvalidDifficulty(mismatch) => framed(
                "Invalid block difficulty: ",
                write_uint_mismatch(mismatch),
                "",
            ),
            BlockError::MismatchedH256SealElement(mismatch) => framed(
                "Seal element out of bounds: ",
                write_hash_mismatch(mismatch),
                "",
            ),
            BlockError::InvalidProofOfWork(bounds) => framed(
                "Block has invalid PoW: ",
                write_uint_bounds(bounds),
                "",
            ),
            BlockError::InvalidSeal => framed("Block has invalid seal.", empty, ""),
            BlockError::InvalidGasLimit(bounds) => framed(
                "Invalid gas limit: ",
                write_uint_bounds(bounds),
                "",
            ),
            BlockError::InvalidReceiptsRoot(mismatch) => framed(
                "Invalid receipts trie root in header: ",
                write_hash_mismatch(mismatch),
                "",
            ),
            BlockError::InvalidTimestamp(bounds) => framed(
                "Invalid timestamp in header: ",
                write_word_bounds(bounds),
                "",
            ),
            BlockError::TemporarilyInvalid(bounds) => framed(
                "Future timestamp in header: ",
                write_word_bounds(bounds),
                "",
            ),
            BlockError::InvalidLogBloom(mismatch) => framed(
                "Invalid log bloom in header: ",
                write_mismatch(
                    bytes_to_short_hex(mismatch.expected.0.as_slice()),
                    bytes_to_short_hex(mismatch.found.0.as_slice()),
                ),
                "",
            ),
            BlockError::InvalidNumber(mismatch) => framed(
                "Invalid number in header: ",
                write_mismatch(
                    word_to_decimal(mismatch.expected),
                    word_to_decimal(mismatch.found),
                ),
                "",
            ),
            BlockError::RidiculousNumber(bounds) => framed(
                "Implausible block number. ",
                write_word_bounds(bounds),
                "",
            ),
            BlockError::TooManyTransactions(address) => framed(
                "Too many transactions from: ",
                bytes_to_short_hex(address.0.as_slice()),
                "",
            ),
            BlockError::UnknownParent(hash) => framed(
                "Unknown parent: ",
                bytes_to_short_hex(hash.0.as_slice()),
                "",
            ),
            BlockError::UnknownUncleParent(hash) => framed(
                "Unknown uncle parent: ",
                bytes_to_short_hex(hash.0.as_slice()),
                "",
            ),
            BlockError::UnknownEpochTransition(number) => framed(
                "Unknown transition to epoch number: ",
                word_to_decimal(*number),
                "",
            ),
        };
        proof {
            reveal_strlit("");
            assert(r@ =~= block_error_text(*self));
        }
        r
    }
}

} // verus!
