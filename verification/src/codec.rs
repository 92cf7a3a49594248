//! Decoding of length-prefixed items.
//!
//! The framing of an encoded list and of an encoded byte string is read by
//! the `rlp` crate. What a field's byte string means (a hash of a fixed size,
//! an unsigned integer without leading zero) is decided here.

use crate::uint::{
    be_value, from_big_endian, lemma_power_increases, power, two_pow_64, U256,
};
use rlp::DecoderError as Outside;
use rlp::Rlp;
use vstd::prelude::*;

verus! {

/// Why a byte string is not the encoding that was expected.
#[derive(Clone, Copy, Debug, PartialEq, Eq)]
pub enum DecoderError {
    /// Data has additional bytes at the end of the valid fragment.
    RlpIsTooBig,
    /// Data has too few bytes.
    RlpIsTooShort,
    /// Expected an encoded list, found something else.
    RlpExpectedToBeList,
    /// Expected encoded data, found something else.
    RlpExpectedToBeData,
    /// Expected a list of a different size.
    RlpIncorrectListLen,
    /// The length of the data has a leading zero byte.
    RlpDataLenWithZeroPrefix,
    /// The length of the list has a leading zero byte.
    RlpListLenWithZeroPrefix,
    /// A longer representation than necessary was used.
    RlpInvalidIndirection,
    /// The declared length does not match the data after it.
    RlpInconsistentLengthAndData,
    /// The declared length overflows.
    RlpInvalidLength,
    /// Another decoding error.
    Custom(&'static str),
}

/// The encoding of item `index` of the list encoded in `bytes`, header
/// included, or the error with which `rlp::Rlp::at` refuses.
pub uninterp spec fn rlp_item(bytes: Seq<u8>, index: nat) -> Result<Seq<u8>, DecoderError>;

/// The content of the byte string encoded in `bytes`, or the error with which
/// `rlp::Rlp::as_val` refuses to read one.
pub uninterp spec fn rlp_payload(bytes: Seq<u8>) -> Result<Seq<u8>, DecoderError>;

/// The number of items of the list encoded in `bytes`, or the error with
/// which `rlp::Rlp::item_count` refuses.
pub uninterp spec fn rlp_item_count(bytes: Seq<u8>) -> Result<nat, DecoderError>;

/// The encoding of a list whose items are the given byte strings, as
/// `rlp::encode_list` writes it.
pub uninterp spec fn rlp_list_of(items: Seq<Seq<u8>>) -> Seq<u8>;

/// A decoded byte string, or the error, by its view.
pub open spec fn bytes_outcome(r: Result<Vec<u8>, DecoderError>) -> Result<Seq<u8>, DecoderError> {
    match r {
        Ok(bytes) => Ok(bytes@),
        Err(error) => Err(error),
    }
}

/// `rlp::Rlp::at`, and the raw bytes of the item it finds.
#[verifier::external_body]
pub(crate) fn item_at(bytes: &[u8], index: usize) -> (r: Result<Vec<u8>, DecoderError>)
    ensures
        bytes_outcome(r) == rlp_item(bytes@, index as nat),
{
    match Rlp::new(bytes).at(index) {
        Ok(item) => Ok(item.as_raw().to_vec()),
        Err(Outside::RlpIsTooBig) => Err(DecoderError::RlpIsTooBig),
        Err(Outside::RlpIsTooShort) => Err(DecoderError::RlpIsTooShort),
        Err(Outside::RlpExpectedToBeList) => Err(DecoderError::RlpExpectedToBeList),
        Err(Outside::RlpExpectedToBeData) => Err(DecoderError::RlpExpectedToBeData),
        Err(Outside::RlpIncorrectListLen) => Err(DecoderError::RlpIncorrectListLen),
        Err(Outside::RlpDataLenWithZeroPrefix) => Err(DecoderError::RlpDataLenWithZeroPrefix),
        Err(Outside::RlpListLenWithZeroPrefix) => Err(DecoderError::RlpListLenWithZeroPrefix),
        Err(Outside::RlpInvalidIndirection) => Err(DecoderError::RlpInvalidIndirection),
        Err(Outside::RlpInconsistentLengthAndData) => Err(DecoderError::RlpInconsistentLengthAndData),
        Err(Outside::RlpInvalidLength) => Err(DecoderError::RlpInvalidLength),
        Err(Outside::Custom(text)) => Err(DecoderError::Custom(text)),
    }
}

/// `rlp::Rlp::as_val` for a byte string: its content.
#[verifier::external_body]
pub(crate) fn payload_of(bytes: &[u8]) -> (r: Result<Vec<u8>, DecoderError>)
    ensures
        bytes_outcome(r) == rlp_payload(bytes@),
{
    match Rlp::new(bytes).as_val::<Vec<u8>>() {
        Ok(content) => Ok(content),
        Err(Outside::RlpIsTooBig) => Err(DecoderError::RlpIsTooBig),
        Err(Outside::RlpIsTooShort) => Err(DecoderError::RlpIsTooShort),
        Err(Outside::RlpExpectedToBeList) => Err(DecoderError::RlpExpectedToBeList),
        Err(Outside::RlpExpectedToBeData) => Err(DecoderError::RlpExpectedToBeData),
        Err(Outside::RlpIncorrectListLen) => Err(DecoderError::RlpIncorrectListLen),
        Err(Outside::RlpDataLenWithZeroPrefix) => Err(DecoderError::RlpDataLenWithZeroPrefix),
        Err(Outside::RlpListLenWithZeroPrefix) => Err(DecoderError::RlpListLenWithZeroPrefix),
        Err(Outside::RlpInvalidIndirection) => Err(DecoderError::RlpInvalidIndirection),
        Err(Outside::RlpInconsistentLengthAndData) => Err(DecoderError::RlpInconsistentLengthAndData),
        Err(Outside::RlpInvalidLength) => Err(DecoderError::RlpInvalidLength),
        Err(Outside::Custom(text)) => Err(DecoderError::Custom(text)),
    }
}

/// `rlp::Rlp::item_count`: the number of items of the list.
#[verifier::external_body]
pub(crate) fn item_count(bytes: &[u8]) -> (r: Result<usize, DecoderError>)
    ensures
        match r {
            Ok(count) => rlp_item_count(bytes@) == Ok::<nat, DecoderError>(count as nat),
            Err(error) => rlp_item_count(bytes@) == Err::<nat, DecoderError>(error),
        },
{
    match Rlp::new(bytes).item_count() {
        Ok(count) => Ok(count),
        Err(Outside::RlpIsTooBig) => Err(DecoderError::RlpIsTooBig),
        Err(Outside::RlpIsTooShort) => Err(DecoderError::RlpIsTooShort),
        Err(Outside::RlpExpectedToBeList) => Err(DecoderError::RlpExpectedToBeList),
        Err(Outside::RlpExpectedToBeData) => Err(DecoderError::RlpExpectedToBeData),
        Err(Outside::RlpIncorrectListLen) => Err(DecoderError::RlpIncorrectListLen),
        Err(Outside::RlpDataLenWithZeroPrefix) => Err(DecoderError::RlpDataLenWithZeroPrefix),
        Err(Outside::RlpListLenWithZeroPrefix) => Err(DecoderError::RlpListLenWithZeroPrefix),
        Err(Outside::RlpInvalidIndirection) => Err(DecoderError::RlpInvalidIndirection),
        Err(Outside::RlpInconsistentLengthAndData) => Err(DecoderError::RlpInconsistentLengthAndData),
        Err(Outside::RlpInvalidLength) => Err(DecoderError::RlpInvalidLength),
        Err(Outside::Custom(text)) => Err(DecoderError::Custom(text)),
    }
}

/// The byte strings of a vector of vectors.
pub open spec fn byte_strings(items: Seq<Vec<u8>>) -> Seq<Seq<u8>> {
    items.map_values(|item: Vec<u8>| item@)
}

/// `rlp::encode_list`: the encoding of a list of byte strings.
#[verifier::external_body]
pub(crate) fn encode_list(items: &Vec<Vec<u8>>) -> (r: Vec<u8>)
    ensures
        r@ == rlp_list_of(byte_strings(items@)),
{
    rlp::encode_list::<Vec<u8>, Vec<u8>>(items).to_vec()
}

/// The content of the byte string that is item `index` of the list encoded
/// in `bytes`.
pub open spec fn rlp_value_at(bytes: Seq<u8>, index: nat) -> Result<Seq<u8>, DecoderError> {
    match rlp_item(bytes, index) {
        Ok(item) => rlp_payload(item),
        Err(error) => Err(error),
    }
}

/// Reads the byte string that is item `index` of the list encoded in `bytes`.
pub fn value_at(bytes: &[u8], index: usize) -> (r: Result<Vec<u8>, DecoderError>)
    ensures
        bytes_outcome(r) == rlp_value_at(bytes@, index as nat),
{
    match item_at(bytes, index) {
        Ok(item) => payload_of(item.as_slice()),
        Err(error) => Err(error),
    }
}

/// A byte string of exactly `size` bytes: a shorter one is too short, a
/// longer one too big.
pub open spec fn fixed_size(content: Seq<u8>, size: nat) -> Result<Seq<u8>, DecoderError> {
    if content.len() < size {
        Err(DecoderError::RlpIsTooShort)
    } else if content.len() > size {
        Err(DecoderError::RlpIsTooBig)
    } else {
        Ok(content)
    }
}

/// The 64-bit number that a byte string stands for: up to 8 big-endian bytes
/// without a leading zero. A longer string is too big.
pub open spec fn word_value(content: Seq<u8>) -> Result<u64, DecoderError> {
    if content.len() > 8 {
        Err(DecoderError::RlpIsTooBig)
    } else if content.len() > 0 && content[0] == 0 {
        Err(DecoderError::RlpInvalidIndirection)
    } else {
        Ok(be_value(content) as u64)
    }
}

/// The 256-bit number that a byte string stands for: up to 32 big-endian
/// bytes without a leading zero. A longer string is too big.
pub open spec fn uint_value(content: Seq<u8>) -> Result<nat, DecoderError> {
    if content.len() > 0 && content[0] == 0 {
        Err(DecoderError::RlpInvalidIndirection)
    } else if content.len() > 32 {
        Err(DecoderError::RlpIsTooBig)
    } else {
        Ok(be_value(content))
    }
}

/// A big-endian value is below 256 to the power of its length.
pub proof fn lemma_be_value_bound(bytes: Seq<u8>)
    ensures
        be_value(bytes) < power(256, bytes.len()),
    decreases bytes.len(),
{
    if bytes.len() > 0 {
        lemma_be_value_bound(bytes.drop_last());
    }
}

/// Eight bytes hold a number below 2^64.
pub proof fn lemma_word_bound(bytes: Seq<u8>)
    requires
        bytes.len() <= 8,
    ensures
        be_value(bytes) < two_pow_64(),
{
    lemma_be_value_bound(bytes);
    lemma_power_increases(256, bytes.len(), 8);
    assert(power(256, 8) == two_pow_64()) by {
        reveal_with_fuel(power, 9);
    }
}

/// Reads a 64-bit number from the content of a byte string.
pub fn decode_word(content: &[u8]) -> (r: Result<u64, DecoderError>)
    ensures
        r == word_value(content@),
{
    let length = content.len();
    if length > 8 {
        return Err(DecoderError::RlpIsTooBig);
    }
    if length > 0 && content[0] == 0 {
        return Err(DecoderError::RlpInvalidIndirection);
    }
    let mut value: u64 = 0;
    let mut i: usize = 0;
    while i < length
        invariant
            i <= length,
            length == content@.len(),
            length <= 8,
            value == be_value(content@.take(i as int)),
        decreases length - i,
    {
        proof {
            let next = content@.take(i + 1);
            assert(next.drop_last() =~= content@.take(i as int));
            lemma_word_bound(next);
        }
        value = value * 256 + content[i] as u64;
        i = i + 1;
    }
    assert(content@.take(length as int) =~= content@);
    Ok(value)
}

/// A decoded 256-bit number, or the error, by its value.
pub open spec fn uint_outcome(r: Result<U256, DecoderError>) -> Result<nat, DecoderError> {
    match r {
        Ok(value) => Ok(value@),
        Err(error) => Err(error),
    }
}

/// Reads a 256-bit number from the content of a byte string.
pub fn decode_uint(content: &[u8]) -> (r: Result<U256, DecoderError>)
    ensures
        uint_outcome(r) == uint_value(content@),
{
    let length = content.len();
    if length > 0 && content[0] == 0 {
        return Err(DecoderError::RlpInvalidIndirection);
    }
    if length > 32 {
        return Err(DecoderError::RlpIsTooBig);
    }
    Ok(from_big_endian(content))
}

/// Checks that the content of a byte string has exactly `size` bytes.
pub fn check_size(content: &[u8], size: usize) -> (r: Result<(), DecoderError>)
    ensures
        match r {
            Ok(()) => fixed_size(content@, size as nat) == Ok::<Seq<u8>, DecoderError>(content@),
            Err(error) => fixed_size(content@, size as nat) == Err::<Seq<u8>, DecoderError>(
                error,
            ),
        },
{
    if content.len() < size {
        Err(DecoderError::RlpIsTooShort)
    } else if content.len() > size {
        Err(DecoderError::RlpIsTooBig)
    } else {
        Ok(())
    }
}

} // verus!
