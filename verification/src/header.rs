//! The fully decoded block header.

use crate::codec::{
    byte_strings, encode_list, fixed_size, rlp_list_of, uint_value, word_value, DecoderError,
};
use crate::hash::{keccak, keccak256_digest, Address, Bloom, H256};
use crate::uint::{
    lemma_minimal_be_leads, lemma_minimal_be_length, lemma_minimal_be_value, lemma_power_of_bytes,
    lemma_u256_bound, minimal_be, U256,
};
use vstd::prelude::*;

verus! {

/// The number of a block in the chain.
pub type BlockNumber = u64;

/// A block header with every field decoded.
///
/// The seal is kept as the consensus engine left it: one encoded byte string
/// for each seal field.
#[derive(Clone, Debug, PartialEq, Eq)]
pub struct Header {
    /// Hash of the parent block.
    pub parent_hash: H256,
    /// Hash of the list of ommers.
    pub uncles_hash: H256,
    /// Beneficiary of the block.
    pub author: Address,
    /// Root of the state trie.
    pub state_root: H256,
    /// Root of the transactions trie.
    pub transactions_root: H256,
    /// Root of the receipts trie.
    pub receipts_root: H256,
    /// Bloom filter of the logs.
    pub log_bloom: Bloom,
    /// Difficulty of the block.
    pub difficulty: U256,
    /// Number of the block.
    pub number: BlockNumber,
    /// Gas limit of the block.
    pub gas_limit: U256,
    /// Gas used by the block.
    pub gas_used: U256,
    /// Time the block was produced, in seconds.
    pub timestamp: u64,
    /// Extra data of the block.
    pub extra_data: Vec<u8>,
    /// Seal fields, each in its own encoding.
    pub seal: Vec<Vec<u8>>,
}

impl Header {
    /// The thirteen byte strings that stand before the seal in the encoding,
    /// in their order. A number is written as its shortest big-endian string.
    pub open spec fn bare_fields(&self) -> Seq<Seq<u8>> {
        seq![
            self.parent_hash@,
            self.uncles_hash@,
            self.author@,
            self.state_root@,
            self.transactions_root@,
            self.receipts_root@,
            self.log_bloom@,
            minimal_be(self.difficulty@),
            minimal_be(self.number as nat),
            minimal_be(self.gas_limit@),
            minimal_be(self.gas_used@),
            minimal_be(self.timestamp as nat),
            self.extra_data@,
        ]
    }

    /// The digest that the proof of work is made over: the hash of the header
    /// without its seal.
    pub open spec fn bare_digest(&self) -> Seq<u8> {
        keccak256_digest(rlp_list_of(self.bare_fields()))
    }

    /// The hash of the header without its seal.
    pub fn bare_hash(&self) -> (r: H256)
        ensures
            r@ == self.bare_digest(),
    {
        let mut fields: Vec<Vec<u8>> = Vec::new();
        fields.push(self.parent_hash.to_vec());
        fields.push(self.uncles_hash.to_vec());
        fields.push(self.author.to_vec());
        fields.push(self.state_root.to_vec());
        fields.push(self.transactions_root.to_vec());
        fields.push(self.receipts_root.to_vec());
        fields.push(self.log_bloom.to_vec());
        fields.push(self.difficulty.to_be_bytes_trimmed());
        fields.push(U256::from_u64(self.number).to_be_bytes_trimmed());
        fields.push(self.gas_limit.to_be_bytes_trimmed());
        fields.push(self.gas_used.to_be_bytes_trimmed());
        fields.push(U256::from_u64(self.timestamp).to_be_bytes_trimmed());
        fields.push(self.extra_data.clone());
        assert(byte_strings(fields@) =~= self.bare_fields());
        keccak(encode_list(&fields).as_slice())
    }

    /// Hash of the parent block.
    pub fn parent_hash(&self) -> (r: &H256)
        ensures
            *r == self.parent_hash,
    {
        &self.parent_hash
    }

    /// Hash of the list of ommers.
    pub fn uncles_hash(&self) -> (r: &H256)
        ensures
            *r == self.uncles_hash,
    {
        &self.uncles_hash
    }

    /// Beneficiary of the block.
    pub fn author(&self) -> (r: &Address)
        ensures
            *r == self.author,
    {
        &self.author
    }

    /// Root of the state trie.
    pub fn state_root(&self) -> (r: &H256)
        ensures
            *r == self.state_root,
    {
        &self.state_root
    }

    /// Root of the transactions trie.
    pub fn transactions_root(&self) -> (r: &H256)
        ensures
            *r == self.transactions_root,
    {
        &self.transactions_root
    }

    /// Root of the receipts trie.
    pub fn receipts_root(&self) -> (r: &H256)
        ensures
            *r == self.receipts_root,
    {
        &self.receipts_root
    }

    /// Bloom filter of the logs.
    pub fn log_bloom(&self) -> (r: &Bloom)
        ensures
            *r == self.log_bloom,
    {
        &self.log_bloom
    }

    /// Difficulty of the block.
    pub fn difficulty(&self) -> (r: &U256)
        ensures
            *r == self.difficulty,
    {
        &self.difficulty
    }

    /// Number of the block.
    pub fn number(&self) -> (r: BlockNumber)
        ensures
            r == self.number,
    {
        self.number
    }

    /// Gas limit of the block.
    pub fn gas_limit(&self) -> (r: &U256)
        ensures
            *r == self.gas_limit,
    {
        &self.gas_limit
    }

    /// Gas used by the block.
    pub fn gas_used(&self) -> (r: &U256)
        ensures
            *r == self.gas_used,
    {
        &self.gas_used
    }

    /// Time the block was produced, in seconds.
    pub fn timestamp(&self) -> (r: u64)
        ensures
            r == self.timestamp,
    {
        self.timestamp
    }

    /// Extra data of the block.
    pub fn extra_data(&self) -> (r: &Vec<u8>)
        ensures
            *r == self.extra_data,
    {
        &self.extra_data
    }

    /// Seal fields, each in its own encoding.
    pub fn seal(&self) -> (r: &Vec<Vec<u8>>)
        ensures
            *r == self.seal,
    {
        &self.seal
    }
}

/// The byte strings that stand for a header before its seal read back as
/// its fields: each hash has its size, and each number is the number of its
/// shortest byte string. This is the part of the way from a header to its
/// encoding and back that lies above the framing of the list.
pub proof fn lemma_bare_fields_read_back(header: Header)
    ensures
        fixed_size(header.bare_fields()[0], 32) == Ok::<Seq<u8>, DecoderError>(
            header.parent_hash@,
        ),
        fixed_size(header.bare_fields()[1], 32) == Ok::<Seq<u8>, DecoderError>(
            header.uncles_hash@,
        ),
        fixed_size(header.bare_fields()[2], 20) == Ok::<Seq<u8>, DecoderError>(header.author@),
        fixed_size(header.bare_fields()[3], 32) == Ok::<Seq<u8>, DecoderError>(
            header.state_root@,
        ),
        fixed_size(header.bare_fields()[4], 32) == Ok::<Seq<u8>, DecoderError>(
            header.transactions_root@,
        ),
        fixed_size(header.bare_fields()[5], 32) == Ok::<Seq<u8>, DecoderError>(
            header.receipts_root@,
        ),
        fixed_size(header.bare_fields()[6], 256) == Ok::<Seq<u8>, DecoderError>(
            header.log_bloom@,
        ),
        uint_value(header.bare_fields()[7]) == Ok::<nat, DecoderError>(header.difficulty@),
        word_value(header.bare_fields()[8]) == Ok::<u64, DecoderError>(header.number),
        uint_value(header.bare_fields()[9]) == Ok::<nat, DecoderError>(header.gas_limit@),
        uint_value(header.bare_fields()[10]) == Ok::<nat, DecoderError>(header.gas_used@),
        word_value(header.bare_fields()[11]) == Ok::<u64, DecoderError>(header.timestamp),
        header.bare_fields()[12] == header.extra_data@,
{
    lemma_power_of_bytes();
    lemma_uint_reads_back(header.difficulty);
    lemma_uint_reads_back(header.gas_limit);
    lemma_uint_reads_back(header.gas_used);
    lemma_word_reads_back(header.number);
    lemma_word_reads_back(header.timestamp);
}

/// The shortest byte string of a 256-bit number reads back as the number.
pub proof fn lemma_uint_reads_back(value: U256)
    ensures
        uint_value(minimal_be(value@)) == Ok::<nat, DecoderError>(value@),
{
    lemma_power_of_bytes();
    lemma_u256_bound(value);
    lemma_minimal_be_value(value@);
    lemma_minimal_be_leads(value@);
    lemma_minimal_be_length(value@, 32);
}

/// The shortest byte string of a 64-bit number reads back as the number.
pub proof fn lemma_word_reads_back(value: u64)
    ensures
        word_value(minimal_be(value as nat)) == Ok::<u64, DecoderError>(value),
{
    lemma_power_of_bytes();
    lemma_minimal_be_value(value as nat);
    lemma_minimal_be_leads(value as nat);
    lemma_minimal_be_length(value as nat, 8);
}

} // verus!
