//! Fixed-size hashes and the Keccak digests.
//!
//! Each type holds its bytes in an array, the layout of the hash types of
//! `ethereum_types`; its view is the byte string.

use vstd::prelude::*;

verus! {

/// Whether two byte arrays hold the same bytes.
pub fn bytes_equal<const N: usize>(a: &[u8; N], b: &[u8; N]) -> (r: bool)
    ensures
        r == (a@ == b@),
{
    let mut i: usize = 0;
    while i < N
        invariant
            i <= N,
            forall|j: int| 0 <= j < i ==> a@[j] == b@[j],
        decreases N - i,
    {
        if a[i] != b[i] {
            return false;
        }
        i = i + 1;
    }
    assert(a@ =~= b@);
    true
}

/// The array that holds the bytes of a slice of the same length.
pub fn bytes_to_array<const N: usize>(bytes: &[u8]) -> (r: [u8; N])
    requires
        bytes@.len() == N,
    ensures
        r@ == bytes@,
{
    let mut out = [0u8; N];
    let mut i: usize = 0;
    while i < N
        invariant
            i <= N,
            bytes@.len() == N,
            forall|j: int| 0 <= j < i ==> out@[j] == bytes@[j],
        decreases N - i,
    {
        out[i] = bytes[i];
        i = i + 1;
    }
    assert(out@ =~= bytes@);
    out
}

/// The bytes of an array, as a vector.
pub fn array_to_vec<const N: usize>(a: &[u8; N]) -> (r: Vec<u8>)
    ensures
        r@ == a@,
{
    let mut out: Vec<u8> = Vec::new();
    let mut i: usize = 0;
    while i < N
        invariant
            i <= N,
            out@.len() == i,
            forall|j: int| 0 <= j < i ==> out@[j] == a@[j],
        decreases N - i,
    {
        out.push(a[i]);
        i = i + 1;
    }
    assert(out@ =~= a@);
    out
}

/// A 256-bit hash.
#[derive(Clone, Copy, Debug, PartialEq, Eq, Hash)]
pub struct H256(pub [u8; 32]);

impl View for H256 {
    type V = Seq<u8>;

    open spec fn view(&self) -> Seq<u8> {
        self.0@
    }
}

impl H256 {
    /// The hash of 32 zero bytes.
    pub fn zero() -> (r: H256)
        ensures
            r@ == Seq::new(32, |i: int| 0u8),
    {
        let r = H256([0u8; 32]);
        assert(r@ =~= Seq::new(32, |i: int| 0u8));
        r
    }

    /// The hash that holds the 32 bytes of `bytes`.
    pub fn from_slice(bytes: &[u8]) -> (r: H256)
        requires
            bytes@.len() == 32,
        ensures
            r@ == bytes@,
    {
        H256(bytes_to_array::<32>(bytes))
    }

    /// Whether both hold the same bytes.
    pub fn equals(&self, other: &H256) -> (r: bool)
        ensures
            r == (self@ == other@),
    {
        bytes_equal::<32>(&self.0, &other.0)
    }

    /// The bytes, as a vector.
    pub fn to_vec(&self) -> (r: Vec<u8>)
        ensures
            r@ == self@,
    {
        array_to_vec::<32>(&self.0)
    }
}

/// The hash that holds the 32 bytes of `bytes`.
pub open spec fn h256_of(bytes: Seq<u8>) -> H256 {
    choose|hash: H256| hash@ == bytes
}

/// A hash is the one that holds its bytes.
pub proof fn lemma_h256_of(hash: H256)
    ensures
        h256_of(hash@) == hash,
{
    assert(h256_of(hash@).0 =~= hash.0);
}

/// The nonce that holds the 8 bytes of `bytes`.
pub open spec fn h64_of(bytes: Seq<u8>) -> H64 {
    choose|nonce: H64| nonce@ == bytes
}

/// A nonce is the one that holds its bytes.
pub proof fn lemma_h64_of(nonce: H64)
    ensures
        h64_of(nonce@) == nonce,
{
    assert(h64_of(nonce@).0 =~= nonce.0);
}

/// A 64-bit hash: the nonce of a seal.
#[derive(Clone, Copy, Debug, PartialEq, Eq, Hash)]
pub struct H64(pub [u8; 8]);

impl View for H64 {
    type V = Seq<u8>;

    open spec fn view(&self) -> Seq<u8> {
        self.0@
    }
}

impl H64 {
    /// The hash that holds the 8 bytes of `bytes`.
    pub fn from_slice(bytes: &[u8]) -> (r: H64)
        requires
            bytes@.len() == 8,
        ensures
            r@ == bytes@,
    {
        H64(bytes_to_array::<8>(bytes))
    }

    /// Whether both hold the same bytes.
    pub fn equals(&self, other: &H64) -> (r: bool)
        ensures
            r == (self@ == other@),
    {
        bytes_equal::<8>(&self.0, &other.0)
    }

    /// The bytes, as a vector.
    pub fn to_vec(&self) -> (r: Vec<u8>)
        ensures
            r@ == self@,
    {
        array_to_vec::<8>(&self.0)
    }
}

/// A 160-bit account address.
#[derive(Clone, Copy, Debug, PartialEq, Eq, Hash)]
pub struct Address(pub [u8; 20]);

impl View for Address {
    type V = Seq<u8>;

    open spec fn view(&self) -> Seq<u8> {
        self.0@
    }
}

impl Address {
    /// The address that holds the 20 bytes of `bytes`.
    pub fn from_slice(bytes: &[u8]) -> (r: Address)
        requires
            bytes@.len() == 20,
        ensures
            r@ == bytes@,
    {
        Address(bytes_to_array::<20>(bytes))
    }

    /// Whether both hold the same bytes.
    pub fn equals(&self, other: &Address) -> (r: bool)
        ensures
            r == (self@ == other@),
    {
        bytes_equal::<20>(&self.0, &other.0)
    }

    /// The bytes, as a vector.
    pub fn to_vec(&self) -> (r: Vec<u8>)
        ensures
            r@ == self@,
    {
        array_to_vec::<20>(&self.0)
    }
}

/// The 2048-bit bloom filter of a block's logs.
#[derive(Clone, Copy, Debug, PartialEq, Eq, Hash)]
pub struct Bloom(pub [u8; 256]);

impl View for Bloom {
    type V = Seq<u8>;

    open spec fn view(&self) -> Seq<u8> {
        self.0@
    }
}

impl Bloom {
    /// The filter that holds the 256 bytes of `bytes`.
    pub fn from_slice(bytes: &[u8]) -> (r: Bloom)
        requires
            bytes@.len() == 256,
        ensures
            r@ == bytes@,
    {
        Bloom(bytes_to_array::<256>(bytes))
    }

    /// Whether both hold the same bytes.
    pub fn equals(&self, other: &Bloom) -> (r: bool)
        ensures
            r == (self@ == other@),
    {
        bytes_equal::<256>(&self.0, &other.0)
    }

    /// The bytes, as a vector.
    pub fn to_vec(&self) -> (r: Vec<u8>)
        ensures
            r@ == self@,
    {
        array_to_vec::<256>(&self.0)
    }
}

/// The Keccak-256 digest of a byte string: 32 bytes.
pub uninterp spec fn keccak256_digest(bytes: Seq<u8>) -> Seq<u8>;

/// The Keccak-512 digest of a byte string: 64 bytes.
pub uninterp spec fn keccak512_digest(bytes: Seq<u8>) -> Seq<u8>;

/// `keccak_hash::keccak`: the Keccak-256 digest of the bytes.
#[verifier::external_body]
pub(crate) fn keccak(bytes: &[u8]) -> (r: H256)
    ensures
        r@ == keccak256_digest(bytes@),
{
    H256(keccak_hash::keccak(bytes).0)
}

/// `keccak_hash::keccak_512`: the Keccak-512 digest of the bytes, written
/// into a buffer of 64 bytes.
#[verifier::external_body]
pub(crate) fn keccak_512(bytes: &[u8]) -> (r: [u8; 64])
    ensures
        r@ == keccak512_digest(bytes@),
{
    let mut out = [0u8; 64];
    keccak_hash::keccak_512(bytes, &mut out);
    out
}

/// The Keccak-256 digest of the encoding of the empty list, byte by byte.
pub open spec fn empty_list_digest() -> Seq<u8> {
    seq![
        0x1du8, 0xcc, 0x4d, 0xe8, 0xde, 0xc7, 0x5d, 0x7a, 0xab, 0x85, 0xb5, 0x67, 0xb6, 0xcc, 0xd4, 0x1a,
        0xd3, 0x12, 0x45, 0x1b, 0x94, 0x8a, 0x74, 0x13, 0xf0, 0xa1, 0x42, 0xfd, 0x40, 0xd4, 0x93, 0x47,
    ]
}

/// `keccak_hash::KECCAK_EMPTY_LIST_RLP`: the constant holds the bytes of
/// [`empty_list_digest`].
#[verifier::external_body]
pub(crate) fn keccak_empty_list_rlp() -> (r: H256)
    ensures
        r@ == empty_list_digest(),
{
    H256(keccak_hash::KECCAK_EMPTY_LIST_RLP.0)
}

} // verus!
