//! Header-level consensus checks for an Ethash proof-of-work chain.
//!
//! The crate holds a lazily decoded view over an encoded block header, the
//! codec of the proof-of-work seal, the difficulty adjustment rules of the
//! successive protocol eras, the three stages of header verification, and the
//! errors in which a violation is reported.
//!
//! Numbers of 256 bits, digests and the framing of encoded items come from
//! the crates `ethereum_types`, `keccak_hash`, `rlp` and `ethash`. Each call
//! into them stands in a function of its own, whose contract says what is
//! taken on trust; everything above those functions is proved.

pub mod codec;
pub mod config;
pub mod delays;
pub mod difficulty;
pub mod encoded;
pub mod error;
pub mod ethash_wrapper;
pub mod hash;
pub mod header;
pub mod header_chain;
pub mod pow;
pub mod reward;
pub mod text;
pub mod uint;
pub mod views;

pub use hash::{Address, Bloom, H256, H64};
pub use uint::U256;
