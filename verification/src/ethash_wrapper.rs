//! The Ethash engine: consensus parameters, the difficulty of a block, and
//! the three stages in which a header is verified.

use crate::codec::{byte_strings, check_size, fixed_size, payload_of, rlp_payload, DecoderError};
use crate::error::{BlockError, Error, Mismatch, OutOfBounds};
use crate::difficulty::{larger, lemma_pow2_256, EXP_DIFF_PERIOD, MAX_DECREASE_STEPS};
use crate::delays::delayed_block_number;
use crate::hash::{
    h256_of, h64_of, keccak_empty_list_rlp, lemma_h256_of, lemma_h64_of, H256, H64,
};
use crate::header::{BlockNumber, Header};
use crate::pow::{
    boundary_difficulty, cross_boundary, epoch_in_reach, epoch_light, light_pow_of,
    quick_get_difficulty, quick_pow_value, LightCache, EPOCH_LENGTH,
};
use crate::uint::{
    be_value, checked_add, checked_div, checked_mul, lemma_u256_of, saturating_sub, shl,
    two_pow_256, u256_of, U256,
};
use std::collections::BTreeMap;
use vstd::arithmetic::power2::pow2;
use vstd::prelude::*;

verus! {

/// Number of fields in the seal of an Ethash block.
pub const SEAL_ARITY: usize = 2;

/// Ethash specific seal.
#[derive(Clone, Copy, Debug, PartialEq, Eq)]
pub struct Seal {
    /// Ethash seal mix_hash.
    pub mix_hash: H256,
    /// Ethash seal nonce.
    pub nonce: H64,
}

/// The `size` bytes that a seal field holds: the content of the byte string
/// that the field encodes, where it has that size.
pub open spec fn seal_element(field: Seq<u8>, size: nat) -> Result<Seq<u8>, DecoderError> {
    match rlp_payload(field) {
        Ok(content) => fixed_size(content, size),
        Err(error) => Err(error),
    }
}

/// The seal that the fields hold. There must be two of them, the mix digest
/// of 32 bytes and the nonce of 8 bytes; the first that does not decode is
/// reported.
pub open spec fn parsed_seal(fields: Seq<Seq<u8>>) -> Result<Seal, Error> {
    if fields.len() != SEAL_ARITY {
        Err(
            Error::Block(
                BlockError::InvalidSealArity(
                    Mismatch { expected: SEAL_ARITY, found: fields.len() as usize },
                ),
            ),
        )
    } else {
        match seal_element(fields[0], 32) {
            Err(error) => Err(Error::Decoder(error)),
            Ok(mix) => match seal_element(fields[1], 8) {
                Err(error) => Err(Error::Decoder(error)),
                Ok(nonce) => Ok(Seal { mix_hash: h256_of(mix), nonce: h64_of(nonce) }),
            },
        }
    }
}

impl Seal {
    /// The seal made of the contents of its two fields, where each has its
    /// size.
    pub fn from_contents(mix: &[u8], nonce: &[u8]) -> (r: Result<Seal, Error>)
        ensures
            r == match fixed_size(mix@, 32) {
                Err(error) => Err::<Seal, Error>(Error::Decoder(error)),
                Ok(_) => match fixed_size(nonce@, 8) {
                    Err(error) => Err(Error::Decoder(error)),
                    Ok(_) => Ok(Seal { mix_hash: h256_of(mix@), nonce: h64_of(nonce@) }),
                },
            },
    {
        match check_size(mix, 32) {
            Ok(()) => {},
            Err(error) => {
                return Err(Error::Decoder(error));
            },
        }
        match check_size(nonce, 8) {
            Ok(()) => {},
            Err(error) => {
                return Err(Error::Decoder(error));
            },
        }
        let seal = Seal { mix_hash: H256::from_slice(mix), nonce: H64::from_slice(nonce) };
        proof {
            lemma_h256_of(seal.mix_hash);
            lemma_h64_of(seal.nonce);
        }
        Ok(seal)
    }

    /// Tries to parse the fields as an Ethash seal.
    ///
    /// Anything but two fields is refused with the number found. Two fields
    /// that decode to 32 and to 8 bytes always give a seal.
    pub fn parse_seal(seal: &[Vec<u8>]) -> (r: Result<Seal, Error>)
        ensures
            r == parsed_seal(byte_strings(seal@)),
            seal@.len() != 2 ==> r == Err::<Seal, Error>(
                Error::Block(
                    BlockError::InvalidSealArity(Mismatch { expected: 2, found: seal.len() }),
                ),
            ),
            (seal@.len() == 2 && seal_element(seal@[0]@, 32) is Ok && seal_element(seal@[1]@, 8)
                is Ok) ==> r is Ok,
    {
        if seal.len() != SEAL_ARITY {
            return Err(
                Error::Block(
                    BlockError::InvalidSealArity(
                        Mismatch { expected: SEAL_ARITY, found: seal.len() },
                    ),
                ),
            );
        }
        let mix = match payload_of(seal[0].as_slice()) {
            Ok(content) => content,
            Err(error) => {
                return Err(Error::Decoder(error));
            },
        };
        match check_size(mix.as_slice(), 32) {
            Ok(()) => {},
            Err(error) => {
                return Err(Error::Decoder(error));
            },
        }
        let nonce = match payload_of(seal[1].as_slice()) {
            Ok(content) => content,
            Err(error) => {
                return Err(Error::Decoder(error));
            },
        };
        Seal::from_contents(mix.as_slice(), nonce.as_slice())
    }
}

/// Consensus parameters of an Ethash chain.
#[derive(Debug, PartialEq)]
pub struct EthashParams {
    /// Minimum difficulty.
    pub minimum_difficulty: U256,
    /// Difficulty bound divisor.
    pub difficulty_bound_divisor: U256,
    /// Difficulty increment divisor.
    pub difficulty_increment_divisor: u64,
    /// Metropolis difficulty increment divisor.
    pub metropolis_difficulty_increment_divisor: u64,
    /// Block duration.
    pub duration_limit: u64,
    /// Homestead transition block number.
    pub homestead_transition: u64,
    /// Transition block for a change of the bound divisor.
    pub difficulty_hardfork_transition: u64,
    /// Bound divisor after that transition.
    pub difficulty_hardfork_bound_divisor: U256,
    /// Block from which the exponential term is no longer added.
    pub bomb_defuse_transition: u64,
    /// Number of the first block under the EIP-100 rules.
    pub eip100b_transition: u64,
    /// Number of the first block of the ECIP-1010 pause.
    pub ecip1010_pause_transition: u64,
    /// Number of the first block after the ECIP-1010 pause.
    pub ecip1010_continue_transition: u64,
    /// Number of blocks in one ECIP-1017 era.
    pub ecip1017_era_rounds: u64,
    /// Block reward in base units, by the block from which it holds.
    pub block_reward: BTreeMap<BlockNumber, U256>,
    /// EXPIP-2 block height.
    pub expip2_transition: u64,
    /// EXPIP-2 duration limit.
    pub expip2_duration_limit: u64,
    /// Block reward contract transition block.
    pub block_reward_contract_transition: u64,
    /// Delays of the exponential term, by the block from which each holds.
    pub difficulty_bomb_delays: BTreeMap<BlockNumber, BlockNumber>,
}

/// The target with two to the power of `exponent` added and held to the
/// minimum, or `None` where the sum does not fit in 256 bits.
fn with_bomb(minimum: &U256, target: &U256, exponent: u64) -> (r: Option<U256>)
    ensures
        r is Some <==> target@ + pow2(exponent as nat) < two_pow_256(),
        r matches Some(sum) ==> sum@ == larger(
            minimum@ as int,
            (target@ + pow2(exponent as nat)) as int,
        ),
{
    proof {
        lemma_pow2_256(exponent as nat);
    }
    if exponent >= 256 {
        return None;
    }
    let term = shl(&U256::one(), exponent as usize);
    proof {
        let power = pow2(exponent as nat);
        assert(1 * power == power) by (nonlinear_arith);
        vstd::arithmetic::div_mod::lemma_small_mod(power, two_pow_256());
    }
    match checked_add(target, &term) {
        Some(sum) => Some(minimum.max(sum)),
        None => None,
    }
}

/// What the difficulty bomb adds to a block's target.
enum Bomb {
    /// Nothing.
    Absent,
    /// Two to the power of the exponent.
    Exponent(u64),
    /// The exponent is negative, or the pause ends before it begins.
    Undefined,
}

/// Engine of the Ethash proof-of-work consensus: it holds the parameters of
/// the chain and the cache of one epoch, and never changes them. Blocks of
/// other epochs are verified over a cache made for the occasion.
pub struct Ethash {
    ethash_params: EthashParams,
    pow: LightCache,
}

impl View for Ethash {
    type V = EthashParams;

    closed spec fn view(&self) -> EthashParams {
        self.ethash_params
    }
}

impl Ethash {
    /// The cache over which the engine computes the proof of work.
    pub closed spec fn light(&self) -> LightCache {
        self.pow
    }

    /// An engine for a chain with the given parameters, with the cache of the
    /// epoch whose blocks it will mostly verify.
    pub fn new(ethash_params: EthashParams, pow: LightCache) -> (engine: Ethash)
        ensures
            engine@ == ethash_params,
            engine.light() == pow,
    {
        Ethash { ethash_params, pow }
    }

    /// The epoch of the cache that the engine holds.
    pub fn light_epoch(&self) -> (r: u64)
        ensures
            r == self.light().epoch_spec(),
    {
        self.pow.epoch()
    }

    /// The parameters of the chain.
    pub fn params(&self) -> (params: &EthashParams)
        ensures
            *params == self@,
    {
        &self.ethash_params
    }

    /// The era's target, or `None` where a divisor in force is zero, the block
    /// is older than its parent from Homestead on, or the target does not fit
    /// in 256 bits.
    fn era_target(&self, header: &Header, parent: &Header) -> (r: Option<U256>)
        ensures
            r is Some <==> {
                &&& self@.bound_divisor_at(header.number) != 0
                &&& header.number >= self@.homestead_transition ==> {
                    &&& self@.increment_divisor_at(header.number) != 0
                    &&& header.timestamp >= parent.timestamp
                }
                &&& self@.era_target(*header, *parent) < two_pow_256()
            },
            r matches Some(target) ==> target@ == self@.era_target(*header, *parent),
    {
        let params = &self.ethash_params;
        let parent_has_uncles = !parent.uncles_hash.equals(&keccak_empty_list_rlp());
        let divisor = if header.number >= params.difficulty_hardfork_transition {
            params.difficulty_hardfork_bound_divisor
        } else {
            params.difficulty_bound_divisor
        };
        let duration_limit = if header.number >= params.expip2_transition {
            params.expip2_duration_limit
        } else {
            params.duration_limit
        };
        let step = match checked_div(&parent.difficulty, &divisor) {
            Some(step) => step,
            None => {
                return None;
            },
        };
        proof {
            vstd::arithmetic::div_mod::lemma_div_nonincreasing(
                parent.difficulty@ as int,
                divisor@ as int,
            );
            crate::uint::lemma_u256_bound(parent.difficulty);
        }
        if header.number < params.homestead_transition {
            if header.timestamp as u128 >= parent.timestamp as u128 + duration_limit as u128 {
                Some(saturating_sub(&parent.difficulty, &step))
            } else {
                checked_add(&parent.difficulty, &step)
            }
        } else {
            let (increment_divisor, threshold): (u64, u64) = if header.number
                < params.eip100b_transition {
                (params.difficulty_increment_divisor, 1)
            } else if parent_has_uncles {
                (params.metropolis_difficulty_increment_divisor, 2)
            } else {
                (params.metropolis_difficulty_increment_divisor, 1)
            };
            if increment_divisor == 0 || header.timestamp < parent.timestamp {
                return None;
            }
            let late: u64 = (header.timestamp - parent.timestamp) / increment_divisor;
            if late <= threshold {
                let steps = U256::from_u64(threshold - late);
                match checked_mul(&step, &steps) {
                    Some(rise) => checked_add(&parent.difficulty, &rise),
                    None => None,
                }
            } else {
                let over: u64 = late - threshold;
                let steps = U256::from_u64(
                    if over < MAX_DECREASE_STEPS {
                        over
                    } else {
                        MAX_DECREASE_STEPS
                    },
                );
                match checked_mul(&step, &steps) {
                    Some(fall) => Some(saturating_sub(&parent.difficulty, &fall)),
                    None => Some(U256::zero()),
                }
            }
        }
    }

    /// What the bomb adds at `header`.
    fn bomb(&self, header: &Header, parent: &Header) -> (r: Bomb)
        ensures
            match r {
                Bomb::Absent => self@.bomb_exponent(*header, *parent) is None,
                Bomb::Exponent(exponent) => {
                    &&& self@.bomb_exponent(*header, *parent) == Some(exponent as int)
                    &&& self@.bomb_defined(*header, *parent)
                },
                Bomb::Undefined => !self@.bomb_defined(*header, *parent),
            },
    {
        let params = &self.ethash_params;
        if header.number >= params.bomb_defuse_transition {
            Bomb::Absent
        } else if header.number < params.ecip1010_pause_transition {
            let number = delayed_block_number(&params.difficulty_bomb_delays, header.number);
            let period: u64 = number / EXP_DIFF_PERIOD;
            if period > 1 {
                Bomb::Exponent(period - 2)
            } else {
                Bomb::Absent
            }
        } else if header.number < params.ecip1010_continue_transition {
            let period: u64 = params.ecip1010_pause_transition / EXP_DIFF_PERIOD;
            if period >= 2 {
                Bomb::Exponent(period - 2)
            } else {
                Bomb::Undefined
            }
        } else if params.ecip1010_continue_transition < params.ecip1010_pause_transition {
            Bomb::Undefined
        } else {
            let period: u64 = ((parent.number as u128 + 1) / (EXP_DIFF_PERIOD as u128)) as u64;
            let paused: u64 = (params.ecip1010_continue_transition
                - params.ecip1010_pause_transition) / EXP_DIFF_PERIOD;
            if period >= paused + 2 {
                Bomb::Exponent(period - paused - 2)
            } else {
                Bomb::Undefined
            }
        }
    }

    /// The difficulty that `header` must claim, given its parent, or `None`
    /// where it is not defined.
    pub fn checked_difficulty(&self, header: &Header, parent: &Header) -> (r: Option<U256>)
        ensures
            r is Some <==> self@.difficulty_defined(*header, *parent),
            r matches Some(target) ==> target@ == self@.difficulty(*header, *parent),
    {
        if header.number == 0 {
            return None;
        }
        let minimum = self.ethash_params.minimum_difficulty;
        let target = match self.era_target(header, parent) {
            Some(target) => minimum.max(target),
            None => {
                return None;
            },
        };
        proof {
            crate::uint::lemma_u256_bound(target);
        }
        match self.bomb(header, parent) {
            Bomb::Absent => Some(target),
            Bomb::Undefined => None,
            Bomb::Exponent(exponent) => with_bomb(&minimum, &target, exponent),
        }
    }

    /// The difficulty that `header` must claim, given its parent.
    ///
    /// It is never below the minimum difficulty, and depends on nothing but
    /// the two headers and the parameters of the chain.
    pub fn calculate_difficulty(&self, header: &Header, parent: &Header) -> (target: U256)
        requires
            self@.difficulty_defined(*header, *parent),
        ensures
            target@ == self@.difficulty(*header, *parent),
            target@ >= self@.minimum_difficulty@,
    {
        self.checked_difficulty(header, parent).unwrap()
    }
}

/// The verdict on a claimed difficulty, given the difficulty that the proof
/// of work implies: the claim may not exceed it.
pub open spec fn proof_of_work_verdict(claimed: U256, implied: nat) -> Result<(), Error> {
    if implied < claimed@ {
        Err(
            Error::Block(
                BlockError::InvalidProofOfWork(
                    OutOfBounds { min: Some(claimed), max: None, found: u256_of(implied) },
                ),
            ),
        )
    } else {
        Ok(())
    }
}

/// The verdict on a seal, given the mix digest and the value that the
/// memory-hard computation returned: the mix digest of the seal must be the
/// one returned, bit for bit, and the claimed difficulty may not exceed the
/// one that the value implies.
pub open spec fn light_verdict(
    claimed_difficulty: U256,
    claimed_mix: H256,
    computed_mix: Seq<u8>,
    value: Seq<u8>,
) -> Result<(), Error> {
    if computed_mix != claimed_mix@ {
        Err(
            Error::Block(
                BlockError::MismatchedH256SealElement(
                    Mismatch { expected: h256_of(computed_mix), found: claimed_mix },
                ),
            ),
        )
    } else {
        proof_of_work_verdict(claimed_difficulty, boundary_difficulty(be_value(value)))
    }
}

impl EthashParams {
    /// The verdict of the basic stage: the seal must parse, the difficulty
    /// may not be below the minimum, and it may not exceed the difficulty
    /// that the quick value of the seal implies.
    pub open spec fn basic_verdict(&self, header: Header) -> Result<(), Error> {
        match parsed_seal(byte_strings(header.seal@)) {
            Err(error) => Err(error),
            Ok(seal) => if header.difficulty@ < self.minimum_difficulty@ {
                Err(
                    Error::Block(
                        BlockError::DifficultyOutOfBounds(
                            OutOfBounds {
                                min: Some(self.minimum_difficulty),
                                max: None,
                                found: header.difficulty,
                            },
                        ),
                    ),
                )
            } else {
                proof_of_work_verdict(
                    header.difficulty,
                    boundary_difficulty(
                        be_value(quick_pow_value(header.bare_digest(), seal.nonce@, seal.mix_hash@)),
                    ),
                )
            },
        }
    }

    /// The verdict of the family stage.
    ///
    /// The genesis block has no parent to follow and is refused by its
    /// number. Where the difficulty that the block must claim is not defined,
    /// a block that, from Homestead on, is older than its parent is refused
    /// by its timestamp, and any other by its difficulty, loosely, with the
    /// minimum as the one bound that is known. Where it is defined, the block
    /// must claim it to the bit.
    pub open spec fn family_verdict(&self, header: Header, parent: Header) -> Result<(), Error> {
        if header.number == 0 {
            Err(
                Error::Block(
                    BlockError::RidiculousNumber(
                        OutOfBounds { min: Some(1), max: None, found: header.number },
                    ),
                ),
            )
        } else if !self.difficulty_defined(header, parent) {
            if header.number >= self.homestead_transition && header.timestamp < parent.timestamp {
                Err(
                    Error::Block(
                        BlockError::InvalidTimestamp(
                            OutOfBounds {
                                min: Some(parent.timestamp),
                                max: None,
                                found: header.timestamp,
                            },
                        ),
                    ),
                )
            } else {
                Err(
                    Error::Block(
                        BlockError::DifficultyOutOfBounds(
                            OutOfBounds {
                                min: Some(self.minimum_difficulty),
                                max: None,
                                found: header.difficulty,
                            },
                        ),
                    ),
                )
            }
        } else if header.difficulty@ != self.difficulty(header, parent) {
            Err(
                Error::Block(
                    BlockError::InvalidDifficulty(
                        Mismatch {
                            expected: u256_of(self.difficulty(header, parent) as nat),
                            found: header.difficulty,
                        },
                    ),
                ),
            )
        } else {
            Ok(())
        }
    }
}

/// The size of the dataset and the cache over which the proof of work of a
/// block of `epoch` is computed: those that the engine holds, where it holds
/// them for that epoch, and otherwise those made for the epoch.
pub open spec fn light_in_use(held: LightCache, epoch: u64) -> (nat, Seq<u8>) {
    if held.epoch_spec() == epoch {
        (held.full_size_spec() as nat, held.bytes())
    } else {
        epoch_light(epoch)
    }
}

/// The verdict of the unordered stage over the size of a dataset and a
/// cache: the seal must parse, and pass [`light_verdict`] with what the
/// memory-hard computation returns for the hash of the header without its
/// seal and the nonce.
pub open spec fn unordered_verdict(header: Header, light: (nat, Seq<u8>)) -> Result<(), Error> {
    match parsed_seal(byte_strings(header.seal@)) {
        Err(error) => Err(error),
        Ok(seal) => {
            let computed = light_pow_of(header.bare_digest(), seal.nonce@, light.0, light.1);
            light_verdict(header.difficulty, seal.mix_hash, computed.0, computed.1)
        },
    }
}

/// Checks a claimed difficulty against the value of a proof of work.
pub fn verify_pow_value(claimed: &U256, value: &H256) -> (r: Result<(), Error>)
    ensures
        r == proof_of_work_verdict(*claimed, boundary_difficulty(be_value(value@))),
{
    let implied = cross_boundary(value);
    proof {
        lemma_u256_of(implied);
    }
    if implied.lt(claimed) {
        Err(
            Error::Block(
                BlockError::InvalidProofOfWork(
                    OutOfBounds { min: Some(*claimed), max: None, found: implied },
                ),
            ),
        )
    } else {
        Ok(())
    }
}

/// Checks a seal against the mix digest and the value that the memory-hard
/// computation returned for its block.
///
/// A returned mix digest other than the one of the seal is always refused,
/// with both; an equal one always passes on to the check of the value.
pub fn verify_pow(
    claimed_difficulty: &U256,
    claimed_mix: &H256,
    computed_mix: &H256,
    value: &H256,
) -> (r: Result<(), Error>)
    ensures
        r == light_verdict(*claimed_difficulty, *claimed_mix, computed_mix@, value@),
        computed_mix@ != claimed_mix@ ==> r == Err::<(), Error>(
            Error::Block(
                BlockError::MismatchedH256SealElement(
                    Mismatch { expected: *computed_mix, found: *claimed_mix },
                ),
            ),
        ),
        computed_mix@ == claimed_mix@ ==> r == proof_of_work_verdict(
            *claimed_difficulty,
            boundary_difficulty(be_value(value@)),
        ),
{
    proof {
        lemma_h256_of(*computed_mix);
    }
    if !computed_mix.equals(claimed_mix) {
        return Err(
            Error::Block(
                BlockError::MismatchedH256SealElement(
                    Mismatch { expected: *computed_mix, found: *claimed_mix },
                ),
            ),
        );
    }
    verify_pow_value(claimed_difficulty, value)
}

impl Ethash {
    /// The cheap stage: it needs the header alone and no table.
    pub fn verify_block_basic(&self, header: &Header) -> (r: Result<(), Error>)
        ensures
            r == self@.basic_verdict(*header),
    {
        let seal = match Seal::parse_seal(header.seal.as_slice()) {
            Ok(seal) => seal,
            Err(error) => {
                return Err(error);
            },
        };
        let minimum = self.ethash_params.minimum_difficulty;
        if header.difficulty.lt(&minimum) {
            return Err(
                Error::Block(
                    BlockError::DifficultyOutOfBounds(
                        OutOfBounds { min: Some(minimum), max: None, found: header.difficulty },
                    ),
                ),
            );
        }
        let value = quick_get_difficulty(&header.bare_hash(), &seal.nonce, &seal.mix_hash);
        verify_pow_value(&header.difficulty, &value)
    }

    /// The stage that computes the proof of work: it needs the header alone.
    ///
    /// The seal is parsed before anything is computed. The computation runs
    /// over the cache of the epoch of the block: the one that the engine
    /// holds, where it is held for that epoch, and otherwise one that is made
    /// for the epoch, which takes its time. With an engine whose own cache
    /// was made for its epoch, every block is verified over the cache of the
    /// epoch of its number. The sizes of an epoch that the engine does not
    /// hold must fit the machine.
    pub fn verify_block_unordered(&self, header: &Header) -> (r: Result<(), Error>)
        requires
            header.number / EPOCH_LENGTH != self.light().epoch_spec() ==> epoch_in_reach(
                header.number / EPOCH_LENGTH,
            ),
        ensures
            r == unordered_verdict(
                *header,
                light_in_use(self.light(), header.number / EPOCH_LENGTH),
            ),
            self.light().genuine() ==> r == unordered_verdict(
                *header,
                epoch_light(header.number / EPOCH_LENGTH),
            ),
    {
        let seal = match Seal::parse_seal(header.seal.as_slice()) {
            Ok(seal) => seal,
            Err(error) => {
                return Err(error);
            },
        };
        let epoch = header.number / EPOCH_LENGTH;
        let bare = header.bare_hash();
        let (mix, value) = if self.pow.epoch() == epoch {
            self.pow.compute_light(&bare, &seal.nonce)
        } else {
            LightCache::for_epoch(epoch).compute_light(&bare, &seal.nonce)
        };
        verify_pow(&header.difficulty, &seal.mix_hash, &mix, &value)
    }

    /// The stage that holds the claimed difficulty against the parent. It
    /// gives its verdict on any two headers.
    pub fn verify_block_family(&self, header: &Header, parent: &Header) -> (r: Result<(), Error>)
        ensures
            r == self@.family_verdict(*header, *parent),
    {
        if header.number == 0 {
            return Err(
                Error::Block(
                    BlockError::RidiculousNumber(
                        OutOfBounds { min: Some(1), max: None, found: header.number },
                    ),
                ),
            );
        }
        let expected = match self.checked_difficulty(header, parent) {
            Some(expected) => expected,
            None => {
                if header.number >= self.ethash_params.homestead_transition && header.timestamp
                    < parent.timestamp {
                    return Err(
                        Error::Block(
                            BlockError::InvalidTimestamp(
                                OutOfBounds {
                                    min: Some(parent.timestamp),
                                    max: None,
                                    found: header.timestamp,
                                },
                            ),
                        ),
                    );
                }
                return Err(
                    Error::Block(
                        BlockError::DifficultyOutOfBounds(
                            OutOfBounds {
                                min: Some(self.ethash_params.minimum_difficulty),
                                max: None,
                                found: header.difficulty,
                            },
                        ),
                    ),
                );
            },
        };
        proof {
            lemma_u256_of(expected);
        }
        if !header.difficulty.equals(&expected) {
            return Err(
                Error::Block(
                    BlockError::InvalidDifficulty(
                        Mismatch { expected, found: header.difficulty },
                    ),
                ),
            );
        }
        Ok(())
    }
}

} // verus!
