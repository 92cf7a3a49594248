use ethereum_types::U256 as Wide;
use pow_header::encoded;
use pow_header::error::{BlockError, Error, OutOfBounds};
use pow_header::ethash_wrapper::{Ethash, EthashParams};
use pow_header::header::Header;
use pow_header::pow::LightCache;
use pow_header::reward::checked_eras_block_reward;
use pow_header::{Address, Bloom, H256, U256};
use std::collections::BTreeMap;

/// A fixed sequence of numbers that looks random.
struct Numbers(u64);

impl Numbers {
    fn next(&mut self) -> u64 {
        self.0 ^= self.0 << 13;
        self.0 ^= self.0 >> 7;
        self.0 ^= self.0 << 17;
        self.0
    }

    fn below(&mut self, bound: u64) -> u64 {
        self.next() % bound
    }

    /// A number of one of several sizes, so that small and large ones both come up.
    fn sized(&mut self) -> u64 {
        match self.below(6) {
            0 => self.below(4),
            1 => self.below(300),
            2 => self.below(200_000),
            3 => self.below(40_000_000),
            4 => u64::MAX - self.below(3),
            _ => self.next(),
        }
    }

    fn wide(&mut self) -> U256 {
        match self.below(5) {
            0 => U256::from_u64(self.below(3)),
            1 => U256::from_u64(self.sized()),
            2 => U256([self.next(), self.below(1 << 20), 0, 0]),
            3 => U256([self.next(), self.next(), self.next(), self.next()]),
            _ => U256([u64::MAX - self.below(2), u64::MAX, u64::MAX, u64::MAX]),
        }
    }

    fn bytes(&mut self, length: usize) -> Vec<u8> {
        (0..length).map(|_| self.next() as u8).collect()
    }
}

fn hash(numbers: &mut Numbers) -> H256 {
    let mut bytes = [0u8; 32];
    bytes.copy_from_slice(&numbers.bytes(32));
    H256(bytes)
}

fn header(numbers: &mut Numbers) -> Header {
    let parent_hash = hash(numbers);
    let uncles_hash = if numbers.below(2) == 0 {
        H256(keccak_hash::KECCAK_EMPTY_LIST_RLP.0)
    } else {
        hash(numbers)
    };
    let state_root = hash(numbers);
    let transactions_root = hash(numbers);
    let receipts_root = hash(numbers);
    let mut author = [0u8; 20];
    author.copy_from_slice(&numbers.bytes(20));
    let mut bloom = [0u8; 256];
    bloom.copy_from_slice(&numbers.bytes(256));
    let extra = numbers.below(40) as usize;
    let fields = numbers.below(4) as usize;
    Header {
        parent_hash,
        uncles_hash,
        author: Address(author),
        state_root,
        transactions_root,
        receipts_root,
        log_bloom: Bloom(bloom),
        difficulty: numbers.wide(),
        number: numbers.sized(),
        gas_limit: numbers.wide(),
        gas_used: numbers.wide(),
        timestamp: numbers.sized(),
        extra_data: numbers.bytes(extra),
        seal: (0..fields)
            .map(|_| {
                let length = numbers.below(70) as usize;
                rlp::encode(&numbers.bytes(length)).to_vec()
            })
            .collect(),
    }
}

fn params(numbers: &mut Numbers) -> EthashParams {
    let transition = |numbers: &mut Numbers| match numbers.below(4) {
        0 => 0,
        1 => u64::MAX,
        _ => numbers.sized(),
    };
    let mut delays = BTreeMap::new();
    for _ in 0..numbers.below(4) {
        delays.insert(numbers.sized(), numbers.sized());
    }
    EthashParams {
        minimum_difficulty: numbers.wide(),
        difficulty_bound_divisor: numbers.wide(),
        difficulty_increment_divisor: numbers.below(20),
        metropolis_difficulty_increment_divisor: numbers.below(20),
        duration_limit: numbers.sized(),
        homestead_transition: transition(numbers),
        difficulty_hardfork_transition: transition(numbers),
        difficulty_hardfork_bound_divisor: numbers.wide(),
        bomb_defuse_transition: transition(numbers),
        eip100b_transition: transition(numbers),
        ecip1010_pause_transition: transition(numbers),
        ecip1010_continue_transition: transition(numbers),
        ecip1017_era_rounds: u64::MAX,
        block_reward: BTreeMap::new(),
        expip2_transition: transition(numbers),
        expip2_duration_limit: numbers.sized(),
        block_reward_contract_transition: 0,
        difficulty_bomb_delays: delays,
    }
}

fn wide(value: U256) -> Wide {
    Wide(value.0)
}

/// Two to the power of the exponent, added to the target, where both exist in 256 bits.
fn with_bomb(target: Wide, exponent: u128) -> Option<Wide> {
    if exponent >= 256 {
        return None;
    }
    target.checked_add(Wide::one() << (exponent as usize))
}

/// The difficulty by the rules of each era, written out with the arithmetic of
/// `ethereum_types`, and `None` wherever that arithmetic has no answer.
fn expected(p: &EthashParams, header: &Header, parent: &Header) -> Option<Wide> {
    const PERIOD: u128 = 100_000;
    if header.number == 0 {
        return None;
    }
    let parent_has_uncles = parent.uncles_hash.0 != keccak_hash::KECCAK_EMPTY_LIST_RLP.0;
    let minimum = wide(p.minimum_difficulty);
    let divisor = if header.number >= p.difficulty_hardfork_transition {
        wide(p.difficulty_hardfork_bound_divisor)
    } else {
        wide(p.difficulty_bound_divisor)
    };
    let duration_limit =
        if header.number >= p.expip2_transition { p.expip2_duration_limit } else { p.duration_limit };
    let difficulty = wide(parent.difficulty);
    let step = difficulty.checked_div(divisor)?;
    let mut target = if header.number < p.homestead_transition {
        if header.timestamp as u128 >= parent.timestamp as u128 + duration_limit as u128 {
            difficulty.checked_sub(step)?
        } else {
            difficulty.checked_add(step)?
        }
    } else {
        let (increment_divisor, threshold) = if header.number < p.eip100b_transition {
            (p.difficulty_increment_divisor, 1)
        } else if parent_has_uncles {
            (p.metropolis_difficulty_increment_divisor, 2)
        } else {
            (p.metropolis_difficulty_increment_divisor, 1)
        };
        let elapsed = header.timestamp.checked_sub(parent.timestamp)?;
        let late = elapsed.checked_div(increment_divisor)?;
        if late <= threshold {
            difficulty.checked_add(step.checked_mul(Wide::from(threshold - late))?)?
        } else {
            let steps = Wide::from(std::cmp::min(late - threshold, 99));
            match step.checked_mul(steps) {
                Some(fall) => difficulty.saturating_sub(fall),
                None => Wide::zero(),
            }
        }
    };
    target = std::cmp::max(minimum, target);
    if header.number < p.bomb_defuse_transition {
        if header.number < p.ecip1010_pause_transition {
            let mut number = header.number;
            for (block, delay) in &p.difficulty_bomb_delays {
                if header.number >= *block {
                    number = number.saturating_sub(*delay);
                }
            }
            let period = number as u128 / PERIOD;
            if period > 1 {
                target = std::cmp::max(minimum, with_bomb(target, period - 2)?);
            }
        } else if header.number < p.ecip1010_continue_transition {
            let period = p.ecip1010_pause_transition as u128 / PERIOD;
            target = std::cmp::max(minimum, with_bomb(target, period.checked_sub(2)?)?);
        } else {
            let period = (parent.number as u128 + 1) / PERIOD;
            let paused =
                p.ecip1010_continue_transition.checked_sub(p.ecip1010_pause_transition)? as u128
                    / PERIOD;
            let exponent = period.checked_sub(paused)?.checked_sub(2)?;
            target = std::cmp::max(minimum, with_bomb(target, exponent)?);
        }
    }
    Some(target)
}

#[test]
fn difficulty_agrees_with_the_rules_written_out() {
    let mut numbers = Numbers(0x9e37_79b9_7f4a_7c15);
    let mut defined = 0;
    let mut undefined = 0;
    for round in 0..30_000 {
        let params = params(&mut numbers);
        let mut block = header(&mut numbers);
        let mut parent = header(&mut numbers);
        if round % 2 == 0 {
            // most blocks follow their parent closely
            parent.number = block.number.saturating_sub(1);
            parent.timestamp = block.timestamp.saturating_sub(numbers.below(400));
        }
        if round % 3 == 0 {
            block.number = numbers.below(40_000_000);
        }
        let want = expected(&params, &block, &parent);
        let light = LightCache::new(0, 128, vec![0u8; 64]).expect("one item and one mix");
        let engine = Ethash::new(params, light);
        let got = engine.checked_difficulty(&block, &parent);
        assert_eq!(got.map(|value| value.0), want.map(|value| value.0), "round {}", round);
        match got {
            Some(value) => {
                defined += 1;
                assert!(!value.lt(&engine.params().minimum_difficulty));
                assert_eq!(engine.calculate_difficulty(&block, &parent), value);
                block.difficulty = value;
                assert_eq!(engine.verify_block_family(&block, &parent), Ok(()));
            },
            None => {
                undefined += 1;
                let verdict = engine.verify_block_family(&block, &parent);
                if block.number == 0 {
                    assert!(matches!(verdict, Err(Error::Block(BlockError::RidiculousNumber(_)))));
                } else if block.number >= engine.params().homestead_transition
                    && block.timestamp < parent.timestamp
                {
                    assert_eq!(
                        verdict,
                        Err(Error::Block(BlockError::InvalidTimestamp(OutOfBounds {
                            min: Some(parent.timestamp),
                            max: None,
                            found: block.timestamp,
                        })))
                    );
                } else {
                    assert_eq!(
                        verdict,
                        Err(Error::Block(BlockError::DifficultyOutOfBounds(OutOfBounds {
                            min: Some(engine.params().minimum_difficulty),
                            max: None,
                            found: block.difficulty,
                        })))
                    );
                }
            },
        }
    }
    assert!(defined > 5_000, "{} defined", defined);
    assert!(undefined > 1_000, "{} undefined", undefined);
}

#[test]
fn reward_agrees_with_the_schedule_written_out() {
    let mut numbers = Numbers(0x2545_f491_4f6c_dd1d);
    let mut defined = 0;
    for round in 0..20_000 {
        let era_rounds = match numbers.below(4) {
            0 => numbers.below(3),
            1 => 1 + numbers.below(50),
            _ => numbers.sized(),
        };
        let block = match numbers.below(3) {
            0 => numbers.below(200),
            1 => era_rounds.saturating_mul(numbers.below(120)).saturating_add(numbers.below(2)),
            _ => numbers.sized(),
        };
        let base = numbers.wide();
        let want = (|| {
            if era_rounds == 0 {
                return None;
            }
            let eras = if block != 0 && block % era_rounds == 0 {
                block / era_rounds - 1
            } else {
                block / era_rounds
            };
            let mut reward = wide(base);
            let mut divisor = Wide::one();
            for _ in 0..eras {
                reward = reward.checked_mul(Wide::from(4))?;
                divisor = divisor.checked_mul(Wide::from(5))?;
            }
            Some((eras, reward / divisor))
        })();
        let got = checked_eras_block_reward(era_rounds, base, block);
        assert_eq!(
            got.map(|(era, reward)| (era, reward.0)),
            want.map(|(era, reward)| (era, reward.0)),
            "round {}",
            round
        );
        if got.is_some() {
            defined += 1;
        }
    }
    assert!(defined > 5_000, "{} defined", defined);
}

fn encode(header: &Header) -> Vec<u8> {
    let mut stream = rlp::RlpStream::new_list(14);
    stream.append(&ethereum_types::H256(header.parent_hash.0));
    stream.append(&ethereum_types::H256(header.uncles_hash.0));
    stream.append(&ethereum_types::Address::from(header.author.0));
    stream.append(&ethereum_types::H256(header.state_root.0));
    stream.append(&ethereum_types::H256(header.transactions_root.0));
    stream.append(&ethereum_types::H256(header.receipts_root.0));
    stream.append(&ethereum_types::Bloom(header.log_bloom.0));
    stream.append(&wide(header.difficulty));
    stream.append(&header.number);
    stream.append(&wide(header.gas_limit));
    stream.append(&wide(header.gas_used));
    stream.append(&header.timestamp);
    stream.append(&header.extra_data);
    stream.begin_list(header.seal.len());
    for field in &header.seal {
        stream.append_raw(field, 1);
    }
    stream.out().to_vec()
}

#[test]
fn every_encoded_header_reads_back_field_by_field() {
    let mut numbers = Numbers(0xda94_2042_e4dd_58b5);
    for _ in 0..2_000 {
        let header = header(&mut numbers);
        let bytes = encode(&header);
        let view = encoded::Header::new(bytes.clone());
        assert_eq!(view.parent_hash(), Ok(header.parent_hash));
        assert_eq!(view.uncles_hash(), Ok(header.uncles_hash));
        assert_eq!(view.author(), Ok(header.author));
        assert_eq!(view.state_root(), Ok(header.state_root));
        assert_eq!(view.transactions_root(), Ok(header.transactions_root));
        assert_eq!(view.receipts_root(), Ok(header.receipts_root));
        assert_eq!(view.log_bloom(), Ok(header.log_bloom));
        assert_eq!(view.difficulty(), Ok(header.difficulty));
        assert_eq!(view.number(), Ok(header.number));
        assert_eq!(view.gas_limit(), Ok(header.gas_limit));
        assert_eq!(view.gas_used(), Ok(header.gas_used));
        assert_eq!(view.timestamp(), Ok(header.timestamp));
        assert_eq!(view.extra_data(), Ok(header.extra_data.clone()));
        assert_eq!(view.seal(), Ok(header.seal.clone()));
        assert_eq!(view.hash().0, keccak_hash::keccak(&bytes).0);
        assert_eq!(view.decode(), Ok(header.clone()));
        assert_eq!(view.into_inner(), bytes);

        // the fields before the seal, as the `rlp` crate writes them one by one
        let sealed = rlp::Rlp::new(&bytes);
        let mut bare = rlp::RlpStream::new_list(13);
        for index in 0..13 {
            bare.append_raw(sealed.at(index).expect("a field").as_raw(), 1);
        }
        assert_eq!(header.bare_hash().0, keccak_hash::keccak(bare.out()).0);
    }
}
