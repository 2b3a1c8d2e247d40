//! The parameter registry: for each supported network, the complete,
//! immutable set of consensus constants, produced by a pure, total lookup.

use vstd::prelude::*;

use crate::uint::Uint256;

verus! {

/// The closed set of supported chains: a primary chain with its test and
/// regression-test variants, and a second, independent chain family with
/// its testnet. Adding a network is a code change, not configuration.
#[derive(Clone, Copy, Debug, PartialEq, Eq, Structural)]
pub enum NetworkId {
    /// The primary chain's main network.
    Mainnet,
    /// The primary chain's test network.
    Testnet,
    /// The primary chain's regression-test network.
    Regtest,
    /// The second chain family's main network.
    AltMainnet,
    /// The second chain family's test network.
    AltTestnet,
}

/// Parameters that influence chain consensus. One value-identical record
/// exists per network; nothing is mutated after construction.
#[derive(Clone, Debug, PartialEq, Eq, Structural)]
pub struct Params {
    /// Network for which the parameters are valid.
    pub network: NetworkId,
    /// Unix time at which a historical soft-fork rule becomes enforced.
    pub legacy_feature_activation_time: u32,
    /// Block height at which the first of three historical soft-fork rules
    /// becomes enforced.
    pub height_activation_a: u32,
    /// Block height at which the second historical soft-fork rule becomes
    /// enforced.
    pub height_activation_b: u32,
    /// Block height at which the third historical soft-fork rule becomes
    /// enforced.
    pub height_activation_c: u32,
    /// Number of blocks, out of the confirmation window, that must signal
    /// support before a rule change locks in.
    pub rule_change_activation_threshold: u32,
    /// Size of the signaling window, in blocks.
    pub miner_confirmation_window: u32,
    /// Proof-of-work limit: the easiest target a valid block hash may
    /// satisfy.
    pub pow_limit: Uint256,
    /// Intended average time between blocks, in seconds.
    pub pow_target_spacing: u64,
    /// Duration of one difficulty-retarget period, in seconds.
    pub pow_target_timespan: u64,
    /// Whether blocks may temporarily use the easiest difficulty when
    /// mining has stalled.
    pub allow_min_difficulty_blocks: bool,
    /// Whether difficulty retargeting is disabled entirely.
    pub no_pow_retargeting: bool,
}

/// Proof-of-work limit shared by the primary chain's main and test
/// networks.
pub open spec fn spec_primary_pow_limit() -> Uint256 {
    Uint256 {
        w0: 0xffffffffffffffff,
        w1: 0xffffffffffffffff,
        w2: 0xffffffffffffffff,
        w3: 0x00000000ffffffff,
    }
}

/// Proof-of-work limit of the primary chain's regression-test network.
pub open spec fn spec_regtest_pow_limit() -> Uint256 {
    Uint256 {
        w0: 0xffffffffffffffff,
        w1: 0xffffffffffffffff,
        w2: 0xffffffffffffffff,
        w3: 0x7fffffffffffffff,
    }
}

/// Proof-of-work limit shared by both networks of the second chain family.
pub open spec fn spec_alt_pow_limit() -> Uint256 {
    Uint256 {
        w0: 0xffffffffffffffff,
        w1: 0xffffffffffffffff,
        w2: 0xffffffffffffffff,
        w3: 0x00000fffffffffff,
    }
}

/// The registry's content: the one record that belongs to each network,
/// every field literal and bit-exact.
pub open spec fn spec_params(network: NetworkId) -> Params {
    match network {
        NetworkId::Mainnet => Params {
            network: NetworkId::Mainnet,
            legacy_feature_activation_time: 1333238400,
            height_activation_a: 227931,
            height_activation_b: 388381,
            height_activation_c: 363725,
            rule_change_activation_threshold: 1916,
            miner_confirmation_window: 2016,
            pow_limit: spec_primary_pow_limit(),
            pow_target_spacing: 600,
            pow_target_timespan: 1209600,
            allow_min_difficulty_blocks: false,
            no_pow_retargeting: false,
        },
        NetworkId::Testnet => Params {
            network: NetworkId::Testnet,
            legacy_feature_activation_time: 1333238400,
            height_activation_a: 21111,
            height_activation_b: 581885,
            height_activation_c: 330776,
            rule_change_activation_threshold: 1512,
            miner_confirmation_window: 2016,
            pow_limit: spec_primary_pow_limit(),
            pow_target_spacing: 600,
            pow_target_timespan: 1209600,
            allow_min_difficulty_blocks: true,
            no_pow_retargeting: false,
        },
        NetworkId::Regtest => Params {
            network: NetworkId::Regtest,
            legacy_feature_activation_time: 1333238400,
            height_activation_a: 100000000,
            height_activation_b: 1351,
            height_activation_c: 1251,
            rule_change_activation_threshold: 108,
            miner_confirmation_window: 144,
            pow_limit: spec_regtest_pow_limit(),
            pow_target_spacing: 600,
            pow_target_timespan: 1209600,
            allow_min_difficulty_blocks: true,
            no_pow_retargeting: true,
        },
        NetworkId::AltMainnet => Params {
            network: NetworkId::AltMainnet,
            legacy_feature_activation_time: 1333238400,
            height_activation_a: 1034383,
            height_activation_b: 3464751,
            height_activation_c: 1034383,
            rule_change_activation_threshold: 9576,
            miner_confirmation_window: 10080,
            pow_limit: spec_alt_pow_limit(),
            pow_target_spacing: 60,
            pow_target_timespan: 14400,
            allow_min_difficulty_blocks: false,
            no_pow_retargeting: false,
        },
        NetworkId::AltTestnet => Params {
            network: NetworkId::AltTestnet,
            legacy_feature_activation_time: 1333238400,
            height_activation_a: 708658,
            height_activation_b: 1854705,
            height_activation_c: 708658,
            rule_change_activation_threshold: 2880,
            miner_confirmation_window: 10080,
            pow_limit: spec_alt_pow_limit(),
            pow_target_spacing: 60,
            pow_target_timespan: 14400,
            allow_min_difficulty_blocks: true,
            no_pow_retargeting: false,
        },
    }
}

impl Params {
    /// The consensus invariants every produced record satisfies: the
    /// signaling threshold fits in its window, and both retarget times are
    /// strictly positive.
    pub open spec fn well_formed(self) -> bool {
        &&& self.rule_change_activation_threshold <= self.miner_confirmation_window
        &&& self.pow_target_spacing > 0
        &&& self.pow_target_timespan > 0
    }

    /// Creates the parameter set for the given network: the lookup is
    /// total over `NetworkId` and returns exactly the record the registry
    /// defines for that network.
    pub fn new(network: NetworkId) -> (r: Params)
        ensures
            r == spec_params(network),
            r.well_formed(),
    {
        match network {
            NetworkId::Mainnet => Params {
                network: NetworkId::Mainnet,
                legacy_feature_activation_time: 1333238400,
                height_activation_a: 227931,
                height_activation_b: 388381,
                height_activation_c: 363725,
                rule_change_activation_threshold: 1916,
                miner_confirmation_window: 2016,
                pow_limit: Uint256 {
                    w0: 0xffffffffffffffff,
                    w1: 0xffffffffffffffff,
                    w2: 0xffffffffffffffff,
                    w3: 0x00000000ffffffff,
                },
                pow_target_spacing: 600,
                pow_target_timespan: 1209600,
                allow_min_difficulty_blocks: false,
                no_pow_retargeting: false,
            },
            NetworkId::Testnet => Params {
                network: NetworkId::Testnet,
                legacy_feature_activation_time: 1333238400,
                height_activation_a: 21111,
                height_activation_b: 581885,
                height_activation_c: 330776,
                rule_change_activation_threshold: 1512,
                miner_confirmation_window: 2016,
                pow_limit: Uint256 {
                    w0: 0xffffffffffffffff,
                    w1: 0xffffffffffffffff,
                    w2: 0xffffffffffffffff,
                    w3: 0x00000000ffffffff,
                },
                pow_target_spacing: 600,
                pow_target_timespan: 1209600,
                allow_min_difficulty_blocks: true,
                no_pow_retargeting: false,
            },
            NetworkId::Regtest => Params {
                network: NetworkId::Regtest,
                legacy_feature_activation_time: 1333238400,
                height_activation_a: 100000000,
                height_activation_b: 1351,
                height_activation_c: 1251,
                rule_change_activation_threshold: 108,
                miner_confirmation_window: 144,
                pow_limit: Uint256 {
                    w0: 0xffffffffffffffff,
                    w1: 0xffffffffffffffff,
                    w2: 0xffffffffffffffff,
                    w3: 0x7fffffffffffffff,
                },
                pow_target_spacing: 600,
                pow_target_timespan: 1209600,
                allow_min_difficulty_blocks: true,
                no_pow_retargeting: true,
            },
            NetworkId::AltMainnet => Params {
                network: NetworkId::AltMainnet,
                legacy_feature_activation_time: 1333238400,
                height_activation_a: 1034383,
                height_activation_b: 3464751,
                height_activation_c: 1034383,
                rule_change_activation_threshold: 9576,
                miner_confirmation_window: 10080,
                pow_limit: Uint256 {
                    w0: 0xffffffffffffffff,
                    w1: 0xffffffffffffffff,
                    w2: 0xffffffffffffffff,
                    w3: 0x00000fffffffffff,
                },
                pow_target_spacing: 60,
                pow_target_timespan: 14400,
                allow_min_difficulty_blocks: false,
                no_pow_retargeting: false,
            },
            NetworkId::AltTestnet => Params {
                network: NetworkId::AltTestnet,
                legacy_feature_activation_time: 1333238400,
                height_activation_a: 708658,
                height_activation_b: 1854705,
                height_activation_c: 708658,
                rule_change_activation_threshold: 2880,
                miner_confirmation_window: 10080,
                pow_limit: Uint256 {
                    w0: 0xffffffffffffffff,
                    w1: 0xffffffffffffffff,
                    w2: 0xffffffffffffffff,
                    w3: 0x00000fffffffffff,
                },
                pow_target_spacing: 60,
                pow_target_timespan: 14400,
                allow_min_difficulty_blocks: true,
                no_pow_retargeting: false,
            },
        }
    }

    /// Calculates the number of blocks between difficulty adjustments:
    /// the retarget timespan divided by the target block spacing,
    /// truncating toward zero.
    pub fn difficulty_adjustment_interval(&self) -> (r: u64)
        requires
            self.pow_target_spacing != 0,
        ensures
            r == self.pow_target_timespan / self.pow_target_spacing,
    {
        self.pow_target_timespan / self.pow_target_spacing
    }
}

/// The registry is deterministic: any two records that meet `Params::new`'s
/// postcondition for the same network are equal, so repeated lookups of one
/// network always agree.
pub proof fn lemma_lookup_deterministic(a: Params, b: Params, network: NetworkId)
    requires
        a == spec_params(network),
        b == spec_params(network),
    ensures
        a == b,
{
}

/// Every record the registry defines satisfies the consensus invariants:
/// the signaling threshold never exceeds its window, and both retarget
/// times are strictly positive.
pub proof fn lemma_params_well_formed(network: NetworkId)
    ensures
        spec_params(network).well_formed(),
{
}

/// The derived difficulty-adjustment interval of every record: 2016 blocks
/// on all three networks of the primary chain family, 240 blocks on both
/// networks of the second family. (On the regression-test network the
/// count is computed but never used, since retargeting is disabled there.)
pub proof fn lemma_adjustment_interval_values(network: NetworkId)
    ensures
        spec_params(network).pow_target_timespan / spec_params(network).pow_target_spacing == (
        match network {
            NetworkId::Mainnet => 2016u64,
            NetworkId::Testnet => 2016u64,
            NetworkId::Regtest => 2016u64,
            NetworkId::AltMainnet => 240u64,
            NetworkId::AltTestnet => 240u64,
        }),
{
}

/// How the proof-of-work limits group: the primary chain's main and test
/// networks share one bitwise-identical limit, both networks of the second
/// family share another, and the primary, regression-test and second-family
/// limits are pairwise distinct.
pub proof fn lemma_pow_limit_grouping()
    ensures
        spec_params(NetworkId::Mainnet).pow_limit == spec_params(NetworkId::Testnet).pow_limit,
        spec_params(NetworkId::AltMainnet).pow_limit == spec_params(
            NetworkId::AltTestnet,
        ).pow_limit,
        spec_params(NetworkId::Mainnet).pow_limit != spec_params(NetworkId::AltMainnet).pow_limit,
        spec_params(NetworkId::Mainnet).pow_limit != spec_params(NetworkId::Regtest).pow_limit,
        spec_params(NetworkId::AltMainnet).pow_limit != spec_params(NetworkId::Regtest).pow_limit,
{
}

} // verus!
