//! How large the scenario is: how many validators, cores, candidates and statements it has.

use vstd::prelude::*;

verus! {

/// The part of the host configuration that the scenario reads.
#[derive(Clone, Copy, Debug, PartialEq, Eq, Structural)]
pub struct HostConfiguration {
    pub max_validators: Option<u32>,
    pub max_validators_per_core: Option<u32>,
    pub max_pov_size: u32,
    pub dispute_max_spam_slots: u32,
}

/// The number of validators where the configuration sets no limit.
pub const DEFAULT_MAX_VALIDATORS: u32 = 200;

/// The number of validators on a core where the configuration sets no limit.
pub const DEFAULT_VALIDATORS_PER_CORE: u32 = 5;

/// How many cores are kept clear below the first one with a concluding candidate.
pub const CONCLUDING: u32 = 5;

/// How many candidates are backed; as many conclude, so that each backed one finds a free core.
pub const BACKED: u32 = 1;

impl HostConfiguration {
    /// The number of validators in the scenario.
    pub open spec fn validators(self) -> u32 {
        match self.max_validators {
            Some(n) => n,
            None => DEFAULT_MAX_VALIDATORS,
        }
    }

    /// The number of validators on each core.
    pub open spec fn validators_per_core(self) -> u32 {
        match self.max_validators_per_core {
            Some(n) => n,
            None => DEFAULT_VALIDATORS_PER_CORE,
        }
    }

    /// There are validators on each core, and enough cores for the candidates that conclude and
    /// those that are backed.
    pub open spec fn supports_scenario(self) -> bool {
        &&& self.validators_per_core() > 0
        &&& self.validators() / self.validators_per_core() >= CONCLUDING + BACKED
    }

    /// Whether the scenario can be built under this configuration.
    pub fn is_supported(&self) -> (res: bool)
        ensures
            res == self.supports_scenario(),
            res <==> ({
                let validators: int = match self.max_validators {
                    Some(n) => n as int,
                    None => 200,
                };
                let per_core: int = match self.max_validators_per_core {
                    Some(n) => n as int,
                    None => 5,
                };
                per_core > 0 && validators >= 6 * per_core
            }),
    {
        proof {
            law_support_needs_six_cores(*self);
        }
        let validators: u32 = self.max_validators.unwrap_or(DEFAULT_MAX_VALIDATORS);
        let per_core: u32 = self.max_validators_per_core.unwrap_or(DEFAULT_VALIDATORS_PER_CORE);
        per_core > 0 && validators / per_core >= CONCLUDING + BACKED
    }
}

/// The sizes of the scenario.
#[derive(Clone, Copy, Debug, PartialEq, Eq, Structural)]
pub struct BenchmarkSizes {
    pub max_validators: u32,
    pub max_cores: u32,
    /// One candidate on each core.
    pub max_candidates: u32,
    /// One statement of each validator.
    pub max_statements: u32,
    /// With no more statements than this a dispute counts as potential spam.
    pub byzantine_statement_thresh: u32,
    /// The first core with a concluding candidate.
    pub concluding: u32,
    /// How many candidates are backed, and how many conclude.
    pub backed: u32,
    /// How many candidates are disputed.
    pub disputed: u32,
}

impl BenchmarkSizes {
    /// The sizes fit together, and every backed candidate has a free core.
    pub open spec fn wf(self) -> bool {
        &&& self.max_candidates == self.max_cores
        &&& self.max_cores <= self.max_validators
        &&& self.max_statements == self.max_validators
        &&& self.byzantine_statement_thresh == self.max_statements / 3
        &&& self.concluding >= self.backed
        &&& self.concluding + self.backed + self.disputed == self.max_candidates
    }

    /// These are the sizes under a configuration.
    pub open spec fn fit(self, config: HostConfiguration) -> bool {
        &&& self.wf()
        &&& self.max_validators == config.validators()
        &&& self.max_cores == config.validators() / config.validators_per_core()
        &&& self.concluding == CONCLUDING
        &&& self.backed == BACKED
    }

    /// The sizes under a configuration.
    pub fn new(config: &HostConfiguration) -> (res: BenchmarkSizes)
        requires
            config.supports_scenario(),
        ensures
            res.fit(*config),
            res.max_validators == match config.max_validators {
                Some(n) => n,
                None => 200,
            },
            ({
                let per_core: int = match config.max_validators_per_core {
                    Some(n) => n as int,
                    None => 5,
                };
                per_core * res.max_cores <= res.max_validators < per_core * (res.max_cores + 1)
            }),
            res.max_candidates == res.max_cores,
            res.max_statements == res.max_validators,
            3 * res.byzantine_statement_thresh <= res.max_validators < 3
                * res.byzantine_statement_thresh + 3,
            res.concluding == 5,
            res.backed == 1,
            res.disputed == res.max_cores - 6,
    {
        let max_validators: u32 = config.max_validators.unwrap_or(DEFAULT_MAX_VALIDATORS);
        let validators_per_core: u32 = config.max_validators_per_core.unwrap_or(
            DEFAULT_VALIDATORS_PER_CORE,
        );
        let max_cores: u32 = max_validators / validators_per_core;
        assert(max_validators / validators_per_core <= max_validators) by (nonlinear_arith)
            requires
                validators_per_core > 0,
        ;
        let sizes = BenchmarkSizes {
            max_validators,
            max_cores,
            max_candidates: max_cores,
            max_statements: max_validators,
            byzantine_statement_thresh: max_validators / 3,
            concluding: CONCLUDING,
            backed: BACKED,
            disputed: max_cores - CONCLUDING - BACKED,
        };
        proof {
            law_sizes_are_those_of_the_configuration(*config, sizes);
        }
        sizes
    }

    /// The first candidate that is disputed.
    pub open spec fn first_disputed(self) -> int {
        self.concluding + self.backed
    }
}

/// A configuration is supported exactly where there are validators for six cores; without a
/// limit there are 200 validators, five on each core.
pub proof fn law_support_needs_six_cores(config: HostConfiguration)
    ensures
        config.supports_scenario() <==> ({
            let validators: int = match config.max_validators {
                Some(n) => n as int,
                None => 200,
            };
            let per_core: int = match config.max_validators_per_core {
                Some(n) => n as int,
                None => 5,
            };
            per_core > 0 && validators >= 6 * per_core
        }),
{
    let validators: int = match config.max_validators {
        Some(n) => n as int,
        None => 200,
    };
    let per_core: int = match config.max_validators_per_core {
        Some(n) => n as int,
        None => 5,
    };
    if per_core > 0 {
        assert(validators / per_core >= 6 <==> validators >= 6 * per_core) by (nonlinear_arith)
            requires
                validators >= 0,
                per_core > 0,
        ;
    }
}

/// The sizes in numbers of the configuration: as many cores as the validators fill, a candidate on
/// each core, a third of the validators as the threshold, one concluding candidate on core five
/// and every candidate after it disputed.
pub proof fn law_sizes_are_those_of_the_configuration(
    config: HostConfiguration,
    sizes: BenchmarkSizes,
)
    requires
        config.supports_scenario(),
        sizes.fit(config),
    ensures
        sizes.max_validators == match config.max_validators {
            Some(n) => n,
            None => 200,
        },
        ({
            let per_core: int = match config.max_validators_per_core {
                Some(n) => n as int,
                None => 5,
            };
            per_core * sizes.max_cores <= sizes.max_validators < per_core * (sizes.max_cores + 1)
        }),
        sizes.max_cores >= 6,
        sizes.max_candidates == sizes.max_cores,
        sizes.max_statements == sizes.max_validators,
        3 * sizes.byzantine_statement_thresh <= sizes.max_validators < 3
            * sizes.byzantine_statement_thresh + 3,
        sizes.concluding == 5,
        sizes.backed == 1,
        sizes.disputed == sizes.max_cores - 6,
{
    let per_core: int = match config.max_validators_per_core {
        Some(n) => n as int,
        None => 5,
    };
    let validators = sizes.max_validators as int;
    let cores = sizes.max_cores as int;
    assert(cores == validators / per_core);
    assert(per_core * cores <= validators < per_core * (cores + 1)) by (nonlinear_arith)
        requires
            validators >= 0,
            per_core > 0,
            cores == validators / per_core,
    ;
}

/// Every core holds one candidate, which stays below the concluding ones, concludes or is
/// disputed: the three ranges follow one another and cover the cores.
pub proof fn law_every_core_has_one_role(sizes: BenchmarkSizes, core: int)
    requires
        sizes.wf(),
    ensures
        0 <= core < sizes.max_cores <==> {
            ||| 0 <= core < sizes.concluding
            ||| sizes.concluding <= core < sizes.first_disputed()
            ||| sizes.first_disputed() <= core < sizes.first_disputed() + sizes.disputed
        },
        sizes.first_disputed() + sizes.disputed == sizes.max_candidates,
{
}

/// The byzantine threshold is the largest number of statements of which three times as many
/// still come from the validators; all validators together are above it.
pub proof fn law_byzantine_threshold(sizes: BenchmarkSizes)
    requires
        sizes.wf(),
        sizes.max_validators > 0,
    ensures
        3 * sizes.byzantine_statement_thresh <= sizes.max_validators,
        sizes.max_validators < 3 * (sizes.byzantine_statement_thresh + 1),
        sizes.byzantine_statement_thresh < sizes.max_statements,
{
}

} // verus!
