use vstd::prelude::*;
use crate::error::ConfigError;
use crate::fee::{FeeConfig, FeeStrategy, parse_strategy, strategy_for};
use vstd::utf8::encode_utf8;

verus! {

/// The two keypair files: the signer, and the fee payer, which may be the same.
pub struct Identity {
    pub signer_path: String,
    pub fee_payer_path: String,
}

/// What the miner is configured with, apart from its ledger connection.
pub struct MinerConfig {
    pub keypair_filepath: Option<String>,
    pub priority_fee: Option<u64>,
    pub dynamic_fee_url: Option<String>,
    pub dynamic_fee_strategy: Option<String>,
    pub dynamic_fee_max: Option<u64>,
    pub fee_payer_filepath: Option<String>,
}

impl MinerConfig {
    pub fn new(
        priority_fee: Option<u64>,
        keypair_filepath: Option<String>,
        dynamic_fee_url: Option<String>,
        dynamic_fee_strategy: Option<String>,
        dynamic_fee_max: Option<u64>,
        fee_payer_filepath: Option<String>,
    ) -> (r: MinerConfig)
        ensures
            r.keypair_filepath == keypair_filepath,
            r.priority_fee == priority_fee,
            r.dynamic_fee_url == dynamic_fee_url,
            r.dynamic_fee_strategy == dynamic_fee_strategy,
            r.dynamic_fee_max == dynamic_fee_max,
            r.fee_payer_filepath == fee_payer_filepath,
    {
        MinerConfig {
            keypair_filepath,
            priority_fee,
            dynamic_fee_url,
            dynamic_fee_strategy,
            dynamic_fee_max,
            fee_payer_filepath,
        }
    }

    /// The keypair files to load, checked before mining starts: both the
    /// signer and the fee payer must be given (they may name the same file),
    /// and a missing one is an error.
    pub fn identity(&self) -> (r: Result<Identity, ConfigError>)
        ensures
            match (self.keypair_filepath, self.fee_payer_filepath) {
                (Some(k), Some(f)) => r is Ok && r->Ok_0.signer_path@ == k@
                    && r->Ok_0.fee_payer_path@ == f@,
                _ => r == Err::<Identity, ConfigError>(ConfigError::MissingSigner),
            },
    {
        match (&self.keypair_filepath, &self.fee_payer_filepath) {
            (Some(k), Some(f)) => Ok(Identity { signer_path: k.clone(), fee_payer_path: f.clone() }),
            _ => Err(ConfigError::MissingSigner),
        }
    }

    /// The fee settings, checked before mining starts. The static fee defaults
    /// to zero and the ceiling to none; with a provider URL the strategy must
    /// name a supported provider.
    pub fn fee_config(&self) -> (r: Result<FeeConfig, ConfigError>)
        ensures
            r == fee_config_for(
                self.dynamic_fee_url is Some,
                match self.dynamic_fee_strategy {
                    Some(n) => Some(n@),
                    None => None,
                },
                self.priority_fee,
                self.dynamic_fee_max,
            ),
    {
        let chosen = match &self.dynamic_fee_url {
            None => Ok(FeeStrategy::Static),
            Some(_) => match &self.dynamic_fee_strategy {
                Some(n) => parse_strategy(true, n.as_str()),
                None => Err(ConfigError::InvalidFeeStrategy),
            },
        };
        match chosen {
            Err(e) => Err(e),
            Ok(strategy) => {
                let static_fee = match self.priority_fee {
                    Some(f) => f,
                    None => 0,
                };
                let max_fee = match self.dynamic_fee_max {
                    Some(m) => m,
                    None => u64::MAX,
                };
                Ok(FeeConfig { strategy, static_fee, max_fee })
            },
        }
    }
}

/// The fee settings that a configuration gives, or why it is refused.
pub open spec fn fee_config_for(
    has_url: bool,
    strategy_name: Option<Seq<char>>,
    priority_fee: Option<u64>,
    fee_max: Option<u64>,
) -> Result<FeeConfig, ConfigError> {
    let chosen = if !has_url {
        Some(FeeStrategy::Static)
    } else {
        match strategy_name {
            Some(n) => strategy_for(true, encode_utf8(n)),
            None => None,
        }
    };
    match chosen {
        Some(strategy) => Ok(
            FeeConfig {
                strategy,
                static_fee: match priority_fee {
                    Some(f) => f,
                    None => 0,
                },
                max_fee: match fee_max {
                    Some(m) => m,
                    None => u64::MAX,
                },
            },
        ),
        None => Err(ConfigError::InvalidFeeStrategy),
    }
}

} // verus!
