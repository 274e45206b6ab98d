use vstd::prelude::*;

verus! {

/// A configuration that cannot start mining.
#[derive(PartialEq, Eq, Structural, Clone, Copy, Debug)]
pub enum ConfigError {
    /// The dynamic fee strategy names no supported provider.
    InvalidFeeStrategy,
    /// No keypair was given for the signer or for the fee payer.
    MissingSigner,
}

} // verus!
