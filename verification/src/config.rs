use vstd::prelude::*;

use crate::errors::EngineError;

verus! {

/// Externally supplied process configuration, as plain values.
///
/// The surrounding process parses these from its command line or environment
/// and hands them over; the engine itself reads only `confirming_blocks`,
/// `wallet_address` and the store/JWT fields stay with the collaborators.
pub struct Args {
    pub surrealdb_address: String,
    pub surrealdb_username: String,
    pub surrealdb_password: String,
    pub surrealdb_namespace: String,
    pub surrealdb_database: String,
    pub jwt_secret: String,
    pub alchemy_rpc_url: String,
    pub confirming_blocks: u64,
    pub wallet_address: String,
    pub private_key: String,
    pub token_address: String,
}

/// Seconds between two confirmation polls.
pub const DEFAULT_POLLING_INTERVAL_SECS: u64 = 20;

/// How many consumed polling attempts a confirmation may use.
pub const DEFAULT_MAX_ATTEMPTS: u32 = 15;

/// Divisor from chain-native token units down to ledger minor units.
pub const DEFAULT_UNIT_SCALING: u128 = 1_000_000_000_000;

/// Seconds until a pending transaction expires.
pub const DEFAULT_EXPIRY_WINDOW_SECS: u64 = 300;

/// The engine's tunable constants: confirmation depth, polling budget, unit
/// scaling and transaction expiry.  All of them are externally supplied, none
/// is hardcoded in the core logic.
#[derive(Clone, Copy)]
pub struct EngineConfig {
    confirmation_threshold: u64,
    polling_interval_secs: u64,
    max_attempts: u32,
    unit_scaling: u128,
    expiry_window_secs: u64,
}

impl EngineConfig {
    /// A polling budget of zero could never confirm and a scaling divisor of
    /// zero has no meaning, so both stay out by construction.
    #[verifier::type_invariant]
    pub closed spec fn wf(self) -> bool {
        self.max_attempts >= 1 && self.unit_scaling >= 1
    }

    pub closed spec fn spec_confirmation_threshold(self) -> u64 {
        self.confirmation_threshold
    }

    pub closed spec fn spec_polling_interval_secs(self) -> u64 {
        self.polling_interval_secs
    }

    pub closed spec fn spec_max_attempts(self) -> u32 {
        self.max_attempts
    }

    pub closed spec fn spec_unit_scaling(self) -> u128 {
        self.unit_scaling
    }

    pub closed spec fn spec_expiry_window_secs(self) -> u64 {
        self.expiry_window_secs
    }

    /// Validates and assembles a configuration; a zero attempt budget or a
    /// zero scaling divisor is rejected.
    pub fn new(
        confirmation_threshold: u64,
        polling_interval_secs: u64,
        max_attempts: u32,
        unit_scaling: u128,
        expiry_window_secs: u64,
    ) -> (r: Result<EngineConfig, EngineError>)
        ensures
            r is Ok <==> (max_attempts >= 1 && unit_scaling >= 1),
            r matches Ok(c) ==> {
                &&& c.spec_confirmation_threshold() == confirmation_threshold
                &&& c.spec_polling_interval_secs() == polling_interval_secs
                &&& c.spec_max_attempts() == max_attempts
                &&& c.spec_unit_scaling() == unit_scaling
                &&& c.spec_expiry_window_secs() == expiry_window_secs
            },
            r matches Err(e) ==> e == EngineError::Validation,
    {
        if max_attempts == 0 || unit_scaling == 0 {
            Err(EngineError::Validation)
        } else {
            Ok(EngineConfig {
                confirmation_threshold,
                polling_interval_secs,
                max_attempts,
                unit_scaling,
                expiry_window_secs,
            })
        }
    }

    pub fn confirmation_threshold(&self) -> (r: u64)
        ensures
            r == self.spec_confirmation_threshold(),
    {
        self.confirmation_threshold
    }

    pub fn polling_interval_secs(&self) -> (r: u64)
        ensures
            r == self.spec_polling_interval_secs(),
    {
        self.polling_interval_secs
    }

    pub fn max_attempts(&self) -> (r: u32)
        ensures
            r == self.spec_max_attempts(),
            r >= 1,
    {
        proof {
            use_type_invariant(self);
        }
        self.max_attempts
    }

    pub fn unit_scaling(&self) -> (r: u128)
        ensures
            r == self.spec_unit_scaling(),
            r >= 1,
    {
        proof {
            use_type_invariant(self);
        }
        self.unit_scaling
    }

    pub fn expiry_window_secs(&self) -> (r: u64)
        ensures
            r == self.spec_expiry_window_secs(),
    {
        self.expiry_window_secs
    }
}

} // verus!
