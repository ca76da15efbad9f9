//! Durable records and the ledger accounts that the protocol reads and moves.
use vstd::prelude::*;

use crate::key::Pubkey;

verus! {

/// Token units released per unit of native currency in a pool made with the
/// default configuration.
pub const POOL_RATE: u8 = 10;

/// Bytes of a pool record on the ledger: an 8-byte header, two identities
/// and the rate.
pub const POOL_SPACE: usize = 8 + 32 + 32 + 1;

/// The record of one escrow pool.
#[derive(Clone, Copy, Debug)]
pub struct Pool {
    /// Receives the native-currency payment of every swap.
    pub initializer: Pubkey,
    /// The token account held in custody.
    pub token_account: Pubkey,
    /// Token units released per unit of native currency.
    pub rate: u8,
}

impl Pool {
    /// The number of tokens that a payment of `amount` releases, `amount`
    /// times the rate; `None` where that exceeds the range of a balance.
    pub fn release_for(&self, amount: u64) -> (r: Option<u64>)
        ensures
            r is Some <==> amount as int * self.rate as int <= u64::MAX,
            r matches Some(v) ==> v == amount as int * self.rate as int,
    {
        amount.checked_mul(self.rate as u64)
    }
}

/// A native-currency holder.
#[derive(Clone, Copy, Debug)]
pub struct Wallet {
    pub key: Pubkey,
    pub lamports: u64,
}

/// A token account: its identity, the asset it holds, the principal whose
/// signature moves it, and its balance.
#[derive(Clone, Copy, Debug)]
pub struct TokenAccount {
    pub key: Pubkey,
    pub mint: Pubkey,
    pub owner: Pubkey,
    pub amount: u64,
}

/// What a controller instance is made of: its own identity, the seed from
/// which it derives the custody authority, and the rate of the pools it
/// creates.
#[derive(Debug)]
pub struct Config {
    pub program_id: Pubkey,
    pub seed: Vec<u8>,
    pub rate: u8,
}

/// The seed of the default configuration, the bytes of "swap".
pub open spec fn default_seed() -> Seq<u8> {
    seq![115u8, 119u8, 97u8, 112u8]
}

impl Config {
    /// A pool releases a positive number of token units per unit paid.
    pub open spec fn wf(&self) -> bool {
        self.rate > 0
    }

    /// The default configuration of the controller with identity
    /// `program_id`: the seed "swap" and the rate `POOL_RATE`.
    pub fn new(program_id: Pubkey) -> (r: Config)
        ensures
            r.wf(),
            r.program_id == program_id,
            r.seed@ == default_seed(),
            r.rate == POOL_RATE,
    {
        let seed: Vec<u8> = vec![115u8, 119u8, 97u8, 112u8];
        assert(seed@ =~= default_seed());
        Config { program_id, seed, rate: POOL_RATE }
    }

    /// A configuration with the given seed and rate; `None` for a rate of 0.
    pub fn with_seed_and_rate(program_id: Pubkey, seed: Vec<u8>, rate: u8) -> (r: Option<Config>)
        ensures
            r is Some <==> rate > 0,
            r matches Some(c) ==> c.wf() && c.program_id == program_id && c.seed@ == seed@
                && c.rate == rate,
    {
        if rate == 0 {
            None
        } else {
            Some(Config { program_id, seed, rate })
        }
    }
}

} // verus!
