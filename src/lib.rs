//! An escrow swap protocol: an initializer hands custody of a token account
//! to an address derived from the program's identity, and takers later
//! exchange native currency for the escrowed tokens at a fixed rate.
pub mod controller;
pub mod derive;
pub mod key;
pub mod state;

pub use controller::{create_pool, swap, CreatePool, Swap, SwapError};
pub use key::Pubkey;
pub use state::{Config, Pool, TokenAccount, Wallet};
