//! The pool lifecycle: creating a pool hands custody of a token account to
//! the derived authority; a swap moves native currency from the taker to the
//! initializer and tokens from custody to the taker, both or neither.
use vstd::prelude::*;

use crate::derive::{find_custody_address, program_address};
use crate::key::Pubkey;
use crate::state::{Config, Pool, TokenAccount, Wallet};

verus! {

/// Why an operation was refused. Every refusal leaves all accounts as they
/// were.
#[derive(Clone, Copy, Debug, PartialEq, Eq, Structural)]
pub enum SwapError {
    /// A pool record already exists at the storage location.
    AlreadyInitialized,
    /// The signer or the receiving wallet is not the principal that
    /// currently controls the deposit account.
    InitializerMismatch,
    /// The accounts supplied are not the ones the pool was created with, or
    /// one account is supplied in two roles.
    ConstraintViolation,
    /// The taker holds less native currency than the payment.
    InsufficientFunds,
    /// The deposit account holds fewer tokens than the swap releases.
    InsufficientEscrow,
    /// The deposit account, or the authority supplied to sign for it, is not
    /// the custody authority.
    AuthorityMismatch,
    /// The taker's receiving account holds another asset.
    MintMismatch,
    /// A credited balance would exceed its numeric range.
    Overflow,
    /// No custody authority can be derived from the seed.
    DerivationFailed,
}

/// The accounts of a pool creation.
#[derive(Clone, Copy, Debug)]
pub struct CreatePool {
    /// The record at the pool's storage location; `None` while unallocated.
    pub pool: Option<Pool>,
    /// The token account to be placed in custody.
    pub initializer_deposit_token_account: TokenAccount,
    /// The identity that receives every payment.
    pub initializer_receive_wallet_account: Pubkey,
    /// The principal that signs the creation.
    pub signer: Pubkey,
}

/// The accounts of a swap.
#[derive(Clone, Copy, Debug)]
pub struct Swap {
    /// The pool's record.
    pub pool: Pool,
    /// Where the taker receives tokens.
    pub taker_receive_token_account: TokenAccount,
    /// The token account held in custody.
    pub pda_deposit_token_account: TokenAccount,
    /// The authority that signs the release of tokens.
    pub pda_account: Pubkey,
    /// The initializer's wallet, paid by the taker.
    pub initializer_receive_wallet_account: Wallet,
    /// The taker, who signs and pays.
    pub signer: Wallet,
}

/// An operation's result given the refusal, if any.
pub open spec fn outcome(e: Option<SwapError>) -> Result<(), SwapError> {
    match e {
        Some(e) => Err(e),
        None => Ok(()),
    }
}

/// The custody authority's address under `config`, if one can be derived.
pub open spec fn custody_of(config: &Config) -> Option<Seq<u8>> {
    match program_address(config.seed@, config.program_id@) {
        Some((a, _)) => Some(a),
        None => None,
    }
}

/// The refusal, if any, of a pool creation over `ctx`.
pub open spec fn create_pool_error(ctx: CreatePool) -> Option<SwapError> {
    let owner = ctx.initializer_deposit_token_account.owner@;
    if ctx.pool is Some {
        Some(SwapError::AlreadyInitialized)
    } else if ctx.signer@ != owner || ctx.initializer_receive_wallet_account@ != owner {
        Some(SwapError::InitializerMismatch)
    } else {
        None
    }
}

/// `after` is `before` with a pool record of rate `rate` allocated and the
/// deposit account handed to the authority `custody`.
pub open spec fn pool_created(rate: u8, custody: Seq<u8>, before: CreatePool, after: CreatePool) -> bool {
    let d0 = before.initializer_deposit_token_account;
    let d1 = after.initializer_deposit_token_account;
    &&& after.pool == Some(
        Pool {
            initializer: before.initializer_receive_wallet_account,
            token_account: d0.key,
            rate,
        },
    )
    &&& d1.owner@ == custody
    &&& d1.key == d0.key && d1.mint == d0.mint && d1.amount == d0.amount
    &&& after.initializer_receive_wallet_account == before.initializer_receive_wallet_account
    &&& after.signer == before.signer
}

/// The number of tokens that a payment of `amount` releases from `pool`.
pub open spec fn released(pool: Pool, amount: u64) -> int {
    amount as int * pool.rate as int
}

/// The refusal, if any, of a swap of `amount` over `ctx` when the custody
/// authority is `custody`.
pub open spec fn swap_error(custody: Seq<u8>, ctx: Swap, amount: u64) -> Option<SwapError> {
    let deposit = ctx.pda_deposit_token_account;
    let taker = ctx.taker_receive_token_account;
    let payee = ctx.initializer_receive_wallet_account;
    let asset = released(ctx.pool, amount);
    if amount > ctx.signer.lamports {
        Some(SwapError::InsufficientFunds)
    } else if ctx.pool.initializer@ != payee.key@ || ctx.pool.token_account@ != deposit.key@ {
        Some(SwapError::ConstraintViolation)
    } else if ctx.signer.key@ == payee.key@ || taker.key@ == deposit.key@ {
        Some(SwapError::ConstraintViolation)
    } else if deposit.owner@ != custody || ctx.pda_account@ != custody {
        Some(SwapError::AuthorityMismatch)
    } else if taker.mint@ != deposit.mint@ {
        Some(SwapError::MintMismatch)
    } else if asset > deposit.amount {
        Some(SwapError::InsufficientEscrow)
    } else if payee.lamports + amount > u64::MAX || taker.amount + asset > u64::MAX {
        Some(SwapError::Overflow)
    } else {
        None
    }
}

/// The initializer's wallet and the deposit account supplied to a swap are
/// the ones recorded in its pool.
pub open spec fn bound_to_pool(ctx: Swap) -> bool {
    &&& ctx.pool.initializer@ == ctx.initializer_receive_wallet_account.key@
    &&& ctx.pool.token_account@ == ctx.pda_deposit_token_account.key@
}

/// Every check of a swap that precedes the escrow balance passes.
pub open spec fn swap_accepted(custody: Seq<u8>, ctx: Swap, amount: u64) -> bool {
    &&& amount <= ctx.signer.lamports
    &&& bound_to_pool(ctx)
    &&& ctx.signer.key@ != ctx.initializer_receive_wallet_account.key@
    &&& ctx.taker_receive_token_account.key@ != ctx.pda_deposit_token_account.key@
    &&& ctx.pda_deposit_token_account.owner@ == custody && ctx.pda_account@ == custody
    &&& ctx.taker_receive_token_account.mint@ == ctx.pda_deposit_token_account.mint@
}

/// `after` is `before` with `delta` added to the balance.
pub open spec fn wallet_moved(before: Wallet, after: Wallet, delta: int) -> bool {
    after.key == before.key && after.lamports == before.lamports + delta
}

/// `after` is `before` with `delta` added to the balance.
pub open spec fn tokens_moved(before: TokenAccount, after: TokenAccount, delta: int) -> bool {
    &&& after.key == before.key && after.mint == before.mint && after.owner == before.owner
    &&& after.amount == before.amount + delta
}

/// `after` is `before` with both legs of a swap of `amount` done.
pub open spec fn swapped(before: Swap, after: Swap, amount: u64) -> bool {
    let asset = released(before.pool, amount);
    &&& wallet_moved(before.signer, after.signer, -amount)
    &&& wallet_moved(
        before.initializer_receive_wallet_account,
        after.initializer_receive_wallet_account,
        amount as int,
    )
    &&& tokens_moved(before.pda_deposit_token_account, after.pda_deposit_token_account, -asset)
    &&& tokens_moved(before.taker_receive_token_account, after.taker_receive_token_account, asset)
    &&& after.pool == before.pool
    &&& after.pda_account == before.pda_account
}

/// Creates the pool over `ctx` with the custody authority `custody`: writes
/// the record and hands the deposit account to `custody`, or changes nothing.
pub fn create_pool_with_custody(config: &Config, custody: &Pubkey, ctx: &mut CreatePool) -> (r: Result<(), SwapError>)
    ensures
        r == outcome(create_pool_error(*old(ctx))),
        r is Ok ==> pool_created(config.rate, custody@, *old(ctx), *final(ctx)),
        r is Err ==> *final(ctx) == *old(ctx),
{
    if ctx.pool.is_some() {
        return Err(SwapError::AlreadyInitialized);
    }
    let owner = ctx.initializer_deposit_token_account.owner;
    if !(ctx.signer == owner) || !(ctx.initializer_receive_wallet_account == owner) {
        return Err(SwapError::InitializerMismatch);
    }
    ctx.pool = Some(
        Pool {
            initializer: ctx.initializer_receive_wallet_account,
            token_account: ctx.initializer_deposit_token_account.key,
            rate: config.rate,
        },
    );
    ctx.initializer_deposit_token_account.owner = *custody;
    Ok(())
}

/// Creates a pool: derives the custody authority from `config`, writes the
/// pool record and hands the deposit account to that authority, all or
/// nothing.
pub fn create_pool(config: &Config, ctx: &mut CreatePool) -> (r: Result<(), SwapError>)
    requires
        config.wf(),
    ensures
        custody_of(config) is None ==> r == Err::<(), SwapError>(SwapError::DerivationFailed),
        custody_of(config) is Some ==> r == outcome(create_pool_error(*old(ctx))),
        r is Ok ==> pool_created(config.rate, custody_of(config)->Some_0, *old(ctx), *final(ctx)),
        r is Ok ==> (final(ctx).pool matches Some(p) && p.rate > 0),
        r is Err ==> *final(ctx) == *old(ctx),
{
    match find_custody_address(&config.seed, &config.program_id) {
        Some((custody, _)) => create_pool_with_custody(config, &custody, ctx),
        None => Err(SwapError::DerivationFailed),
    }
}

/// Swaps `amount` of native currency for `amount * rate` tokens over `ctx`
/// with the custody authority `custody`: both transfers, or none.
pub fn swap_with_custody(custody: &Pubkey, ctx: &mut Swap, amount: u64) -> (r: Result<(), SwapError>)
    ensures
        r == outcome(swap_error(custody@, *old(ctx), amount)),
        r is Ok ==> swapped(*old(ctx), *final(ctx), amount),
        r is Err ==> *final(ctx) == *old(ctx),
{
    if amount > ctx.signer.lamports {
        return Err(SwapError::InsufficientFunds);
    }
    if !(ctx.pool.initializer == ctx.initializer_receive_wallet_account.key)
        || !(ctx.pool.token_account == ctx.pda_deposit_token_account.key) {
        return Err(SwapError::ConstraintViolation);
    }
    if ctx.signer.key == ctx.initializer_receive_wallet_account.key
        || ctx.taker_receive_token_account.key == ctx.pda_deposit_token_account.key {
        return Err(SwapError::ConstraintViolation);
    }
    if !(ctx.pda_deposit_token_account.owner == *custody) || !(ctx.pda_account == *custody) {
        return Err(SwapError::AuthorityMismatch);
    }
    if !(ctx.taker_receive_token_account.mint == ctx.pda_deposit_token_account.mint) {
        return Err(SwapError::MintMismatch);
    }
    let asset = match ctx.pool.release_for(amount) {
        Some(a) => a,
        None => {
            return Err(SwapError::InsufficientEscrow);
        },
    };
    if asset > ctx.pda_deposit_token_account.amount {
        return Err(SwapError::InsufficientEscrow);
    }
    let paid = match ctx.initializer_receive_wallet_account.lamports.checked_add(amount) {
        Some(v) => v,
        None => {
            return Err(SwapError::Overflow);
        },
    };
    let received = match ctx.taker_receive_token_account.amount.checked_add(asset) {
        Some(v) => v,
        None => {
            return Err(SwapError::Overflow);
        },
    };
    ctx.signer.lamports = ctx.signer.lamports - amount;
    ctx.initializer_receive_wallet_account.lamports = paid;
    ctx.pda_deposit_token_account.amount = ctx.pda_deposit_token_account.amount - asset;
    ctx.taker_receive_token_account.amount = received;
    Ok(())
}

/// Swaps `amount` of native currency for `amount * rate` tokens: the taker
/// pays the initializer and the custody authority, derived from `config`,
/// releases the tokens to the taker; both transfers, or none.
pub fn swap(config: &Config, ctx: &mut Swap, amount: u64) -> (r: Result<(), SwapError>)
    ensures
        custody_of(config) is None ==> r == Err::<(), SwapError>(SwapError::DerivationFailed),
        custody_of(config) matches Some(c) ==> r == outcome(swap_error(c, *old(ctx), amount)),
        r is Ok ==> swapped(*old(ctx), *final(ctx), amount),
        r is Err ==> *final(ctx) == *old(ctx),
        released(old(ctx).pool, amount) > old(ctx).pda_deposit_token_account.amount ==> r is Err,
        custody_of(config) matches Some(c) ==> (swap_accepted(c, *old(ctx), amount)
            && released(old(ctx).pool, amount) > old(ctx).pda_deposit_token_account.amount
            ==> r == Err::<(), SwapError>(SwapError::InsufficientEscrow)),
        !bound_to_pool(*old(ctx)) ==> r is Err,
        custody_of(config) is Some && amount <= old(ctx).signer.lamports && !bound_to_pool(*old(ctx))
            ==> r == Err::<(), SwapError>(SwapError::ConstraintViolation),
{
    match find_custody_address(&config.seed, &config.program_id) {
        Some((custody, _)) => swap_with_custody(&custody, ctx, amount),
        None => Err(SwapError::DerivationFailed),
    }
}

/// Creating a pool is not idempotent: once a creation has succeeded, a
/// second creation over the resulting accounts is refused as a duplicate,
/// and, being refused, leaves the first record as it is.
pub proof fn lemma_create_pool_twice(rate: u8, custody: Seq<u8>, first: CreatePool, second: CreatePool)
    requires
        create_pool_error(first) is None,
        pool_created(rate, custody, first, second),
    ensures
        create_pool_error(second) == Some(SwapError::AlreadyInitialized),
{
}

/// Two swaps on one pool that would jointly release more tokens than its
/// escrow holds never both succeed: after the first has succeeded, the
/// second is refused.
pub proof fn lemma_no_joint_overdraw(custody: Seq<u8>, s0: Swap, s1: Swap, first: u64, second: u64)
    requires
        swap_error(custody, s0, first) is None,
        swapped(s0, s1, first),
        released(s0.pool, first) + released(s0.pool, second) > s0.pda_deposit_token_account.amount,
    ensures
        swap_error(custody, s1, second) is Some,
        swap_accepted(custody, s1, second) ==> swap_error(custody, s1, second) == Some(
            SwapError::InsufficientEscrow,
        ),
{
}

} // verus!
