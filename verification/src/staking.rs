//! The stake record, the account sets of the three operations, and the
//! operations themselves.

use vstd::prelude::*;
use crate::address::{
    authorize, authorizes, bytes_of, derive_address, derived, owner_view, signer_seeds, Address,
    SignerSeeds,
};
use crate::constants::{STAKE_INFO_SEED, TOKEN_SEED, VAULT_SEED};
use crate::error::{ErrorCode, StakingError};
use crate::token::{
    base_units, move_tokens, scales, to_base_units, transfer_outcome, Mint, TokenAccount,
};

verus! {

/// Bytes that the runtime keeps in front of a stored record to tell its type.
pub const DISCRIMINATOR_LEN: usize = 8;

/// Bytes that a stake record takes: a 64-bit slot and a flag, padded to eight bytes.
pub const STAKE_INFO_LEN: usize = 16;

/// Bytes that the account of a stake record is created with, and keeps.
pub const STAKE_INFO_SPACE: usize = DISCRIMINATOR_LEN + STAKE_INFO_LEN;

/// The stake record of one user.
///
/// While `is_staked` holds, `stake_at_slot` is the slot at which the lock began;
/// otherwise it is the slot at which the last lock was released.
#[derive(Clone, Copy, Debug, PartialEq, Eq, Structural)]
pub struct StakeInfoAccount {
    pub stake_at_slot: u64,
    pub is_staked: bool,
}

/// The bump of each derived account of `Initialize`.
#[derive(Clone, Copy, Debug, PartialEq, Eq, Structural)]
pub struct InitializeBumps {
    pub token_vault_account: u8,
}

/// The bump of each derived account of `Stake`.
#[derive(Clone, Copy, Debug, PartialEq, Eq, Structural)]
pub struct StakeBumps {
    pub stake_info_account: u8,
    pub stake_account: u8,
}

/// The bump of each derived account of `DeStake`.
#[derive(Clone, Copy, Debug, PartialEq, Eq, Structural)]
pub struct DeStakeBumps {
    pub token_vault_account: u8,
    pub stake_info_account: u8,
    pub stake_account: u8,
}

/// The accounts of `initialize`.
#[derive(Clone, Copy, Debug, PartialEq, Eq)]
pub struct Initialize {
    pub program_id: Address,
    pub token_vault_account: TokenAccount,
    pub signer: Address,
    pub mint: Mint,
    pub bumps: InitializeBumps,
}

/// The accounts of `stake`: the user's stake record with its address, the
/// user's holding account, the user's own token account, the user, the mint, and
/// the bumps that the caller says the derived accounts have.
#[derive(Clone, Copy, Debug, PartialEq, Eq)]
pub struct Stake {
    pub program_id: Address,
    pub stake_info_key: Address,
    pub stake_info_account: StakeInfoAccount,
    pub stake_account: TokenAccount,
    pub user_token_account: TokenAccount,
    pub signer: Address,
    pub mint: Mint,
    pub bumps: StakeBumps,
}

/// The accounts of `destake`: the reward vault, the user's stake record with its
/// address, the user's holding account, the user's own token account, the user,
/// the mint, and the bumps that the caller says the derived accounts have.
#[derive(Clone, Copy, Debug, PartialEq, Eq)]
pub struct DeStake {
    pub program_id: Address,
    pub token_vault_account: TokenAccount,
    pub stake_info_key: Address,
    pub stake_info_account: StakeInfoAccount,
    pub stake_account: TokenAccount,
    pub user_token_account: TokenAccount,
    pub signer: Address,
    pub mint: Mint,
    pub bumps: DeStakeBumps,
}

/// What a release paid into the user's own account, in base units.
#[derive(Clone, Copy, Debug, PartialEq, Eq, Structural)]
pub struct Payout {
    /// Paid out of the reward vault.
    pub reward: u64,
    /// Returned out of the holding account: all that it held.
    pub principal: u64,
}

/// Whether a stake record and the balance of its holding account agree: tokens
/// are held exactly while the record says that a lock is on.
pub open spec fn consistent(record: StakeInfoAccount, holding: TokenAccount) -> bool {
    record.is_staked <==> holding.amount > 0
}

/// Whether `address` and `bump` are what the tag and the owner derive under `program_id`.
pub open spec fn is_derived(
    tag: Seq<u8>,
    owner: Option<Seq<u8>>,
    program_id: Seq<u8>,
    address: Seq<u8>,
    bump: u8,
) -> bool {
    derived(tag, owner, program_id) == Some((address, bump))
}

/// Whether the derived accounts of `ctx` are the ones that their seeds derive,
/// with the bumps that `ctx` lists, and the holding account is its own authority.
pub open spec fn stake_accounts_valid(ctx: Stake) -> bool {
    &&& is_derived(
        STAKE_INFO_SEED@,
        Some(ctx.signer@),
        ctx.program_id@,
        ctx.stake_info_key@,
        ctx.bumps.stake_info_account,
    )
    &&& is_derived(
        TOKEN_SEED@,
        Some(ctx.signer@),
        ctx.program_id@,
        ctx.stake_account.address@,
        ctx.bumps.stake_account,
    )
    &&& ctx.stake_account.owner@ == ctx.stake_account.address@
}

/// Whether the derived accounts of `ctx` are the ones that their seeds derive,
/// with the bumps that `ctx` lists, and the account that is paid is the user's.
pub open spec fn destake_accounts_valid(ctx: DeStake) -> bool {
    &&& is_derived(
        VAULT_SEED@,
        None,
        ctx.program_id@,
        ctx.token_vault_account.address@,
        ctx.bumps.token_vault_account,
    )
    &&& is_derived(
        STAKE_INFO_SEED@,
        Some(ctx.signer@),
        ctx.program_id@,
        ctx.stake_info_key@,
        ctx.bumps.stake_info_account,
    )
    &&& is_derived(
        TOKEN_SEED@,
        Some(ctx.signer@),
        ctx.program_id@,
        ctx.stake_account.address@,
        ctx.bumps.stake_account,
    )
    &&& ctx.user_token_account.owner@ == ctx.signer@
}

/// What a lock comes to, where `valid` says whether the accounts passed: the
/// accounts after it and the base units locked, or the failure.
pub open spec fn lock_outcome(ctx: Stake, amount: u64, slot: u64, valid: bool) -> Result<
    (Stake, u64),
    StakingError,
> {
    if amount == 0 {
        Err(StakingError::Code(ErrorCode::NoTokensToStake))
    } else if ctx.stake_info_account.is_staked {
        Err(StakingError::Code(ErrorCode::TokensAlreadyStaked))
    } else if !valid {
        Err(StakingError::AuthorizationFailure)
    } else if !scales(amount, ctx.mint.decimals) {
        Err(StakingError::ComputationFailure)
    } else {
        let locked = base_units(amount, ctx.mint.decimals) as u64;
        match transfer_outcome(
            ctx.user_token_account,
            ctx.stake_account,
            ctx.user_token_account.owner@ == ctx.signer@,
            locked,
        ) {
            Err(e) => Err(e),
            Ok(_) => Ok(
                (
                    Stake {
                        stake_info_account: StakeInfoAccount { stake_at_slot: slot, is_staked: true },
                        user_token_account: TokenAccount {
                            amount: (ctx.user_token_account.amount - locked) as u64,
                            ..ctx.user_token_account
                        },
                        stake_account: TokenAccount {
                            amount: (ctx.stake_account.amount + locked) as u64,
                            ..ctx.stake_account
                        },
                        ..ctx
                    },
                    locked,
                ),
            ),
        }
    }
}

/// What `stake` comes to: the accounts after it and the base units locked, or
/// the failure.
pub open spec fn stake_outcome(ctx: Stake, amount: u64, slot: u64) -> Result<(Stake, u64), StakingError> {
    lock_outcome(ctx, amount, slot, stake_accounts_valid(ctx))
}

/// The reward for a lock held for `elapsed` slots, in base units: one whole
/// token for each slot.
pub open spec fn reward(elapsed: u64, decimals: u8) -> int {
    base_units(elapsed, decimals)
}

/// What a release comes to, where `valid` says whether the accounts passed and
/// `vault_allowed` and `holding_allowed` whether the program may debit the
/// vault and the holding account: the accounts after it and what was paid
/// out, or the failure.
pub open spec fn release_outcome(
    ctx: DeStake,
    slot: u64,
    valid: bool,
    vault_allowed: bool,
    holding_allowed: bool,
) -> Result<(DeStake, Payout), StakingError> {
    if !ctx.stake_info_account.is_staked {
        Err(StakingError::Code(ErrorCode::TokensNotStaked))
    } else if !valid {
        Err(StakingError::AuthorizationFailure)
    } else if slot < ctx.stake_info_account.stake_at_slot {
        Err(StakingError::ComputationFailure)
    } else if !scales((slot - ctx.stake_info_account.stake_at_slot) as u64, ctx.mint.decimals) {
        Err(StakingError::ComputationFailure)
    } else {
        let paid = reward((slot - ctx.stake_info_account.stake_at_slot) as u64, ctx.mint.decimals) as u64;
        let principal = ctx.stake_account.amount;
        match transfer_outcome(ctx.token_vault_account, ctx.user_token_account, vault_allowed, paid) {
            Err(e) => Err(e),
            Ok(_) => {
                let user = TokenAccount {
                    amount: (ctx.user_token_account.amount + paid) as u64,
                    ..ctx.user_token_account
                };
                match transfer_outcome(ctx.stake_account, user, holding_allowed, principal) {
                    Err(e) => Err(e),
                    Ok(_) => Ok(
                        (
                            DeStake {
                                stake_info_account: StakeInfoAccount {
                                    stake_at_slot: slot,
                                    is_staked: false,
                                },
                                token_vault_account: TokenAccount {
                                    amount: (ctx.token_vault_account.amount - paid) as u64,
                                    ..ctx.token_vault_account
                                },
                                stake_account: TokenAccount { amount: 0, ..ctx.stake_account },
                                user_token_account: TokenAccount {
                                    amount: (user.amount + principal) as u64,
                                    ..user
                                },
                                ..ctx
                            },
                            Payout { reward: paid, principal },
                        ),
                    ),
                }
            },
        }
    }
}

/// Whether the seeds of the vault, with the bump that `ctx` lists, authorize
/// the program to debit the vault.
pub open spec fn vault_allowed(ctx: DeStake) -> bool {
    authorizes(
        signer_seeds(VAULT_SEED@, None, ctx.bumps.token_vault_account),
        ctx.token_vault_account.owner@,
        ctx.program_id@,
    )
}

/// Whether the seeds of the user's holding account, with the bump that `ctx`
/// lists, authorize the program to debit the holding account.
pub open spec fn holding_allowed(ctx: DeStake) -> bool {
    authorizes(
        signer_seeds(TOKEN_SEED@, Some(ctx.signer@), ctx.bumps.stake_account),
        ctx.stake_account.owner@,
        ctx.program_id@,
    )
}

/// What `destake` comes to: the accounts after it and what was paid out, or the
/// failure.
pub open spec fn destake_outcome(ctx: DeStake, slot: u64) -> Result<(DeStake, Payout), StakingError> {
    release_outcome(ctx, slot, destake_accounts_valid(ctx), vault_allowed(ctx), holding_allowed(ctx))
}

/// Decides whether `address` and `bump` are what the tag and the owner derive.
pub fn check_derived<const N: usize>(
    tag: &[u8; N],
    owner: &Option<Address>,
    program_id: &Address,
    address: &Address,
    bump: u8,
) -> (b: bool)
    ensures
        b == is_derived(tag@, owner_view(*owner), program_id@, address@, bump),
        b ==> authorizes(signer_seeds(tag@, owner_view(*owner), bump), address@, program_id@),
{
    let tag = bytes_of(tag);
    match derive_address(&tag, owner, program_id) {
        Some(d) => d.bump == bump && d.address.same(address),
        None => false,
    }
}

/// Decides whether the accounts of a lock pass.
pub fn check_stake_accounts(ctx: &Stake) -> (b: bool)
    ensures
        b == stake_accounts_valid(*ctx),
{
    let owner = Some(ctx.signer);
    check_derived(
        &STAKE_INFO_SEED,
        &owner,
        &ctx.program_id,
        &ctx.stake_info_key,
        ctx.bumps.stake_info_account,
    ) && check_derived(
        &TOKEN_SEED,
        &owner,
        &ctx.program_id,
        &ctx.stake_account.address,
        ctx.bumps.stake_account,
    ) && ctx.stake_account.owner.same(&ctx.stake_account.address)
}

/// Decides whether the accounts of a release pass.
pub fn check_destake_accounts(ctx: &DeStake) -> (b: bool)
    ensures
        b == destake_accounts_valid(*ctx),
{
    let nobody: Option<Address> = None;
    let owner = Some(ctx.signer);
    check_derived(
        &VAULT_SEED,
        &nobody,
        &ctx.program_id,
        &ctx.token_vault_account.address,
        ctx.bumps.token_vault_account,
    ) && check_derived(
        &STAKE_INFO_SEED,
        &owner,
        &ctx.program_id,
        &ctx.stake_info_key,
        ctx.bumps.stake_info_account,
    ) && check_derived(
        &TOKEN_SEED,
        &owner,
        &ctx.program_id,
        &ctx.stake_account.address,
        ctx.bumps.stake_account,
    ) && ctx.user_token_account.owner.same(&ctx.signer)
}

/// Greets. Nothing is read and nothing changes: the vault is created by
/// whoever calls this with its account.
pub fn initialize(ctx: &Initialize) -> (r: Result<(), StakingError>)
    ensures
        r == Ok::<(), StakingError>(()),
{
    Ok(())
}

/// Locks `amount` whole tokens of the user at `slot`, where `valid` says
/// whether the accounts passed.
///
/// The request is turned down, in this order: with `NoTokensToStake` where the
/// amount is zero; with `TokensAlreadyStaked` where a lock is on; with
/// `AuthorizationFailure` where the accounts did not pass; with
/// `ComputationFailure` where the amount does not fit in base units; and as the
/// transfer from the user's own account to the holding account is turned down,
/// which the user authorizes. Else the amount moves, in base units, and the
/// record says that a lock is on since `slot`. On a failure nothing changes.
pub fn lock(ctx: &mut Stake, amount: u64, slot: u64, valid: bool) -> (r: Result<u64, StakingError>)
    ensures
        match lock_outcome(*old(ctx), amount, slot, valid) {
            Ok((after, locked)) => r == Ok::<u64, StakingError>(locked) && *final(ctx) == after,
            Err(e) => r == Err::<u64, StakingError>(e) && *final(ctx) == *old(ctx),
        },
        r is Ok ==> consistent(final(ctx).stake_info_account, final(ctx).stake_account),
{
    if amount == 0 {
        return Err(StakingError::Code(ErrorCode::NoTokensToStake));
    }
    if ctx.stake_info_account.is_staked {
        return Err(StakingError::Code(ErrorCode::TokensAlreadyStaked));
    }
    if !valid {
        return Err(StakingError::AuthorizationFailure);
    }
    let locked = match to_base_units(amount, ctx.mint.decimals) {
        Some(v) => v,
        None => {
            return Err(StakingError::ComputationFailure);
        },
    };
    proof {
        lemma_base_units_positive(amount, ctx.mint.decimals);
    }
    let mut user = ctx.user_token_account;
    let mut holding = ctx.stake_account;
    let signed = user.owner.same(&ctx.signer);
    match move_tokens(&mut user, &mut holding, signed, locked) {
        Ok(()) => {},
        Err(e) => {
            return Err(e);
        },
    }
    ctx.user_token_account = user;
    ctx.stake_account = holding;
    ctx.stake_info_account.stake_at_slot = slot;
    ctx.stake_info_account.is_staked = true;
    Ok(locked)
}

/// Locks `amount` whole tokens of the user at `slot`.
///
/// The accounts pass where the stake record and the holding account are the
/// ones that their seeds derive for the user, with the bumps listed, and the
/// holding account is its own authority. The rest is as `lock` says.
pub fn stake(ctx: &mut Stake, amount: u64, slot: u64) -> (r: Result<u64, StakingError>)
    ensures
        match stake_outcome(*old(ctx), amount, slot) {
            Ok((after, locked)) => r == Ok::<u64, StakingError>(locked) && *final(ctx) == after,
            Err(e) => r == Err::<u64, StakingError>(e) && *final(ctx) == *old(ctx),
        },
        r is Ok ==> consistent(final(ctx).stake_info_account, final(ctx).stake_account),
{
    let valid = check_stake_accounts(ctx);
    lock(ctx, amount, slot, valid)
}

/// Releases the user's lock at `slot`, where `valid` says whether the accounts
/// passed and `vault_allowed` and `holding_allowed` whether the program may
/// debit the vault and the holding account.
///
/// The request is turned down, in this order: with `TokensNotStaked` where no
/// lock is on; with `AuthorizationFailure` where the accounts did not pass;
/// with `ComputationFailure` where `slot` lies before the slot at which the
/// lock began, or the reward does not fit in base units; as the transfer of
/// the reward from the vault to the user's own account is turned down; and as
/// the transfer of all that the holding account holds to the user's own
/// account is turned down. Else both amounts move, and the record says that the
/// lock is off and that it ended at `slot`. On a failure nothing changes.
pub fn release(ctx: &mut DeStake, slot: u64, valid: bool, vault_allowed: bool, holding_allowed: bool) -> (r:
    Result<Payout, StakingError>)
    ensures
        match release_outcome(*old(ctx), slot, valid, vault_allowed, holding_allowed) {
            Ok((after, payout)) => r == Ok::<Payout, StakingError>(payout) && *final(ctx) == after,
            Err(e) => r == Err::<Payout, StakingError>(e) && *final(ctx) == *old(ctx),
        },
        r is Ok ==> consistent(final(ctx).stake_info_account, final(ctx).stake_account),
{
    if !ctx.stake_info_account.is_staked {
        return Err(StakingError::Code(ErrorCode::TokensNotStaked));
    }
    if !valid {
        return Err(StakingError::AuthorizationFailure);
    }
    if slot < ctx.stake_info_account.stake_at_slot {
        return Err(StakingError::ComputationFailure);
    }
    let elapsed = slot - ctx.stake_info_account.stake_at_slot;
    let paid = match to_base_units(elapsed, ctx.mint.decimals) {
        Some(v) => v,
        None => {
            return Err(StakingError::ComputationFailure);
        },
    };
    let mut vault = ctx.token_vault_account;
    let mut holding = ctx.stake_account;
    let mut user = ctx.user_token_account;
    match move_tokens(&mut vault, &mut user, vault_allowed, paid) {
        Ok(()) => {},
        Err(e) => {
            return Err(e);
        },
    }
    let principal = holding.amount;
    match move_tokens(&mut holding, &mut user, holding_allowed, principal) {
        Ok(()) => {},
        Err(e) => {
            return Err(e);
        },
    }
    ctx.token_vault_account = vault;
    ctx.stake_account = holding;
    ctx.user_token_account = user;
    ctx.stake_info_account.is_staked = false;
    ctx.stake_info_account.stake_at_slot = slot;
    Ok(Payout { reward: paid, principal })
}

/// Releases the user's lock at `slot`.
///
/// The accounts pass where the vault, the stake record and the holding account
/// are the ones that their seeds derive, with the bumps listed, and the account
/// that is paid is the user's. The vault and the holding account are debited on
/// the program's own word: the seeds of each with its bump, which must derive
/// the owner of the account. The rest is as `release` says.
pub fn destake(ctx: &mut DeStake, slot: u64) -> (r: Result<Payout, StakingError>)
    ensures
        match destake_outcome(*old(ctx), slot) {
            Ok((after, payout)) => r == Ok::<Payout, StakingError>(payout) && *final(ctx) == after,
            Err(e) => r == Err::<Payout, StakingError>(e) && *final(ctx) == *old(ctx),
        },
        r is Ok ==> consistent(final(ctx).stake_info_account, final(ctx).stake_account),
{
    let valid = check_destake_accounts(ctx);
    let vault_proof = SignerSeeds {
        tag: bytes_of(&VAULT_SEED),
        owner: None,
        bump: ctx.bumps.token_vault_account,
    };
    let vault_allowed = authorize(&vault_proof, &ctx.token_vault_account.owner, &ctx.program_id);
    let holding_proof = SignerSeeds {
        tag: bytes_of(&TOKEN_SEED),
        owner: Some(ctx.signer),
        bump: ctx.bumps.stake_account,
    };
    let holding_allowed = authorize(&holding_proof, &ctx.stake_account.owner, &ctx.program_id);
    release(ctx, slot, valid, vault_allowed, holding_allowed)
}

/// A nonzero amount of whole tokens is a nonzero amount of base units.
pub proof fn lemma_base_units_positive(amount: u64, decimals: u8)
    requires
        amount > 0,
    ensures
        base_units(amount, decimals) >= amount,
        base_units(amount, decimals) > 0,
{
    vstd::arithmetic::power::lemma_pow_positive(10, decimals as nat);
    let f = vstd::arithmetic::power::pow(10, decimals as nat);
    assert(amount * f >= amount) by (nonlinear_arith)
        requires
            amount > 0,
            f >= 1,
    ;
}

} // verus!
