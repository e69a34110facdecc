//! What holds of the operations whatever the accounts are.

use vstd::prelude::*;
use vstd::arithmetic::power::lemma_pow_positive;
use crate::address::authorizes;
use crate::error::{ErrorCode, StakingError};
use crate::staking::{
    consistent, destake_accounts_valid, destake_outcome, is_derived, lemma_base_units_positive,
    lock_outcome, release_outcome, reward, stake_accounts_valid, stake_outcome, DeStake, Payout,
    Stake,
};
use crate::token::{base_units, scale};

verus! {

/// A request to lock nothing fails with `NoTokensToStake`, whatever the
/// accounts are and whether they pass or not.
pub proof fn lemma_stake_of_nothing(ctx: Stake, slot: u64, valid: bool)
    ensures
        lock_outcome(ctx, 0, slot, valid) == Err::<(Stake, u64), StakingError>(
            StakingError::Code(ErrorCode::NoTokensToStake),
        ),
        stake_outcome(ctx, 0, slot) == Err::<(Stake, u64), StakingError>(
            StakingError::Code(ErrorCode::NoTokensToStake),
        ),
{
}

/// After a lock, a second request to lock a nonzero amount fails with
/// `TokensAlreadyStaked`, whatever its amount and slot are.
pub proof fn lemma_stake_twice(
    ctx: Stake,
    amount: u64,
    slot: u64,
    valid: bool,
    again: u64,
    later: u64,
    valid_again: bool,
)
    requires
        lock_outcome(ctx, amount, slot, valid) is Ok,
        again != 0,
    ensures
        lock_outcome(lock_outcome(ctx, amount, slot, valid)->Ok_0.0, again, later, valid_again)
            == Err::<(Stake, u64), StakingError>(
            StakingError::Code(ErrorCode::TokensAlreadyStaked),
        ),
{
}

/// A release without a lock fails with `TokensNotStaked`, whatever the
/// accounts are and whether they pass or not.
pub proof fn lemma_destake_without_stake(
    ctx: DeStake,
    slot: u64,
    valid: bool,
    vault_allowed: bool,
    holding_allowed: bool,
)
    requires
        !ctx.stake_info_account.is_staked,
    ensures
        release_outcome(ctx, slot, valid, vault_allowed, holding_allowed) == Err::<
            (DeStake, Payout),
            StakingError,
        >(StakingError::Code(ErrorCode::TokensNotStaked)),
        destake_outcome(ctx, slot) == Err::<(DeStake, Payout), StakingError>(
            StakingError::Code(ErrorCode::TokensNotStaked),
        ),
{
}

/// The accounts of a release that follows a lock: what the lock left, with any
/// vault and any bumps.
pub open spec fn follows(locked: Stake, release: DeStake) -> bool {
    &&& release.program_id == locked.program_id
    &&& release.stake_info_key == locked.stake_info_key
    &&& release.stake_info_account == locked.stake_info_account
    &&& release.stake_account == locked.stake_account
    &&& release.user_token_account == locked.user_token_account
    &&& release.signer == locked.signer
    &&& release.mint == locked.mint
}

/// A lock that is released in the slot in which it began pays no reward and
/// returns what the holding account held before the lock and the amount locked.
/// Where the holding account was empty before, as it is while no lock is on, the
/// user gets back exactly the amount locked and ends with the balance held
/// before the lock; the vault keeps its balance.
pub proof fn lemma_stake_then_destake(
    ctx: Stake,
    amount: u64,
    slot: u64,
    valid: bool,
    release: DeStake,
    release_valid: bool,
    vault_allowed: bool,
    holding_allowed: bool,
)
    requires
        lock_outcome(ctx, amount, slot, valid) is Ok,
        follows(lock_outcome(ctx, amount, slot, valid)->Ok_0.0, release),
        release_outcome(release, slot, release_valid, vault_allowed, holding_allowed) is Ok,
    ensures
        ({
            let locked = lock_outcome(ctx, amount, slot, valid)->Ok_0.1;
            let (after, payout) = release_outcome(
                release,
                slot,
                release_valid,
                vault_allowed,
                holding_allowed,
            )->Ok_0;
            &&& locked == base_units(amount, ctx.mint.decimals)
            &&& payout.reward == 0
            &&& payout.principal == ctx.stake_account.amount + locked
            &&& after.token_vault_account.amount == release.token_vault_account.amount
            &&& after.stake_account.amount == 0
            &&& after.user_token_account.amount == ctx.user_token_account.amount
                + ctx.stake_account.amount
            &&& !after.stake_info_account.is_staked
            &&& consistent(ctx.stake_info_account, ctx.stake_account) ==> {
                &&& payout.principal == locked
                &&& after.user_token_account.amount == ctx.user_token_account.amount
            }
        }),
{
    lemma_base_units_positive(amount, ctx.mint.decimals);
    lemma_reward_of_no_time(ctx.mint.decimals);
}

/// A release in the slot in which the lock began succeeds where the accounts
/// pass and the program may debit the vault and the holding account, if the
/// holding account was empty before the lock.
pub proof fn lemma_destake_at_once_succeeds(
    ctx: Stake,
    amount: u64,
    slot: u64,
    valid: bool,
    release: DeStake,
)
    requires
        lock_outcome(ctx, amount, slot, valid) is Ok,
        follows(lock_outcome(ctx, amount, slot, valid)->Ok_0.0, release),
        consistent(ctx.stake_info_account, ctx.stake_account),
    ensures
        release_outcome(release, slot, true, true, true) is Ok,
{
    lemma_base_units_positive(amount, ctx.mint.decimals);
    lemma_reward_of_no_time(ctx.mint.decimals);
    vstd::arithmetic::power::lemma_pow_positive(10, ctx.mint.decimals as nat);
}

/// A lock held for no time earns nothing.
pub proof fn lemma_reward_of_no_time(decimals: u8)
    ensures
        reward(0, decimals) == 0,
{
    let f = scale(decimals);
    assert(0 * f == 0) by (nonlinear_arith);
}

/// The longer a lock is held, the larger is the reward, or it stays the same.
pub proof fn lemma_reward_monotonic(shorter: u64, longer: u64, decimals: u8)
    requires
        shorter <= longer,
    ensures
        reward(shorter, decimals) <= reward(longer, decimals),
{
    lemma_pow_positive(10, decimals as nat);
    let f = scale(decimals);
    assert(shorter * f <= longer * f) by (nonlinear_arith)
        requires
            shorter <= longer,
            f > 0,
    ;
}

/// The reward is linear in the time that the lock is held: for the sum of two
/// times it is the sum of the two rewards, and so for twice a time it is twice the reward.
pub proof fn lemma_reward_linear(first: u64, second: u64, decimals: u8)
    requires
        first + second <= u64::MAX,
    ensures
        reward((first + second) as u64, decimals) == reward(first, decimals) + reward(
            second,
            decimals,
        ),
        first == second ==> reward((2 * first) as u64, decimals) == 2 * reward(first, decimals),
{
    let f = scale(decimals);
    assert((first + second) * f == first * f + second * f) by (nonlinear_arith);
}

/// The same seeds authorize acting for one address only.
pub proof fn lemma_one_address(seeds: Seq<Seq<u8>>, program_id: Seq<u8>, a: Seq<u8>, b: Seq<u8>)
    requires
        authorizes(seeds, a, program_id),
        authorizes(seeds, b, program_id),
    ensures
        a == b,
{
}

/// A tag and an owner derive one address and one bump: where an account passes
/// with one bump, it passes with no other, and no other address passes.
pub proof fn lemma_one_bump(
    tag: Seq<u8>,
    owner: Option<Seq<u8>>,
    program_id: Seq<u8>,
    address: Seq<u8>,
    bump: u8,
    other_address: Seq<u8>,
    other_bump: u8,
)
    requires
        is_derived(tag, owner, program_id, address, bump),
        other_address != address || other_bump != bump,
    ensures
        !is_derived(tag, owner, program_id, other_address, other_bump),
{
}

/// A request to lock that lists another bump for a derived account than the
/// one it passes with fails with `AuthorizationFailure`.
pub proof fn lemma_stake_with_other_bump(ctx: Stake, other: Stake, amount: u64, slot: u64)
    requires
        stake_accounts_valid(ctx),
        other.bumps != ctx.bumps,
        other == (Stake { bumps: other.bumps, ..ctx }),
        amount != 0,
        !ctx.stake_info_account.is_staked,
    ensures
        stake_outcome(other, amount, slot) == Err::<(Stake, u64), StakingError>(
            StakingError::AuthorizationFailure,
        ),
{
}

/// A request to release that lists another bump for a derived account than
/// the one it passes with fails with `AuthorizationFailure`.
pub proof fn lemma_destake_with_other_bump(ctx: DeStake, other: DeStake, slot: u64)
    requires
        destake_accounts_valid(ctx),
        other.bumps != ctx.bumps,
        other == (DeStake { bumps: other.bumps, ..ctx }),
        ctx.stake_info_account.is_staked,
    ensures
        destake_outcome(other, slot) == Err::<(DeStake, Payout), StakingError>(
            StakingError::AuthorizationFailure,
        ),
{
}

} // verus!
