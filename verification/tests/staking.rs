use solana_staking::address::{derive_address, Address};
use solana_staking::error::{ErrorCode, StakingError};
use solana_staking::staking::{
    check_destake_accounts, check_stake_accounts, destake, initialize, lock, release, stake,
    DeStake, DeStakeBumps, Initialize, InitializeBumps, Payout, Stake, StakeBumps,
    StakeInfoAccount, DISCRIMINATOR_LEN, STAKE_INFO_LEN, STAKE_INFO_SPACE,
};
use solana_staking::token::{Mint, TokenAccount};

const PROGRAM: [u8; 32] = [
    113, 27, 216, 54, 253, 203, 196, 48, 247, 72, 191, 189, 103, 243, 8, 143, 212, 81, 39, 211,
    204, 3, 93, 77, 81, 20, 176, 108, 210, 171, 187, 3,
];

fn program() -> Address {
    Address { bytes: PROGRAM }
}

fn user() -> Address {
    let mut bytes = [0u8; 32];
    for (i, b) in bytes.iter_mut().enumerate() {
        *b = i as u8 + 1;
    }
    Address { bytes }
}

fn wallet() -> Address {
    Address { bytes: [77; 32] }
}

fn fresh_stake(decimals: u8, balance: u64) -> Stake {
    let record = derive_address(&b"stake_info".to_vec(), &Some(user()), &program()).unwrap();
    let holding = derive_address(&b"token".to_vec(), &Some(user()), &program()).unwrap();
    Stake {
        program_id: program(),
        stake_info_key: record.address,
        stake_info_account: StakeInfoAccount { stake_at_slot: 0, is_staked: false },
        stake_account: TokenAccount { address: holding.address, owner: holding.address, amount: 0 },
        user_token_account: TokenAccount { address: wallet(), owner: user(), amount: balance },
        signer: user(),
        mint: Mint { decimals },
        bumps: StakeBumps { stake_info_account: record.bump, stake_account: holding.bump },
    }
}

fn release_of(locked: &Stake, vault_balance: u64) -> DeStake {
    let vault = derive_address(&b"vault".to_vec(), &None, &program()).unwrap();
    DeStake {
        program_id: locked.program_id,
        token_vault_account: TokenAccount {
            address: vault.address,
            owner: vault.address,
            amount: vault_balance,
        },
        stake_info_key: locked.stake_info_key,
        stake_info_account: locked.stake_info_account,
        stake_account: locked.stake_account,
        user_token_account: locked.user_token_account,
        signer: locked.signer,
        mint: locked.mint,
        bumps: DeStakeBumps {
            token_vault_account: vault.bump,
            stake_info_account: locked.bumps.stake_info_account,
            stake_account: locked.bumps.stake_account,
        },
    }
}

fn code(c: ErrorCode) -> StakingError {
    StakingError::Code(c)
}

#[test]
fn initialize_always_succeeds() {
    let vault = derive_address(&b"vault".to_vec(), &None, &program()).unwrap();
    let ctx = Initialize {
        program_id: program(),
        token_vault_account: TokenAccount { address: vault.address, owner: vault.address, amount: 0 },
        signer: user(),
        mint: Mint { decimals: 6 },
        bumps: InitializeBumps { token_vault_account: vault.bump },
    };
    assert_eq!(initialize(&ctx), Ok(()));
    let odd = Initialize {
        token_vault_account: TokenAccount { address: wallet(), owner: user(), amount: 3 },
        bumps: InitializeBumps { token_vault_account: 0 },
        ..ctx
    };
    assert_eq!(initialize(&odd), Ok(()));
}

#[test]
fn the_record_account_is_sized_for_header_and_record() {
    assert_eq!(DISCRIMINATOR_LEN, 8);
    assert_eq!(STAKE_INFO_LEN, 16);
    assert_eq!(STAKE_INFO_SPACE, 24);
}

#[test]
fn stake_five_at_slot_100_then_destake_at_slot_110() {
    let mut ctx = fresh_stake(6, 20_000_000);
    assert_eq!(stake(&mut ctx, 5, 100), Ok(5_000_000));
    assert_eq!(ctx.stake_account.amount, 5_000_000);
    assert_eq!(ctx.user_token_account.amount, 15_000_000);
    assert_eq!(ctx.stake_info_account, StakeInfoAccount { stake_at_slot: 100, is_staked: true });

    let mut out = release_of(&ctx, 1_000_000_000);
    assert_eq!(destake(&mut out, 110), Ok(Payout { reward: 10_000_000, principal: 5_000_000 }));
    assert_eq!(out.token_vault_account.amount, 990_000_000);
    assert_eq!(out.stake_account.amount, 0);
    assert_eq!(out.user_token_account.amount, 30_000_000);
    assert_eq!(out.stake_info_account, StakeInfoAccount { stake_at_slot: 110, is_staked: false });
}

#[test]
fn stake_then_destake_in_the_same_slot_returns_the_principal_and_no_reward() {
    for (amount, decimals, balance) in [(5u64, 6u8, 20_000_000u64), (1, 0, 1), (3, 9, 3_000_000_000)] {
        let mut ctx = fresh_stake(decimals, balance);
        let locked = stake(&mut ctx, amount, 42).unwrap();
        let mut out = release_of(&ctx, 0);
        assert_eq!(destake(&mut out, 42), Ok(Payout { reward: 0, principal: locked }));
        assert_eq!(out.user_token_account.amount, balance);
        assert_eq!(out.token_vault_account.amount, 0);
        assert_eq!(out.stake_account.amount, 0);
        assert!(!out.stake_info_account.is_staked);
    }
}

#[test]
fn stake_of_nothing_fails_and_leaves_the_accounts() {
    let mut ctx = fresh_stake(6, 20_000_000);
    let before = ctx;
    assert_eq!(stake(&mut ctx, 0, 100), Err(code(ErrorCode::NoTokensToStake)));
    assert_eq!(ctx, before);
}

#[test]
fn stake_of_nothing_fails_so_while_a_lock_is_on_and_with_bad_accounts() {
    let mut ctx = fresh_stake(6, 20_000_000);
    stake(&mut ctx, 5, 100).unwrap();
    let before = ctx;
    assert_eq!(stake(&mut ctx, 0, 101), Err(code(ErrorCode::NoTokensToStake)));
    assert_eq!(ctx, before);
    let mut bad = fresh_stake(6, 20_000_000);
    bad.stake_info_key = wallet();
    assert_eq!(stake(&mut bad, 0, 100), Err(code(ErrorCode::NoTokensToStake)));
}

#[test]
fn a_second_stake_fails_and_leaves_the_state_of_the_first() {
    let mut ctx = fresh_stake(6, 20_000_000);
    assert_eq!(stake(&mut ctx, 5, 100), Ok(5_000_000));
    let after_first = ctx;
    assert_eq!(stake(&mut ctx, 5, 105), Err(code(ErrorCode::TokensAlreadyStaked)));
    assert_eq!(ctx, after_first);
    assert_eq!(stake(&mut ctx, 1, 200), Err(code(ErrorCode::TokensAlreadyStaked)));
    assert_eq!(ctx, after_first);
}

#[test]
fn destake_without_a_stake_fails_and_moves_nothing() {
    let ctx = fresh_stake(6, 20_000_000);
    let mut out = release_of(&ctx, 1_000_000_000);
    let before = out;
    assert_eq!(destake(&mut out, 110), Err(code(ErrorCode::TokensNotStaked)));
    assert_eq!(out, before);
}

#[test]
fn a_second_destake_fails() {
    let mut ctx = fresh_stake(6, 20_000_000);
    stake(&mut ctx, 5, 100).unwrap();
    let mut out = release_of(&ctx, 1_000_000_000);
    destake(&mut out, 110).unwrap();
    let before = out;
    assert_eq!(destake(&mut out, 120), Err(code(ErrorCode::TokensNotStaked)));
    assert_eq!(out, before);
}

#[test]
fn the_record_is_used_again_for_the_next_stake() {
    let mut ctx = fresh_stake(6, 20_000_000);
    stake(&mut ctx, 5, 100).unwrap();
    let mut out = release_of(&ctx, 1_000_000_000);
    destake(&mut out, 110).unwrap();
    ctx.stake_info_account = out.stake_info_account;
    ctx.stake_account = out.stake_account;
    ctx.user_token_account = out.user_token_account;
    assert_eq!(stake(&mut ctx, 30, 500), Ok(30_000_000));
    assert_eq!(ctx.stake_info_account, StakeInfoAccount { stake_at_slot: 500, is_staked: true });
    assert_eq!(ctx.user_token_account.amount, 0);
    assert_eq!(ctx.stake_account.amount, 30_000_000);
}

#[test]
fn the_reward_grows_with_the_time_and_is_linear_in_it() {
    let mut rewards = Vec::new();
    for elapsed in [0u64, 1, 2, 10, 20, 1000] {
        let mut ctx = fresh_stake(6, 20_000_000);
        stake(&mut ctx, 5, 100).unwrap();
        let mut out = release_of(&ctx, u64::MAX / 2);
        rewards.push(destake(&mut out, 100 + elapsed).unwrap().reward);
    }
    assert_eq!(rewards, vec![0, 1_000_000, 2_000_000, 10_000_000, 20_000_000, 1_000_000_000]);
    assert_eq!(rewards[2], 2 * rewards[1]);
    assert_eq!(rewards[4], 2 * rewards[3]);
}

#[test]
fn the_reward_does_not_depend_on_the_amount_locked() {
    let mut small = fresh_stake(6, 2_000_000_000_000);
    let mut large = fresh_stake(6, 2_000_000_000_000);
    stake(&mut small, 1, 100).unwrap();
    stake(&mut large, 1_000_000, 100).unwrap();
    let a = destake(&mut release_of(&small, 1_000_000_000), 150).unwrap();
    let b = destake(&mut release_of(&large, 1_000_000_000), 150).unwrap();
    assert_eq!(a.reward, 50_000_000);
    assert_eq!(b.reward, 50_000_000);
    assert_eq!(a.principal, 1_000_000);
    assert_eq!(b.principal, 1_000_000_000_000);
}

#[test]
fn stake_fails_where_the_amount_does_not_fit_in_base_units() {
    let mut ctx = fresh_stake(6, u64::MAX);
    let before = ctx;
    assert_eq!(stake(&mut ctx, 18_446_744_073_710, 100), Err(StakingError::ComputationFailure));
    assert_eq!(ctx, before);
    let mut wide = fresh_stake(20, u64::MAX);
    assert_eq!(stake(&mut wide, 1, 100), Err(StakingError::ComputationFailure));
}

#[test]
fn stake_fails_where_the_user_holds_too_little() {
    let mut ctx = fresh_stake(6, 4_999_999);
    let before = ctx;
    assert_eq!(stake(&mut ctx, 5, 100), Err(StakingError::InsufficientFunds));
    assert_eq!(ctx, before);
    ctx.user_token_account.amount = 5_000_000;
    assert_eq!(stake(&mut ctx, 5, 100), Ok(5_000_000));
    assert_eq!(ctx.user_token_account.amount, 0);
}

#[test]
fn stake_fails_where_the_user_does_not_own_the_account_debited() {
    let mut ctx = fresh_stake(6, 20_000_000);
    ctx.user_token_account.owner = wallet();
    let before = ctx;
    assert_eq!(stake(&mut ctx, 5, 100), Err(StakingError::AuthorizationFailure));
    assert_eq!(ctx, before);
}

#[test]
fn stake_fails_where_a_derived_account_is_not_the_one_derived() {
    let mut ctx = fresh_stake(6, 20_000_000);
    ctx.stake_info_key = wallet();
    assert!(!check_stake_accounts(&ctx));
    assert_eq!(stake(&mut ctx, 5, 100), Err(StakingError::AuthorizationFailure));

    let mut ctx = fresh_stake(6, 20_000_000);
    ctx.stake_account.address = wallet();
    ctx.stake_account.owner = wallet();
    assert_eq!(stake(&mut ctx, 5, 100), Err(StakingError::AuthorizationFailure));

    let mut ctx = fresh_stake(6, 20_000_000);
    ctx.stake_account.owner = user();
    assert_eq!(stake(&mut ctx, 5, 100), Err(StakingError::AuthorizationFailure));

    let mut ctx = fresh_stake(6, 20_000_000);
    ctx.program_id = wallet();
    let before = ctx;
    assert_eq!(stake(&mut ctx, 5, 100), Err(StakingError::AuthorizationFailure));
    assert_eq!(ctx, before);
}

#[test]
fn stake_fails_where_a_bump_is_not_the_one_derived() {
    let good = fresh_stake(6, 20_000_000);
    assert!(check_stake_accounts(&good));
    for delta in [1u8, 2, 100] {
        let mut ctx = good;
        ctx.bumps.stake_info_account = good.bumps.stake_info_account.wrapping_sub(delta);
        assert_eq!(stake(&mut ctx, 5, 100), Err(StakingError::AuthorizationFailure));
        let mut ctx = good;
        ctx.bumps.stake_account = good.bumps.stake_account.wrapping_add(delta);
        let before = ctx;
        assert_eq!(stake(&mut ctx, 5, 100), Err(StakingError::AuthorizationFailure));
        assert_eq!(ctx, before);
    }
}

#[test]
fn destake_fails_where_a_bump_is_not_the_one_derived() {
    let mut ctx = fresh_stake(6, 20_000_000);
    stake(&mut ctx, 5, 100).unwrap();
    let good = release_of(&ctx, 1_000_000_000);
    assert!(check_destake_accounts(&good));
    let mut a = good;
    a.bumps.token_vault_account -= 1;
    let mut b = good;
    b.bumps.stake_info_account -= 1;
    let mut c = good;
    c.bumps.stake_account -= 1;
    for mut bad in [a, b, c] {
        let before = bad;
        assert!(!check_destake_accounts(&bad));
        assert_eq!(destake(&mut bad, 110), Err(StakingError::AuthorizationFailure));
        assert_eq!(bad, before);
    }
}

#[test]
fn destake_fails_where_an_account_is_not_the_one_derived() {
    let mut ctx = fresh_stake(6, 20_000_000);
    stake(&mut ctx, 5, 100).unwrap();
    let good = release_of(&ctx, 1_000_000_000);
    let mut a = good;
    a.token_vault_account.address = wallet();
    let mut b = good;
    b.stake_info_key = wallet();
    let mut c = good;
    c.stake_account.address = wallet();
    let mut d = good;
    d.user_token_account.owner = wallet();
    let mut e = good;
    e.signer = wallet();
    for mut bad in [a, b, c, d, e] {
        let before = bad;
        assert_eq!(destake(&mut bad, 110), Err(StakingError::AuthorizationFailure));
        assert_eq!(bad, before);
    }
}

#[test]
fn destake_fails_where_the_program_does_not_control_the_account_debited() {
    let mut ctx = fresh_stake(6, 20_000_000);
    stake(&mut ctx, 5, 100).unwrap();
    let good = release_of(&ctx, 1_000_000_000);
    let mut a = good;
    a.token_vault_account.owner = user();
    let mut b = good;
    b.stake_account.owner = user();
    for mut bad in [a, b] {
        let before = bad;
        assert_eq!(destake(&mut bad, 110), Err(StakingError::AuthorizationFailure));
        assert_eq!(bad, before);
    }
}

#[test]
fn destake_fails_as_a_whole_where_the_vault_holds_too_little() {
    let mut ctx = fresh_stake(6, 20_000_000);
    stake(&mut ctx, 5, 100).unwrap();
    let mut out = release_of(&ctx, 9_999_999);
    let before = out;
    assert_eq!(destake(&mut out, 110), Err(StakingError::InsufficientFunds));
    assert_eq!(out, before);
    out.token_vault_account.amount = 10_000_000;
    assert_eq!(destake(&mut out, 110), Ok(Payout { reward: 10_000_000, principal: 5_000_000 }));
    assert_eq!(out.token_vault_account.amount, 0);
}

#[test]
fn destake_fails_where_the_reward_does_not_fit_in_base_units() {
    let mut ctx = fresh_stake(6, 20_000_000);
    stake(&mut ctx, 5, 0).unwrap();
    let mut out = release_of(&ctx, u64::MAX);
    let before = out;
    assert_eq!(destake(&mut out, 18_446_744_073_710), Err(StakingError::ComputationFailure));
    assert_eq!(out, before);
}

#[test]
fn destake_fails_where_the_slot_lies_before_the_lock() {
    let mut ctx = fresh_stake(6, 20_000_000);
    stake(&mut ctx, 5, 100).unwrap();
    let mut out = release_of(&ctx, 1_000_000_000);
    let before = out;
    assert_eq!(destake(&mut out, 99), Err(StakingError::ComputationFailure));
    assert_eq!(out, before);
}

#[test]
fn destake_undoes_the_reward_where_the_principal_cannot_be_paid() {
    let mut ctx = fresh_stake(6, u64::MAX);
    stake(&mut ctx, 5, 100).unwrap();
    let mut out = release_of(&ctx, 1_000_000_000);
    out.user_token_account.amount = u64::MAX - 12_000_000;
    let before = out;
    assert_eq!(destake(&mut out, 110), Err(StakingError::ComputationFailure));
    assert_eq!(out, before);
}

#[test]
fn lock_decides_in_order() {
    let valid = fresh_stake(6, 20_000_000);
    let mut staked = valid;
    staked.stake_info_account.is_staked = true;

    let mut ctx = staked;
    assert_eq!(lock(&mut ctx, 0, 7, false), Err(code(ErrorCode::NoTokensToStake)));
    let mut ctx = staked;
    assert_eq!(lock(&mut ctx, 5, 7, false), Err(code(ErrorCode::TokensAlreadyStaked)));
    let mut ctx = valid;
    assert_eq!(lock(&mut ctx, u64::MAX, 7, false), Err(StakingError::AuthorizationFailure));
    let mut ctx = valid;
    assert_eq!(lock(&mut ctx, u64::MAX, 7, true), Err(StakingError::ComputationFailure));
    let mut ctx = valid;
    assert_eq!(lock(&mut ctx, 21, 7, true), Err(StakingError::InsufficientFunds));
    let mut ctx = valid;
    assert_eq!(lock(&mut ctx, 20, 7, true), Ok(20_000_000));
    assert_eq!(ctx.stake_info_account, StakeInfoAccount { stake_at_slot: 7, is_staked: true });
}

#[test]
fn release_decides_in_order() {
    let mut ctx = fresh_stake(6, 20_000_000);
    stake(&mut ctx, 5, 100).unwrap();
    let staked = release_of(&ctx, 1_000_000_000);
    let mut idle = staked;
    idle.stake_info_account.is_staked = false;

    let mut out = idle;
    assert_eq!(release(&mut out, 99, false, false, false), Err(code(ErrorCode::TokensNotStaked)));
    let mut out = staked;
    assert_eq!(release(&mut out, 99, false, false, false), Err(StakingError::AuthorizationFailure));
    let mut out = staked;
    assert_eq!(release(&mut out, 99, true, false, false), Err(StakingError::ComputationFailure));
    let mut out = staked;
    assert_eq!(release(&mut out, 110, true, false, true), Err(StakingError::AuthorizationFailure));
    let mut out = staked;
    assert_eq!(release(&mut out, 110, true, true, false), Err(StakingError::AuthorizationFailure));
    assert_eq!(out, staked);
    let mut out = staked;
    assert_eq!(
        release(&mut out, 110, true, true, true),
        Ok(Payout { reward: 10_000_000, principal: 5_000_000 })
    );
}

#[test]
fn after_each_operation_tokens_are_held_exactly_while_a_lock_is_on() {
    let mut ctx = fresh_stake(6, 20_000_000);
    assert_eq!(ctx.stake_info_account.is_staked, ctx.stake_account.amount > 0);
    stake(&mut ctx, 5, 100).unwrap();
    assert_eq!(ctx.stake_info_account.is_staked, ctx.stake_account.amount > 0);
    let mut out = release_of(&ctx, 1_000_000_000);
    destake(&mut out, 110).unwrap();
    assert_eq!(out.stake_info_account.is_staked, out.stake_account.amount > 0);
}
