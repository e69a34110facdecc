//! Token balances: amounts in base units and the transfer between two accounts.

use vstd::prelude::*;
use vstd::arithmetic::power::{lemma_pow0, lemma_pow_increases, pow};
use crate::address::{authorize, authorizes, Address, SignerSeeds};
use crate::error::StakingError;

verus! {

/// What the ledger reads of a mint: the number of decimals of the token.
#[derive(Clone, Copy, Debug, PartialEq, Eq)]
pub struct Mint {
    pub decimals: u8,
}

/// A token account: its own address, the address that may move its tokens,
/// and its balance in base units.
#[derive(Clone, Copy, Debug, PartialEq, Eq)]
pub struct TokenAccount {
    pub address: Address,
    pub owner: Address,
    pub amount: u64,
}

/// Who stands behind a transfer.
#[derive(Clone, Debug, PartialEq, Eq)]
pub enum Authority {
    /// The holder of this address signed the request.
    Signer(Address),
    /// The program acts for a derived address and presents these seeds.
    Derived(SignerSeeds),
}

/// The number of base units in one whole token.
pub open spec fn scale(decimals: u8) -> int {
    pow(10, decimals as nat)
}

/// `amount` whole tokens in base units.
pub open spec fn base_units(amount: u64, decimals: u8) -> int {
    amount * scale(decimals)
}

/// Whether `amount` whole tokens can be written in base units in 64 bits.
pub open spec fn scales(amount: u64, decimals: u8) -> bool {
    scale(decimals) <= u64::MAX && base_units(amount, decimals) <= u64::MAX
}

impl Authority {
    /// Whether the authority may move the tokens of an account owned by `owner`.
    pub open spec fn holds(&self, owner: Seq<u8>, program_id: Seq<u8>) -> bool {
        match *self {
            Authority::Signer(a) => a@ == owner,
            Authority::Derived(proof) => authorizes(proof.seeds(), owner, program_id),
        }
    }
}

/// The number of base units in one whole token, or `None` where it takes more than 64 bits.
pub fn scale_factor(decimals: u8) -> (r: Option<u64>)
    ensures
        r matches Some(f) ==> f == scale(decimals),
        r is None ==> scale(decimals) > u64::MAX,
{
    let mut f: u64 = 1;
    let mut i: u8 = 0;
    proof {
        lemma_pow0(10);
    }
    while i < decimals
        invariant
            i <= decimals,
            f == pow(10, i as nat),
        decreases decimals - i,
    {
        proof {
            reveal(pow);
            assert(pow(10, (i + 1) as nat) == 10 * pow(10, i as nat));
        }
        match f.checked_mul(10) {
            Some(g) => {
                f = g;
            },
            None => {
                proof {
                    lemma_pow_increases(10, (i + 1) as nat, decimals as nat);
                }
                return None;
            },
        }
        i += 1;
    }
    Some(f)
}

/// Writes `amount` whole tokens in base units.
///
/// Fails where one whole token, or the amount, takes more than 64 bits in base units.
pub fn to_base_units(amount: u64, decimals: u8) -> (r: Option<u64>)
    ensures
        r matches Some(v) ==> scales(amount, decimals) && v == base_units(amount, decimals),
        r is None ==> !scales(amount, decimals),
{
    match scale_factor(decimals) {
        Some(f) => amount.checked_mul(f),
        None => None,
    }
}

/// What a transfer of `amount` from `from` to `to` comes to, where `allowed`
/// says whether the authority behind it may move the tokens of `from`.
pub open spec fn transfer_outcome(
    from: TokenAccount,
    to: TokenAccount,
    allowed: bool,
    amount: u64,
) -> Result<(), StakingError> {
    if !allowed {
        Err(StakingError::AuthorizationFailure)
    } else if from.amount < amount {
        Err(StakingError::InsufficientFunds)
    } else if to.amount + amount > u64::MAX {
        Err(StakingError::ComputationFailure)
    } else {
        Ok(())
    }
}

/// Moves `amount` base units from `from` to `to`, where `allowed` says whether
/// the authority behind the transfer may move the tokens of `from`.
///
/// The transfer is turned down, in this order, where it is not allowed, where
/// `from` holds less than `amount`, and where `to` would hold more than 64 bits
/// can say. A transfer that is turned down moves nothing.
pub fn move_tokens(from: &mut TokenAccount, to: &mut TokenAccount, allowed: bool, amount: u64) -> (r:
    Result<(), StakingError>)
    ensures
        r == transfer_outcome(*old(from), *old(to), allowed, amount),
        r is Err ==> *final(from) == *old(from) && *final(to) == *old(to),
        r is Ok ==> *final(from) == (TokenAccount {
            amount: (old(from).amount - amount) as u64,
            ..*old(from)
        }),
        r is Ok ==> *final(to) == (TokenAccount {
            amount: (old(to).amount + amount) as u64,
            ..*old(to)
        }),
{
    if !allowed {
        return Err(StakingError::AuthorizationFailure);
    }
    if from.amount < amount {
        return Err(StakingError::InsufficientFunds);
    }
    match to.amount.checked_add(amount) {
        Some(sum) => {
            from.amount = from.amount - amount;
            to.amount = sum;
            Ok(())
        },
        None => Err(StakingError::ComputationFailure),
    }
}

/// Decides whether `authority` may move the tokens of an account owned by `owner`.
pub fn allows(authority: &Authority, owner: &Address, program_id: &Address) -> (b: bool)
    ensures
        b == authority.holds(owner@, program_id@),
{
    match authority {
        Authority::Signer(a) => a.same(owner),
        Authority::Derived(proof) => authorize(proof, owner, program_id),
    }
}

/// Moves `amount` base units from `from` to `to` on the word of `authority`:
/// a signer, who must be the owner of `from`, or the seeds of a derived
/// address, which must derive the owner of `from`.
pub fn transfer(
    from: &mut TokenAccount,
    to: &mut TokenAccount,
    authority: &Authority,
    amount: u64,
    program_id: &Address,
) -> (r: Result<(), StakingError>)
    ensures
        r == transfer_outcome(
            *old(from),
            *old(to),
            authority.holds(old(from).owner@, program_id@),
            amount,
        ),
        r is Err ==> *final(from) == *old(from) && *final(to) == *old(to),
        r is Ok ==> *final(from) == (TokenAccount {
            amount: (old(from).amount - amount) as u64,
            ..*old(from)
        }),
        r is Ok ==> *final(to) == (TokenAccount {
            amount: (old(to).amount + amount) as u64,
            ..*old(to)
        }),
{
    let allowed = allows(authority, &from.owner, program_id);
    move_tokens(from, to, allowed, amount)
}

} // verus!
