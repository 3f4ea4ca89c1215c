use crate::errors::ErrorCode;
use crate::key::Key;
use crate::pda::{check_address, derivation, derive_address, program_address, with_bump};
use crate::seeds::{build_creator_seeds, build_withdrawal_seeds, creator_seeds, withdrawal_seeds};
use crate::states::{next_profile, withdrawn, ProfileAccount, Wallet, Withdrawal};
use vstd::prelude::*;

verus! {

/// The first check that a withdrawal fails, if any.
pub open spec fn withdraw_error(
    program_id: Seq<u8>,
    authority: Wallet,
    profile: ProfileAccount,
    amount: u64,
) -> Option<ErrorCode> {
    let c = profile.data;
    if program_address(with_bump(creator_seeds(authority.key@), c.bump), program_id) != Some(
        profile.address@,
    ) {
        Some(ErrorCode::AddressMismatch)
    } else if c.authority@ != authority.key@ {
        Some(ErrorCode::UnauthorizedAccess)
    } else if amount == 0 {
        Some(ErrorCode::InvalidWithdrawalAmount)
    } else if amount > c.tips_balance {
        Some(ErrorCode::InsufficientTipsBalance)
    } else if profile.lamports < amount {
        Some(ErrorCode::InsufficientFunds)
    } else if authority.lamports + amount > u64::MAX || c.withdrawal_count == u64::MAX {
        Some(ErrorCode::Overflow)
    } else if derivation(withdrawal_seeds(authority.key@, c.withdrawal_count), program_id) is None {
        Some(ErrorCode::NoViableAddress)
    } else {
        None
    }
}

/// Moves `amount` lamports out of the custody of the profile that
/// `authority` owns into the owner's wallet, counts the withdrawal, and
/// returns the withdrawal record with its address, derived from the
/// withdrawal count before the withdrawal. On any failure both accounts are
/// left as they were.
pub fn handler(
    program_id: &Key,
    authority: &mut Wallet,
    profile: &mut ProfileAccount,
    amount: u64,
    now: i64,
) -> (r: Result<(Key, Withdrawal), ErrorCode>)
    ensures
        match withdraw_error(program_id@, *old(authority), *old(profile), amount) {
            Some(e) => {
                &&& r == Err::<(Key, Withdrawal), ErrorCode>(e)
                &&& *final(authority) == *old(authority)
                &&& *final(profile) == *old(profile)
            },
            None => match r {
                Ok((k, w)) => {
                    &&& derivation(
                        withdrawal_seeds(old(authority).key@, old(profile).data.withdrawal_count),
                        program_id@,
                    ) == Some((k@, w.bump))
                    &&& w == (Withdrawal {
                        creator: old(profile).address,
                        amount,
                        timestamp: now,
                        bump: w.bump,
                    })
                    &&& final(authority).key == old(authority).key
                    &&& final(authority).lamports == old(authority).lamports + amount
                    &&& final(profile).address == old(profile).address
                    &&& final(profile).lamports == old(profile).lamports - amount
                    &&& final(profile).data == withdrawn(old(profile).data, amount, now)
                },
                Err(_) => false,
            },
        },
        next_profile(old(profile).data, final(profile).data),
        old(profile).data.wf() ==> final(profile).data.wf(),
{
    let creator_seeds = build_creator_seeds(&authority.key);
    check_address(&creator_seeds, profile.data.bump, program_id, &profile.address)?;
    if !profile.data.authority.same(&authority.key) {
        return Err(ErrorCode::UnauthorizedAccess);
    }
    if amount == 0 {
        return Err(ErrorCode::InvalidWithdrawalAmount);
    }
    if profile.data.tips_balance < amount {
        return Err(ErrorCode::InsufficientTipsBalance);
    }
    if profile.lamports < amount {
        return Err(ErrorCode::InsufficientFunds);
    }
    let wallet = match authority.lamports.checked_add(amount) {
        Some(v) => v,
        None => return Err(ErrorCode::Overflow),
    };
    let tips_balance = match profile.data.tips_balance.checked_sub(amount) {
        Some(v) => v,
        None => return Err(ErrorCode::Overflow),
    };
    let withdrawal_count = match profile.data.withdrawal_count.checked_add(1) {
        Some(v) => v,
        None => return Err(ErrorCode::Overflow),
    };
    let seeds = build_withdrawal_seeds(&authority.key, profile.data.withdrawal_count);
    let (address, bump) = derive_address(&seeds, program_id)?;
    let ghost before = profile.data;
    profile.lamports = profile.lamports - amount;
    authority.lamports = wallet;
    profile.data.tips_balance = tips_balance;
    profile.data.withdrawal_count = withdrawal_count;
    profile.data.last_withdrawal = now;
    assert(profile.data == withdrawn(before, amount, now));
    let record = Withdrawal { creator: profile.address, amount, timestamp: now, bump };
    Ok((address, record))
}

} // verus!
