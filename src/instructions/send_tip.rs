use crate::errors::ErrorCode;
use crate::key::Key;
use crate::pda::{check_address, derivation, derive_address, program_address, with_bump};
use crate::seeds::{build_creator_seeds, build_tip_seeds, creator_seeds, tip_seeds};
use crate::states::{
    byte_len, next_profile, text_len, tip_overflows, tipped, ProfileAccount, Tip, Wallet,
    MAX_MESSAGE_LEN,
};
use vstd::prelude::*;

verus! {

/// The first check that a tip fails, if any.
pub open spec fn tip_error(
    program_id: Seq<u8>,
    tipper: Wallet,
    profile: ProfileAccount,
    amount: u64,
    message: Seq<char>,
) -> Option<ErrorCode> {
    let c = profile.data;
    if amount == 0 {
        Some(ErrorCode::InvalidTipAmount)
    } else if byte_len(message) > MAX_MESSAGE_LEN {
        Some(ErrorCode::MessageTooLong)
    } else if program_address(with_bump(creator_seeds(c.authority@), c.bump), program_id) != Some(
        profile.address@,
    ) {
        Some(ErrorCode::AddressMismatch)
    } else if tipper.key@ == c.authority@ {
        Some(ErrorCode::CannotTipSelf)
    } else if derivation(tip_seeds(profile.address@, tipper.key@, c.tip_count), program_id) is None {
        Some(ErrorCode::NoViableAddress)
    } else if tipper.lamports < amount {
        Some(ErrorCode::InsufficientFunds)
    } else if profile.lamports + amount > u64::MAX || tip_overflows(c, amount) {
        Some(ErrorCode::Overflow)
    } else {
        None
    }
}

/// Moves `amount` lamports from the tipper's wallet into the profile's
/// custody, counts the tip on the profile, and returns the tip record with
/// its address. The address is derived from the profile's tip count before
/// the tip, so successive tips land at distinct addresses. On any failure
/// both accounts are left as they were.
pub fn handler(
    program_id: &Key,
    tipper: &mut Wallet,
    profile: &mut ProfileAccount,
    amount: u64,
    message: String,
    now: i64,
) -> (r: Result<(Key, Tip), ErrorCode>)
    ensures
        match tip_error(program_id@, *old(tipper), *old(profile), amount, message@) {
            Some(e) => {
                &&& r == Err::<(Key, Tip), ErrorCode>(e)
                &&& *final(tipper) == *old(tipper)
                &&& *final(profile) == *old(profile)
            },
            None => match r {
                Ok((k, t)) => {
                    &&& derivation(
                        tip_seeds(old(profile).address@, old(tipper).key@, old(profile).data.tip_count),
                        program_id@,
                    ) == Some((k@, t.bump))
                    &&& t == (Tip {
                        creator: old(profile).address,
                        tipper: old(tipper).key,
                        amount,
                        message,
                        timestamp: now,
                        bump: t.bump,
                    })
                    &&& final(tipper).key == old(tipper).key
                    &&& final(tipper).lamports == old(tipper).lamports - amount
                    &&& final(profile).address == old(profile).address
                    &&& final(profile).lamports == old(profile).lamports + amount
                    &&& final(profile).data == tipped(old(profile).data, amount)
                },
                Err(_) => false,
            },
        },
        next_profile(old(profile).data, final(profile).data),
        old(profile).data.wf() ==> final(profile).data.wf(),
{
    if amount == 0 {
        return Err(ErrorCode::InvalidTipAmount);
    }
    if text_len(&message) > MAX_MESSAGE_LEN {
        return Err(ErrorCode::MessageTooLong);
    }
    let creator_seeds = build_creator_seeds(&profile.data.authority);
    check_address(&creator_seeds, profile.data.bump, program_id, &profile.address)?;
    if tipper.key.same(&profile.data.authority) {
        return Err(ErrorCode::CannotTipSelf);
    }
    let seeds = build_tip_seeds(&profile.address, &tipper.key, profile.data.tip_count);
    let (address, bump) = derive_address(&seeds, program_id)?;
    if tipper.lamports < amount {
        return Err(ErrorCode::InsufficientFunds);
    }
    let custody = match profile.lamports.checked_add(amount) {
        Some(v) => v,
        None => return Err(ErrorCode::Overflow),
    };
    let total_tips = match profile.data.total_tips.checked_add(amount) {
        Some(v) => v,
        None => return Err(ErrorCode::Overflow),
    };
    let tip_count = match profile.data.tip_count.checked_add(1) {
        Some(v) => v,
        None => return Err(ErrorCode::Overflow),
    };
    let tips_balance = match profile.data.tips_balance.checked_add(amount) {
        Some(v) => v,
        None => return Err(ErrorCode::Overflow),
    };
    let ghost before = profile.data;
    tipper.lamports = tipper.lamports - amount;
    profile.lamports = custody;
    profile.data.total_tips = total_tips;
    profile.data.tip_count = tip_count;
    profile.data.tips_balance = tips_balance;
    assert(profile.data == tipped(before, amount));
    let tip = Tip {
        creator: profile.address,
        tipper: tipper.key,
        amount,
        message,
        timestamp: now,
        bump,
    };
    Ok((address, tip))
}

} // verus!
