use crate::errors::ErrorCode;
use crate::key::Key;
use crate::pda::{derivation, derive_address};
use crate::seeds::{build_creator_seeds, creator_seeds};
use crate::states::{fresh_profile, profile_text_error, validate_profile_text, Creator};
use vstd::prelude::*;

verus! {

/// Validates a new profile for `authority` and builds it, with the address
/// derived from the owner's key.
pub fn handler(program_id: &Key, authority: &Key, name: String, bio: String, now: i64) -> (r:
    Result<(Key, Creator), ErrorCode>)
    ensures
        match profile_text_error(name@, bio@) {
            Some(e) => r == Err::<(Key, Creator), ErrorCode>(e),
            None => match derivation(creator_seeds(authority@), program_id@) {
                None => r == Err::<(Key, Creator), ErrorCode>(ErrorCode::NoViableAddress),
                Some((addr, bump)) => match r {
                    Ok((k, c)) => k@ == addr && c == fresh_profile(*authority, name, bio, now, bump),
                    Err(_) => false,
                },
            },
        },
        r matches Ok((_, c)) ==> c.wf(),
{
    validate_profile_text(&name, &bio)?;
    let seeds = build_creator_seeds(authority);
    let (address, bump) = derive_address(&seeds, program_id)?;
    let creator = Creator {
        authority: *authority,
        name,
        bio,
        total_tips: 0,
        tip_count: 0,
        withdrawal_count: 0,
        tips_balance: 0,
        created_at: now,
        last_withdrawal: 0,
        bump,
    };
    Ok((address, creator))
}

} // verus!
