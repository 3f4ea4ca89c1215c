use crate::errors::ErrorCode;
use crate::key::Key;
use crate::pda::{check_address, program_address, with_bump};
use crate::seeds::{build_creator_seeds, creator_seeds};
use crate::states::{next_profile, profile_text_error, renamed, validate_profile_text, ProfileAccount};
use vstd::prelude::*;

verus! {

/// The first check that an update of `profile` by `authority` fails, if any.
pub open spec fn update_error(
    program_id: Seq<u8>,
    authority: Seq<u8>,
    profile: ProfileAccount,
    name: Seq<char>,
    bio: Seq<char>,
) -> Option<ErrorCode> {
    if program_address(with_bump(creator_seeds(authority), profile.data.bump), program_id) != Some(
        profile.address@,
    ) {
        Some(ErrorCode::AddressMismatch)
    } else if profile.data.authority@ != authority {
        Some(ErrorCode::UnauthorizedAccess)
    } else {
        profile_text_error(name, bio)
    }
}

/// Replaces the name and bio of the profile that `authority` owns. Counters,
/// timestamps and lamports are untouched.
pub fn handler(
    program_id: &Key,
    authority: &Key,
    profile: &mut ProfileAccount,
    name: String,
    bio: String,
) -> (r: Result<(), ErrorCode>)
    ensures
        match update_error(program_id@, authority@, *old(profile), name@, bio@) {
            Some(e) => r == Err::<(), ErrorCode>(e) && *final(profile) == *old(profile),
            None => r is Ok && *final(profile) == (ProfileAccount {
                data: renamed(old(profile).data, name, bio),
                ..*old(profile)
            }),
        },
        next_profile(old(profile).data, final(profile).data),
        old(profile).data.wf() ==> final(profile).data.wf(),
{
    let seeds = build_creator_seeds(authority);
    check_address(&seeds, profile.data.bump, program_id, &profile.address)?;
    if !profile.data.authority.same(authority) {
        return Err(ErrorCode::UnauthorizedAccess);
    }
    validate_profile_text(&name, &bio)?;
    let ghost before = profile.data;
    profile.data.name = name;
    profile.data.bio = bio;
    assert(profile.data == renamed(before, name, bio));
    Ok(())
}

} // verus!
