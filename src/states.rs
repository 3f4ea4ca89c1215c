use crate::errors::ErrorCode;
use crate::key::Key;
use vstd::prelude::*;
use vstd::utf8::encode_utf8;

verus! {

/// Maximum length of a creator name, in bytes.
pub const MAX_NAME_LEN: usize = 32;

/// Maximum length of a creator bio, in bytes.
pub const MAX_BIO_LEN: usize = 200;

/// Maximum length of a tip message, in bytes.
pub const MAX_MESSAGE_LEN: usize = 140;

/// Length of the UTF-8 encoding of a string, as `str::len` reports it.
pub open spec fn byte_len(s: Seq<char>) -> usize {
    encode_utf8(s).len() as usize
}

/// Byte length of a string, as stored.
pub fn text_len(s: &String) -> (r: usize)
    ensures
        r == byte_len(s@),
{
    let r = s.as_str().len();
    r
}

/// A creator's profile.
#[derive(Clone, Debug, PartialEq, Eq)]
pub struct Creator {
    /// The wallet that owns the profile.
    pub authority: Key,
    pub name: String,
    pub bio: String,
    /// Lifetime sum of tips received.
    pub total_tips: u64,
    /// Number of tips received.
    pub tip_count: u64,
    /// Number of withdrawals made.
    pub withdrawal_count: u64,
    /// Balance currently available for withdrawal.
    pub tips_balance: u64,
    /// Unix time of creation.
    pub created_at: i64,
    /// Unix time of the last withdrawal; 0 before the first one.
    pub last_withdrawal: i64,
    /// Bump of the profile's program address.
    pub bump: u8,
}

/// One received tip.
#[derive(Clone, Debug, PartialEq, Eq)]
pub struct Tip {
    /// Address of the profile that received the tip.
    pub creator: Key,
    /// Wallet that sent the tip.
    pub tipper: Key,
    /// Lamports sent.
    pub amount: u64,
    pub message: String,
    /// Unix time of the tip.
    pub timestamp: i64,
    /// Bump of the record's program address.
    pub bump: u8,
}

/// One withdrawal.
#[derive(Clone, Debug, PartialEq, Eq)]
pub struct Withdrawal {
    /// Address of the profile withdrawn from.
    pub creator: Key,
    /// Lamports withdrawn.
    pub amount: u64,
    /// Unix time of the withdrawal.
    pub timestamp: i64,
    /// Bump of the record's program address.
    pub bump: u8,
}

impl Creator {
    /// Bytes reserved for a stored profile: an 8-byte type tag, the owner,
    /// both strings at their maximum length with 4-byte length prefixes,
    /// four counters, two timestamps and the bump.
    pub fn space() -> (r: usize)
        ensures
            r == 8 + 32 + (4 + MAX_NAME_LEN) + (4 + MAX_BIO_LEN) + 8 + 8 + 8 + 8 + 8 + 8 + 1,
    {
        8 + 32 + (4 + MAX_NAME_LEN) + (4 + MAX_BIO_LEN) + 8 + 8 + 8 + 8 + 8 + 8 + 1
    }

    /// The balance never exceeds the lifetime total.
    pub open spec fn wf(&self) -> bool {
        self.tips_balance <= self.total_tips
    }
}

impl Tip {
    /// Bytes reserved for a stored tip: type tag, two keys, amount, the
    /// message at its maximum length with a length prefix, timestamp, bump.
    pub fn space() -> (r: usize)
        ensures
            r == 8 + 32 + 32 + 8 + (4 + MAX_MESSAGE_LEN) + 8 + 1,
    {
        8 + 32 + 32 + 8 + (4 + MAX_MESSAGE_LEN) + 8 + 1
    }
}

impl Withdrawal {
    /// Bytes reserved for a stored withdrawal: type tag, key, amount,
    /// timestamp, bump.
    pub fn space() -> (r: usize)
        ensures
            r == 8 + 32 + 8 + 8 + 1,
    {
        8 + 32 + 8 + 8 + 1
    }
}

/// A wallet: a signer's key and the lamports it holds.
#[derive(Clone, Copy, Debug, PartialEq, Eq)]
pub struct Wallet {
    pub key: Key,
    pub lamports: u64,
}

/// A stored profile: its address, the lamports held in custody under it,
/// and the profile itself.
#[derive(Clone, Debug, PartialEq, Eq)]
pub struct ProfileAccount {
    pub address: Key,
    pub lamports: u64,
    pub data: Creator,
}

/// A newly created profile: every counter zero, no withdrawal yet.
pub open spec fn fresh_profile(authority: Key, name: String, bio: String, now: i64, bump: u8) -> Creator {
    Creator {
        authority,
        name,
        bio,
        total_tips: 0,
        tip_count: 0,
        withdrawal_count: 0,
        tips_balance: 0,
        created_at: now,
        last_withdrawal: 0,
        bump,
    }
}

/// Whether recording a tip of `amount` would overflow one of the counters.
pub open spec fn tip_overflows(c: Creator, amount: u64) -> bool {
    ||| c.total_tips + amount > u64::MAX
    ||| c.tip_count + 1 > u64::MAX
    ||| c.tips_balance + amount > u64::MAX
}

/// The profile after a tip of `amount` (where no counter overflows).
pub open spec fn tipped(c: Creator, amount: u64) -> Creator {
    Creator {
        total_tips: (c.total_tips + amount) as u64,
        tip_count: (c.tip_count + 1) as u64,
        tips_balance: (c.tips_balance + amount) as u64,
        ..c
    }
}

/// The profile after a withdrawal of `amount` at time `now` (where the
/// balance covers it and the count does not overflow).
pub open spec fn withdrawn(c: Creator, amount: u64, now: i64) -> Creator {
    Creator {
        tips_balance: (c.tips_balance - amount) as u64,
        withdrawal_count: (c.withdrawal_count + 1) as u64,
        last_withdrawal: now,
        ..c
    }
}

/// The profile with a new name and bio.
pub open spec fn renamed(c: Creator, name: String, bio: String) -> Creator {
    Creator { name, bio, ..c }
}

/// One successful operation, or a failed one, takes profile `c` to `d`.
pub open spec fn next_profile(c: Creator, d: Creator) -> bool {
    ||| d == c
    ||| exists|a: u64| 0 < a && !tip_overflows(c, a) && d == #[trigger] tipped(c, a)
    ||| exists|a: u64, t: i64|
        0 < a <= c.tips_balance && c.withdrawal_count < u64::MAX && d == #[trigger] withdrawn(
            c,
            a,
            t,
        )
    ||| exists|n: String, b: String| d == #[trigger] renamed(c, n, b)
}

/// The first check that a profile's name and bio fail, if any.
pub open spec fn profile_text_error(name: Seq<char>, bio: Seq<char>) -> Option<ErrorCode> {
    if byte_len(name) == 0 {
        Some(ErrorCode::NameEmpty)
    } else if byte_len(name) > MAX_NAME_LEN {
        Some(ErrorCode::NameTooLong)
    } else if byte_len(bio) > MAX_BIO_LEN {
        Some(ErrorCode::BioTooLong)
    } else {
        None
    }
}

/// Checks a profile's name and bio.
pub fn validate_profile_text(name: &String, bio: &String) -> (r: Result<(), ErrorCode>)
    ensures
        match profile_text_error(name@, bio@) {
            Some(e) => r == Err::<(), ErrorCode>(e),
            None => r is Ok,
        },
{
    let name_len = text_len(name);
    if name_len == 0 {
        return Err(ErrorCode::NameEmpty);
    }
    if name_len > MAX_NAME_LEN {
        return Err(ErrorCode::NameTooLong);
    }
    if text_len(bio) > MAX_BIO_LEN {
        return Err(ErrorCode::BioTooLong);
    }
    Ok(())
}

} // verus!
