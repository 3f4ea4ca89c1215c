use vstd::prelude::*;

verus! {

/// Every way an operation on the tip jar can fail. A failed operation leaves
/// every account it was handed unchanged.
#[derive(Clone, Copy, Debug, PartialEq, Eq, Structural)]
pub enum ErrorCode {
    /// Creator name is longer than 32 bytes.
    NameTooLong,
    /// Creator bio is longer than 200 bytes.
    BioTooLong,
    /// Tip message is longer than 140 bytes.
    MessageTooLong,
    /// Tip amount is zero.
    InvalidTipAmount,
    /// Only the creator can perform this action.
    Unauthorized,
    /// The profile is owned by someone other than the caller.
    UnauthorizedAccess,
    /// Creator name is empty.
    NameEmpty,
    /// A checked addition or subtraction would leave the range of `u64`.
    Overflow,
    /// The withdrawal asks for more than the withdrawable balance.
    InsufficientTipsBalance,
    /// Withdrawal amount is zero.
    InvalidWithdrawalAmount,
    /// The tipper owns the profile being tipped.
    CannotTipSelf,
    /// A record already occupies the derived address.
    AlreadyExists,
    /// No record is stored at the given address.
    AccountNotFound,
    /// A record's address does not match the one derived from its stored
    /// key material and bump.
    AddressMismatch,
    /// No bump yields a valid program address for the given seeds.
    NoViableAddress,
    /// The paying account holds fewer lamports than the transfer moves.
    InsufficientFunds,
}

} // verus!
