use crate::errors::ErrorCode;
use crate::instructions::{create_creator_profile, send_tip, update_profile, withdraw_tips};
use crate::instructions::send_tip::tip_error;
use crate::instructions::update_profile::update_error;
use crate::instructions::withdraw_tips::withdraw_error;
use crate::key::Key;
use crate::pda::{derivation, derive_address};
use crate::seeds::{build_creator_seeds, build_tip_seeds, build_withdrawal_seeds, creator_seeds, tip_seeds, withdrawal_seeds};
use crate::states::{
    byte_len, fresh_profile, profile_text_error, renamed, text_len, tipped, withdrawn,
    ProfileAccount, Tip, Wallet, Withdrawal, MAX_MESSAGE_LEN,
};
use vstd::prelude::*;

verus! {

/// The records of one tip-jar program, each at its address: profiles, tips
/// and withdrawals. Records are created only at free addresses and never
/// removed.
pub struct TipJar {
    pub program_id: Key,
    pub profiles: Vec<ProfileAccount>,
    pub tips: Vec<(Key, Tip)>,
    pub withdrawals: Vec<(Key, Withdrawal)>,
}

impl TipJar {
    /// Some record is stored at `a`.
    pub open spec fn occupied(&self, a: Seq<u8>) -> bool {
        ||| exists|i: int| 0 <= i < self.profiles.len() && (#[trigger] self.profiles[i]).address@ == a
        ||| exists|i: int| 0 <= i < self.tips.len() && (#[trigger] self.tips[i]).0@ == a
        ||| exists|i: int| 0 <= i < self.withdrawals.len() && (#[trigger] self.withdrawals[i]).0@ == a
    }

    /// Both stores hold the same records for the same program.
    pub open spec fn same_records(&self, other: &TipJar) -> bool {
        &&& self.program_id == other.program_id
        &&& self.profiles@ == other.profiles@
        &&& self.tips@ == other.tips@
        &&& self.withdrawals@ == other.withdrawals@
    }

    /// `i` is the first profile stored at `a`.
    pub open spec fn is_profile_at(&self, i: int, a: Seq<u8>) -> bool {
        &&& 0 <= i < self.profiles.len()
        &&& self.profiles[i].address@ == a
        &&& forall|j: int| 0 <= j < i ==> (#[trigger] self.profiles[j]).address@ != a
    }

    pub open spec fn has_profile(&self, a: Seq<u8>) -> bool {
        exists|i: int| 0 <= i < self.profiles.len() && (#[trigger] self.profiles[i]).address@ == a
    }

    /// Every stored profile keeps its balance within its lifetime total.
    pub open spec fn wf(&self) -> bool {
        forall|i: int| 0 <= i < self.profiles.len() ==> (#[trigger] self.profiles[i]).data.wf()
    }

    /// An empty store for the program `program_id`.
    pub fn new(program_id: Key) -> (r: TipJar)
        ensures
            r.program_id == program_id,
            r.profiles@.len() == 0,
            r.tips@.len() == 0,
            r.withdrawals@.len() == 0,
            r.wf(),
    {
        TipJar { program_id, profiles: Vec::new(), tips: Vec::new(), withdrawals: Vec::new() }
    }

    /// The index of the first profile stored at `address`.
    pub fn find_profile(&self, address: &Key) -> (r: Option<usize>)
        ensures
            match r {
                Some(i) => self.is_profile_at(i as int, address@),
                None => !self.has_profile(address@),
            },
    {
        let mut i: usize = 0;
        while i < self.profiles.len()
            invariant
                0 <= i <= self.profiles.len(),
                forall|j: int| 0 <= j < i ==> (#[trigger] self.profiles[j]).address@ != address@,
            decreases self.profiles.len() - i,
        {
            if self.profiles[i].address.same(address) {
                return Some(i);
            }
            i = i + 1;
        }
        None
    }

    /// Whether some record is stored at `address`.
    pub fn is_occupied(&self, address: &Key) -> (r: bool)
        ensures
            r == self.occupied(address@),
    {
        if self.find_profile(address).is_some() {
            return true;
        }
        let mut i: usize = 0;
        while i < self.tips.len()
            invariant
                0 <= i <= self.tips.len(),
                forall|j: int| 0 <= j < i ==> (#[trigger] self.tips[j]).0@ != address@,
            decreases self.tips.len() - i,
        {
            if self.tips[i].0.same(address) {
                return true;
            }
            i = i + 1;
        }
        let mut i: usize = 0;
        while i < self.withdrawals.len()
            invariant
                0 <= i <= self.withdrawals.len(),
                forall|j: int| 0 <= j < i ==> (#[trigger] self.withdrawals[j]).0@ != address@,
                forall|j: int| 0 <= j < self.tips.len() ==> (#[trigger] self.tips[j]).0@ != address@,
                !self.has_profile(address@),
            decreases self.withdrawals.len() - i,
        {
            if self.withdrawals[i].0.same(address) {
                return true;
            }
            i = i + 1;
        }
        false
    }

    /// Creates the profile of `authority`, at the address derived from the
    /// owner's key, with every counter zero and no lamports in custody. A
    /// second profile for the same owner is refused.
    pub fn create_creator_profile(
        &mut self,
        authority: &Key,
        name: String,
        bio: String,
        now: i64,
    ) -> (r: Result<Key, ErrorCode>)
        ensures
            final(self).program_id == old(self).program_id,
            final(self).tips == old(self).tips,
            final(self).withdrawals == old(self).withdrawals,
            match profile_text_error(name@, bio@) {
                Some(e) => r == Err::<Key, ErrorCode>(e) && final(self).same_records(old(self)),
                None => match derivation(creator_seeds(authority@), old(self).program_id@) {
                    None => r == Err::<Key, ErrorCode>(ErrorCode::NoViableAddress) && final(self).same_records(old(self)),
                    Some((addr, bump)) => if old(self).occupied(addr) {
                        r == Err::<Key, ErrorCode>(ErrorCode::AlreadyExists) && final(self).same_records(old(self))
                    } else {
                        match r {
                            Ok(k) => k@ == addr && final(self).profiles@ == old(self).profiles@.push(
                                ProfileAccount {
                                    address: k,
                                    lamports: 0,
                                    data: fresh_profile(*authority, name, bio, now, bump),
                                },
                            ),
                            Err(_) => false,
                        }
                    },
                },
            },
            old(self).wf() ==> final(self).wf(),
    {
        let (address, creator) = create_creator_profile::handler(
            &self.program_id,
            authority,
            name,
            bio,
            now,
        )?;
        if self.is_occupied(&address) {
            return Err(ErrorCode::AlreadyExists);
        }
        self.profiles.push(ProfileAccount { address, lamports: 0, data: creator });
        proof {
            assert forall|i: int| 0 <= i < old(self).profiles.len() implies (#[trigger] old(
                self,
            ).profiles[i]) == self.profiles[i] by {}
        }
        Ok(address)
    }

    /// At most one index is the first profile stored at an address.
    pub proof fn lemma_profile_at_unique(&self, i: int, j: int, a: Seq<u8>)
        requires
            self.is_profile_at(i, a),
            self.is_profile_at(j, a),
        ensures
            i == j,
    {
        if i < j {
            assert(self.profiles[i].address@ != a);
        } else if j < i {
            assert(self.profiles[j].address@ != a);
        }
    }

    /// The address that a tip from `tipper` to `p` would take is derivable
    /// and already holds a record.
    pub open spec fn tip_address_taken(&self, p: ProfileAccount, tipper: Seq<u8>) -> bool {
        match derivation(tip_seeds(p.address@, tipper, p.data.tip_count), self.program_id@) {
            Some((a, _)) => self.occupied(a),
            None => false,
        }
    }

    /// The address that the next withdrawal by `owner` from `p` would take
    /// is derivable and already holds a record.
    pub open spec fn withdrawal_address_taken(&self, p: ProfileAccount, owner: Seq<u8>) -> bool {
        match derivation(withdrawal_seeds(owner, p.data.withdrawal_count), self.program_id@) {
            Some((a, _)) => self.occupied(a),
            None => false,
        }
    }

    /// Replaces the name and bio of the profile of `authority`, found at the
    /// address derived from the caller's key.
    pub fn update_profile(&mut self, authority: &Key, name: String, bio: String) -> (r: Result<
        (),
        ErrorCode,
    >)
        ensures
            final(self).program_id == old(self).program_id,
            final(self).tips == old(self).tips,
            final(self).withdrawals == old(self).withdrawals,
            match derivation(creator_seeds(authority@), old(self).program_id@) {
                None => r == Err::<(), ErrorCode>(ErrorCode::NoViableAddress) && final(self).same_records(old(self)),
                Some((addr, _)) => if !old(self).has_profile(addr) {
                    r == Err::<(), ErrorCode>(ErrorCode::AccountNotFound) && final(self).same_records(old(self))
                } else {
                    forall|i: int|
                        old(self).is_profile_at(i, addr) ==> match update_error(
                            old(self).program_id@,
                            authority@,
                            #[trigger] old(self).profiles[i],
                            name@,
                            bio@,
                        ) {
                            Some(e) => r == Err::<(), ErrorCode>(e) && final(self).same_records(old(self)),
                            None => r is Ok && final(self).profiles@ == old(self).profiles@.update(
                                i,
                                ProfileAccount {
                                    data: renamed(old(self).profiles[i].data, name, bio),
                                    ..old(self).profiles[i]
                                },
                            ),
                        }
                },
            },
            old(self).wf() ==> final(self).wf(),
    {
        let program_id = self.program_id;
        let seeds = build_creator_seeds(authority);
        let (address, _) = derive_address(&seeds, &program_id)?;
        let i = match self.find_profile(&address) {
            Some(i) => i,
            None => return Err(ErrorCode::AccountNotFound),
        };
        proof {
            assert forall|j: int| old(self).is_profile_at(j, address@) implies j == i as int by {
                old(self).lemma_profile_at_unique(j, i as int, address@);
            }
        }
        let r = update_profile::handler(&program_id, authority, &mut self.profiles[i], name, bio);
        proof {
            if r is Err {
                assert(self.profiles@ =~= old(self).profiles@);
            }
        }
        r
    }

    /// Sends a tip of `amount` lamports from `tipper` to the profile stored
    /// at `profile_address`, and stores the tip record.
    pub fn send_tip(
        &mut self,
        tipper: &mut Wallet,
        profile_address: &Key,
        amount: u64,
        message: String,
        now: i64,
    ) -> (r: Result<Key, ErrorCode>)
        ensures
            final(self).program_id == old(self).program_id,
            final(self).withdrawals == old(self).withdrawals,
            if amount == 0 {
                r == Err::<Key, ErrorCode>(ErrorCode::InvalidTipAmount) && final(self).same_records(old(self))
                    && *final(tipper) == *old(tipper)
            } else if byte_len(message@) > MAX_MESSAGE_LEN {
                r == Err::<Key, ErrorCode>(ErrorCode::MessageTooLong) && final(self).same_records(old(self))
                    && *final(tipper) == *old(tipper)
            } else if !old(self).has_profile(profile_address@) {
                r == Err::<Key, ErrorCode>(ErrorCode::AccountNotFound) && final(self).same_records(old(self))
                    && *final(tipper) == *old(tipper)
            } else {
                forall|i: int|
                    old(self).is_profile_at(i, profile_address@) ==> {
                        let p = #[trigger] old(self).profiles[i];
                        if old(self).tip_address_taken(p, old(tipper).key@) {
                            r == Err::<Key, ErrorCode>(ErrorCode::AlreadyExists) && final(self).same_records(old(self)) && *final(tipper) == *old(tipper)
                        } else {
                            match tip_error(old(self).program_id@, *old(tipper), p, amount, message@) {
                                Some(e) => r == Err::<Key, ErrorCode>(e) && final(self).same_records(old(self))
                                    && *final(tipper) == *old(tipper),
                                None => match r {
                                    Ok(k) => {
                                        &&& final(tipper).key == old(tipper).key
                                        &&& final(tipper).lamports == old(tipper).lamports - amount
                                        &&& final(self).profiles@ == old(self).profiles@.update(
                                            i,
                                            ProfileAccount {
                                                lamports: (p.lamports + amount) as u64,
                                                data: tipped(p.data, amount),
                                                ..p
                                            },
                                        )
                                        &&& final(self).tips@.len() == old(self).tips@.len() + 1
                                        &&& final(self).tips@.drop_last() == old(self).tips@
                                        &&& final(self).tips@.last().0 == k
                                        &&& derivation(
                                            tip_seeds(p.address@, old(tipper).key@, p.data.tip_count),
                                            old(self).program_id@,
                                        ) == Some((k@, final(self).tips@.last().1.bump))
                                        &&& final(self).tips@.last().1 == (Tip {
                                            creator: p.address,
                                            tipper: old(tipper).key,
                                            amount,
                                            message,
                                            timestamp: now,
                                            bump: final(self).tips@.last().1.bump,
                                        })
                                    },
                                    Err(_) => false,
                                },
                            }
                        }
                    }
            },
            old(self).wf() ==> final(self).wf(),
    {
        if amount == 0 {
            return Err(ErrorCode::InvalidTipAmount);
        }
        if text_len(&message) > MAX_MESSAGE_LEN {
            return Err(ErrorCode::MessageTooLong);
        }
        let program_id = self.program_id;
        let i = match self.find_profile(profile_address) {
            Some(i) => i,
            None => return Err(ErrorCode::AccountNotFound),
        };
        proof {
            assert forall|j: int| old(self).is_profile_at(j, profile_address@) implies j == i as int by {
                old(self).lemma_profile_at_unique(j, i as int, profile_address@);
            }
        }
        let seeds = build_tip_seeds(
            &self.profiles[i].address,
            &tipper.key,
            self.profiles[i].data.tip_count,
        );
        if let Ok((taken, _)) = derive_address(&seeds, &program_id) {
            if self.is_occupied(&taken) {
                return Err(ErrorCode::AlreadyExists);
            }
        }
        let ghost before = self.profiles@;
        let r = send_tip::handler(&program_id, tipper, &mut self.profiles[i], amount, message, now);
        match r {
            Ok((k, t)) => {
                self.tips.push((k, t));
                proof {
                    assert(self.tips@.drop_last() =~= old(self).tips@);
                }
                Ok(k)
            },
            Err(e) => {
                proof {
                    assert(self.profiles@ =~= before);
                }
                Err(e)
            },
        }
    }

    /// Withdraws `amount` lamports from the profile of `authority`, found at
    /// the address derived from the caller's key, into the caller's wallet,
    /// and stores the withdrawal record.
    pub fn withdraw_tips(&mut self, authority: &mut Wallet, amount: u64, now: i64) -> (r: Result<
        Key,
        ErrorCode,
    >)
        ensures
            final(self).program_id == old(self).program_id,
            final(self).tips == old(self).tips,
            match derivation(creator_seeds(old(authority).key@), old(self).program_id@) {
                None => r == Err::<Key, ErrorCode>(ErrorCode::NoViableAddress) && final(self).same_records(old(self)) && *final(authority) == *old(authority),
                Some((addr, _)) => if !old(self).has_profile(addr) {
                    r == Err::<Key, ErrorCode>(ErrorCode::AccountNotFound) && final(self).same_records(old(self)) && *final(authority) == *old(authority)
                } else {
                    forall|i: int|
                        old(self).is_profile_at(i, addr) ==> {
                            let p = #[trigger] old(self).profiles[i];
                            if old(self).withdrawal_address_taken(p, old(authority).key@) {
                                r == Err::<Key, ErrorCode>(ErrorCode::AlreadyExists) && final(self).same_records(old(self)) && *final(authority) == *old(authority)
                            } else {
                                match withdraw_error(old(self).program_id@, *old(authority), p, amount) {
                                    Some(e) => r == Err::<Key, ErrorCode>(e) && final(self).same_records(old(self)) && *final(authority) == *old(authority),
                                    None => match r {
                                        Ok(k) => {
                                            &&& final(authority).key == old(authority).key
                                            &&& final(authority).lamports == old(authority).lamports
                                                + amount
                                            &&& final(self).profiles@ == old(self).profiles@.update(
                                                i,
                                                ProfileAccount {
                                                    lamports: (p.lamports - amount) as u64,
                                                    data: withdrawn(p.data, amount, now),
                                                    ..p
                                                },
                                            )
                                            &&& final(self).withdrawals@.len() == old(
                                                self,
                                            ).withdrawals@.len() + 1
                                            &&& final(self).withdrawals@.drop_last() == old(
                                                self,
                                            ).withdrawals@
                                            &&& final(self).withdrawals@.last().0 == k
                                            &&& derivation(
                                                withdrawal_seeds(
                                                    old(authority).key@,
                                                    p.data.withdrawal_count,
                                                ),
                                                old(self).program_id@,
                                            ) == Some((k@, final(self).withdrawals@.last().1.bump))
                                            &&& final(self).withdrawals@.last().1 == (Withdrawal {
                                                creator: p.address,
                                                amount,
                                                timestamp: now,
                                                bump: final(self).withdrawals@.last().1.bump,
                                            })
                                        },
                                        Err(_) => false,
                                    },
                                }
                            }
                        }
                },
            },
            old(self).wf() ==> final(self).wf(),
    {
        let program_id = self.program_id;
        let seeds = build_creator_seeds(&authority.key);
        let (address, _) = derive_address(&seeds, &program_id)?;
        let i = match self.find_profile(&address) {
            Some(i) => i,
            None => return Err(ErrorCode::AccountNotFound),
        };
        proof {
            assert forall|j: int| old(self).is_profile_at(j, address@) implies j == i as int by {
                old(self).lemma_profile_at_unique(j, i as int, address@);
            }
        }
        let seeds = build_withdrawal_seeds(&authority.key, self.profiles[i].data.withdrawal_count);
        if let Ok((taken, _)) = derive_address(&seeds, &program_id) {
            if self.is_occupied(&taken) {
                return Err(ErrorCode::AlreadyExists);
            }
        }
        let ghost before = self.profiles@;
        let r = withdraw_tips::handler(&program_id, authority, &mut self.profiles[i], amount, now);
        match r {
            Ok((k, w)) => {
                self.withdrawals.push((k, w));
                proof {
                    assert(self.withdrawals@.drop_last() =~= old(self).withdrawals@);
                }
                Ok(k)
            },
            Err(e) => {
                proof {
                    assert(self.profiles@ =~= before);
                }
                Err(e)
            },
        }
    }
}

} // verus!
