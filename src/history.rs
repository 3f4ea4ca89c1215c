use crate::key::Key;
use crate::states::{fresh_profile, next_profile, renamed, tip_overflows, tipped, withdrawn, Creator};
use vstd::prelude::*;

verus! {

/// `h` is a run of one profile's states, each taken from the one before by
/// an operation (or a failed one).
pub open spec fn is_history(h: Seq<Creator>) -> bool {
    forall|i: int| 0 <= i < h.len() - 1 ==> next_profile(#[trigger] h[i], h[i + 1])
}

/// A newly created profile has zero counters and a zero balance.
pub proof fn lemma_fresh_profile_zero(authority: Key, name: String, bio: String, now: i64, bump: u8)
    ensures
        fresh_profile(authority, name, bio, now, bump).tips_balance == 0,
        fresh_profile(authority, name, bio, now, bump).total_tips == 0,
        fresh_profile(authority, name, bio, now, bump).tip_count == 0,
        fresh_profile(authority, name, bio, now, bump).withdrawal_count == 0,
        fresh_profile(authority, name, bio, now, bump).wf(),
{
}

/// One step keeps the balance within the lifetime total and never lowers
/// the total, the tip count or the withdrawal count.
pub proof fn lemma_step(c: Creator, d: Creator)
    requires
        next_profile(c, d),
    ensures
        c.wf() ==> d.wf(),
        c.total_tips <= d.total_tips,
        c.tip_count <= d.tip_count,
        c.withdrawal_count <= d.withdrawal_count,
{
    if d == c {
    } else if exists|a: u64| 0 < a && !tip_overflows(c, a) && d == #[trigger] tipped(c, a) {
        let a = choose|a: u64| 0 < a && !tip_overflows(c, a) && d == #[trigger] tipped(c, a);
        assert(d == tipped(c, a));
    } else if exists|a: u64, t: i64|
        0 < a <= c.tips_balance && c.withdrawal_count < u64::MAX && d == #[trigger] withdrawn(
            c,
            a,
            t,
        ) {
        let (a, t) = choose|a: u64, t: i64|
            0 < a <= c.tips_balance && c.withdrawal_count < u64::MAX && d == #[trigger] withdrawn(
                c,
                a,
                t,
            );
        assert(d == withdrawn(c, a, t));
    } else {
        let (n, b) = choose|n: String, b: String| d == #[trigger] renamed(c, n, b);
        assert(d == renamed(c, n, b));
    }
}

/// Along any history of a profile that starts well formed, the withdrawable
/// balance never exceeds the lifetime total of tips.
pub proof fn lemma_balance_within_total(h: Seq<Creator>)
    requires
        h.len() > 0,
        h[0].wf(),
        is_history(h),
    ensures
        forall|i: int| 0 <= i < h.len() ==> (#[trigger] h[i]).tips_balance <= h[i].total_tips,
    decreases h.len(),
{
    if h.len() > 1 {
        let p = h.drop_last();
        assert forall|i: int| 0 <= i < p.len() - 1 implies next_profile(#[trigger] p[i], p[i + 1]) by {
            assert(next_profile(h[i], h[i + 1]));
        }
        lemma_balance_within_total(p);
        let n = h.len() - 1;
        assert(p[n - 1] == h[n - 1]);
        assert(next_profile(h[n - 1], h[n]));
        lemma_step(h[n - 1], h[n]);
        assert forall|i: int| 0 <= i < h.len() implies (#[trigger] h[i]).tips_balance
            <= h[i].total_tips by {
            if i < n {
                assert(p[i] == h[i]);
            }
        }
    }
}

/// Along any history of a profile, the lifetime total of tips, the tip
/// count and the withdrawal count never decrease.
pub proof fn lemma_counters_monotone(h: Seq<Creator>)
    requires
        is_history(h),
    ensures
        forall|i: int, j: int|
            0 <= i <= j < h.len() ==> {
                &&& (#[trigger] h[i]).total_tips <= (#[trigger] h[j]).total_tips
                &&& h[i].tip_count <= h[j].tip_count
                &&& h[i].withdrawal_count <= h[j].withdrawal_count
            },
    decreases h.len(),
{
    if h.len() > 1 {
        let p = h.drop_last();
        assert forall|i: int| 0 <= i < p.len() - 1 implies next_profile(#[trigger] p[i], p[i + 1]) by {
            assert(next_profile(h[i], h[i + 1]));
        }
        lemma_counters_monotone(p);
        let n = h.len() - 1;
        assert(next_profile(h[n - 1], h[n]));
        lemma_step(h[n - 1], h[n]);
        assert forall|i: int, j: int| 0 <= i <= j < h.len() implies {
            &&& (#[trigger] h[i]).total_tips <= (#[trigger] h[j]).total_tips
            &&& h[i].tip_count <= h[j].tip_count
            &&& h[i].withdrawal_count <= h[j].withdrawal_count
        } by {
            if j < n {
                assert(p[i] == h[i] && p[j] == h[j]);
            } else if i < n {
                assert(p[i] == h[i] && p[n - 1] == h[n - 1]);
            }
        }
    }
}

} // verus!
