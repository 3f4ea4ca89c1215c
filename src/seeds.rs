use crate::key::Key;
use crate::pda::seeds_view;
use vstd::prelude::*;

verus! {

/// The bytes of `b"creator"`.
pub open spec fn creator_tag() -> Seq<u8> {
    seq![99u8, 114u8, 101u8, 97u8, 116u8, 111u8, 114u8]
}

/// The bytes of `b"tip"`.
pub open spec fn tip_tag() -> Seq<u8> {
    seq![116u8, 105u8, 112u8]
}

/// The bytes of `b"withdrawal"`.
pub open spec fn withdrawal_tag() -> Seq<u8> {
    seq![119u8, 105u8, 116u8, 104u8, 100u8, 114u8, 97u8, 119u8, 97u8, 108u8]
}

/// The eight little-endian bytes of `n`.
pub open spec fn le_bytes(n: u64) -> Seq<u8> {
    seq![
        (n & 0xff) as u8,
        ((n >> 8u64) & 0xff) as u8,
        ((n >> 16u64) & 0xff) as u8,
        ((n >> 24u64) & 0xff) as u8,
        ((n >> 32u64) & 0xff) as u8,
        ((n >> 40u64) & 0xff) as u8,
        ((n >> 48u64) & 0xff) as u8,
        ((n >> 56u64) & 0xff) as u8,
    ]
}

/// Seeds of a creator profile: the tag and the owner's key.
pub open spec fn creator_seeds(owner: Seq<u8>) -> Seq<Seq<u8>> {
    seq![creator_tag(), owner]
}

/// Seeds of a tip record: the tag, the profile's address, the tipper's key
/// and the profile's tip count before the tip.
pub open spec fn tip_seeds(profile: Seq<u8>, tipper: Seq<u8>, count: u64) -> Seq<Seq<u8>> {
    seq![tip_tag(), profile, tipper, le_bytes(count)]
}

/// Seeds of a withdrawal record: the tag, the owner's key and the profile's
/// withdrawal count before the withdrawal.
pub open spec fn withdrawal_seeds(owner: Seq<u8>, count: u64) -> Seq<Seq<u8>> {
    seq![withdrawal_tag(), owner, le_bytes(count)]
}

/// Distinct counters give distinct byte encodings.
pub proof fn lemma_le_bytes_injective(a: u64, b: u64)
    requires
        a != b,
    ensures
        le_bytes(a) != le_bytes(b),
{
    assert(a & 0xff <= 0xff && b & 0xff <= 0xff) by (bit_vector);
    assert((a >> 8u64) & 0xff <= 0xff && (b >> 8u64) & 0xff <= 0xff) by (bit_vector);
    assert((a >> 16u64) & 0xff <= 0xff && (b >> 16u64) & 0xff <= 0xff) by (bit_vector);
    assert((a >> 24u64) & 0xff <= 0xff && (b >> 24u64) & 0xff <= 0xff) by (bit_vector);
    assert((a >> 32u64) & 0xff <= 0xff && (b >> 32u64) & 0xff <= 0xff) by (bit_vector);
    assert((a >> 40u64) & 0xff <= 0xff && (b >> 40u64) & 0xff <= 0xff) by (bit_vector);
    assert((a >> 48u64) & 0xff <= 0xff && (b >> 48u64) & 0xff <= 0xff) by (bit_vector);
    assert((a >> 56u64) & 0xff <= 0xff && (b >> 56u64) & 0xff <= 0xff) by (bit_vector);
    assert(a != b ==> (a & 0xff != b & 0xff || (a >> 8u64) & 0xff != (b >> 8u64) & 0xff || (a
        >> 16u64) & 0xff != (b >> 16u64) & 0xff || (a >> 24u64) & 0xff != (b >> 24u64) & 0xff
        || (a >> 32u64) & 0xff != (b >> 32u64) & 0xff || (a >> 40u64) & 0xff != (b >> 40u64)
        & 0xff || (a >> 48u64) & 0xff != (b >> 48u64) & 0xff || (a >> 56u64) & 0xff != (b
        >> 56u64) & 0xff)) by (bit_vector);
    if le_bytes(a) == le_bytes(b) {
        assert(le_bytes(a)[0] == le_bytes(b)[0]);
        assert(le_bytes(a)[1] == le_bytes(b)[1]);
        assert(le_bytes(a)[2] == le_bytes(b)[2]);
        assert(le_bytes(a)[3] == le_bytes(b)[3]);
        assert(le_bytes(a)[4] == le_bytes(b)[4]);
        assert(le_bytes(a)[5] == le_bytes(b)[5]);
        assert(le_bytes(a)[6] == le_bytes(b)[6]);
        assert(le_bytes(a)[7] == le_bytes(b)[7]);
    }
}

/// Two tips from one tipper to one profile, made one after the other, hash
/// different key material: the second consumes the tip count that the first
/// incremented.
pub proof fn lemma_successive_tip_seeds_differ(profile: Seq<u8>, tipper: Seq<u8>, count: u64)
    requires
        count < u64::MAX,
    ensures
        tip_seeds(profile, tipper, count) != tip_seeds(profile, tipper, (count + 1) as u64),
{
    lemma_le_bytes_injective(count, (count + 1) as u64);
    assert(tip_seeds(profile, tipper, count)[3] != tip_seeds(profile, tipper, (count + 1) as u64)[3]);
}

/// Two withdrawals by one owner, made one after the other, hash different key
/// material.
pub proof fn lemma_successive_withdrawal_seeds_differ(owner: Seq<u8>, count: u64)
    requires
        count < u64::MAX,
    ensures
        withdrawal_seeds(owner, count) != withdrawal_seeds(owner, (count + 1) as u64),
{
    lemma_le_bytes_injective(count, (count + 1) as u64);
    assert(withdrawal_seeds(owner, count)[2] != withdrawal_seeds(owner, (count + 1) as u64)[2]);
}

fn u64_le_bytes(n: u64) -> (r: Vec<u8>)
    ensures
        r@ == le_bytes(n),
{
    let r = vec![
        (n & 0xff) as u8,
        ((n >> 8) & 0xff) as u8,
        ((n >> 16) & 0xff) as u8,
        ((n >> 24) & 0xff) as u8,
        ((n >> 32) & 0xff) as u8,
        ((n >> 40) & 0xff) as u8,
        ((n >> 48) & 0xff) as u8,
        ((n >> 56) & 0xff) as u8,
    ];
    assert(r@ =~= le_bytes(n));
    r
}

pub fn build_creator_seeds(owner: &Key) -> (r: Vec<Vec<u8>>)
    ensures
        seeds_view(r@) == creator_seeds(owner@),
{
    let r = vec![vec![99u8, 114u8, 101u8, 97u8, 116u8, 111u8, 114u8], owner.to_vec()];
    assert(seeds_view(r@) =~= creator_seeds(owner@));
    r
}

pub fn build_tip_seeds(profile: &Key, tipper: &Key, count: u64) -> (r: Vec<Vec<u8>>)
    ensures
        seeds_view(r@) == tip_seeds(profile@, tipper@, count),
{
    let r = vec![vec![116u8, 105u8, 112u8], profile.to_vec(), tipper.to_vec(), u64_le_bytes(count)];
    assert(seeds_view(r@) =~= tip_seeds(profile@, tipper@, count));
    r
}

pub fn build_withdrawal_seeds(owner: &Key, count: u64) -> (r: Vec<Vec<u8>>)
    ensures
        seeds_view(r@) == withdrawal_seeds(owner@, count),
{
    let r = vec![
        vec![119u8, 105u8, 116u8, 104u8, 100u8, 114u8, 97u8, 119u8, 97u8, 108u8],
        owner.to_vec(),
        u64_le_bytes(count),
    ];
    assert(seeds_view(r@) =~= withdrawal_seeds(owner@, count));
    r
}

} // verus!
