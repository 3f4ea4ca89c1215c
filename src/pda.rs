use crate::errors::ErrorCode;
use crate::key::Key;
use anchor_lang::prelude::Pubkey;
use vstd::prelude::*;

verus! {

/// The program address that `seeds` (bump included) and `program_id` hash to,
/// or `None` where that hash is a point on the curve or the seeds break the
/// seed limits.
pub uninterp spec fn program_address(seeds: Seq<Seq<u8>>, program_id: Seq<u8>) -> Option<Seq<u8>>;

pub open spec fn seeds_view(seeds: Seq<Vec<u8>>) -> Seq<Seq<u8>> {
    seeds.map_values(|s: Vec<u8>| s@)
}

/// The seeds with the one-byte bump appended as a last seed.
pub open spec fn with_bump(seeds: Seq<Seq<u8>>, bump: u8) -> Seq<Seq<u8>> {
    seeds.push(seq![bump])
}

/// `bump` is the canonical bump of the seeds: the highest non-zero bump that
/// gives a valid program address.
pub open spec fn is_canonical_bump(seeds: Seq<Seq<u8>>, program_id: Seq<u8>, bump: u8) -> bool {
    &&& 1 <= bump
    &&& program_address(with_bump(seeds, bump), program_id) is Some
    &&& forall|c: u8| bump < c ==> #[trigger] program_address(with_bump(seeds, c), program_id) is None
}

/// The address and canonical bump that the seeds derive, if any bump works.
pub open spec fn derivation(seeds: Seq<Seq<u8>>, program_id: Seq<u8>) -> Option<(Seq<u8>, u8)> {
    if exists|b: u8| is_canonical_bump(seeds, program_id, b) {
        let b = choose|b: u8| is_canonical_bump(seeds, program_id, b);
        Some((program_address(with_bump(seeds, b), program_id)->Some_0, b))
    } else {
        None
    }
}

/// Relies on `Pubkey::create_program_address`: `Ok` with the address that the
/// seeds and program id hash to, `Err` where there is none.
#[verifier::external_body]
fn create_program_address(seeds: &Vec<Vec<u8>>, program_id: &Key) -> (r: Option<Key>)
    ensures
        match r {
            Some(k) => program_address(seeds_view(seeds@), program_id@) == Some(k@),
            None => program_address(seeds_view(seeds@), program_id@) is None,
        },
{
    let refs: Vec<&[u8]> = seeds.iter().map(|s| s.as_slice()).collect();
    let pid = Pubkey::new_from_array(program_id.bytes);
    Pubkey::create_program_address(&refs, &pid).ok().map(|k| Key { bytes: k.to_bytes() })
}

/// Relies on `Pubkey::try_find_program_address`, which tries the bumps from
/// 255 down to 1 with `create_program_address` and returns the first address
/// found, or `None` where no bump gives one.
#[verifier::external_body]
fn try_find_program_address(seeds: &Vec<Vec<u8>>, program_id: &Key) -> (r: Option<(Key, u8)>)
    ensures
        match r {
            Some((k, b)) => {
                &&& 1 <= b
                &&& program_address(with_bump(seeds_view(seeds@), b), program_id@) == Some(k@)
                &&& forall|c: u8|
                    b < c ==> #[trigger] program_address(with_bump(seeds_view(seeds@), c), program_id@)
                        is None
            },
            None => forall|c: u8|
                1 <= c ==> #[trigger] program_address(with_bump(seeds_view(seeds@), c), program_id@)
                    is None,
        },
{
    let refs: Vec<&[u8]> = seeds.iter().map(|s| s.as_slice()).collect();
    let pid = Pubkey::new_from_array(program_id.bytes);
    Pubkey::try_find_program_address(&refs, &pid).map(|(k, b)| (Key { bytes: k.to_bytes() }, b))
}

/// Two canonical bumps of the same seeds are the same bump.
pub proof fn lemma_canonical_bump_unique(seeds: Seq<Seq<u8>>, program_id: Seq<u8>, b1: u8, b2: u8)
    requires
        is_canonical_bump(seeds, program_id, b1),
        is_canonical_bump(seeds, program_id, b2),
    ensures
        b1 == b2,
{
    if b1 < b2 {
        assert(program_address(with_bump(seeds, b2), program_id) is None);
    } else if b2 < b1 {
        assert(program_address(with_bump(seeds, b1), program_id) is None);
    }
}

/// Re-deriving an address from its stored key material gives back the
/// address and bump it was created with, and checking the stored bump against
/// the address accepts it.
pub proof fn lemma_address_round_trip(
    seeds: Seq<Seq<u8>>,
    program_id: Seq<u8>,
    address: Seq<u8>,
    bump: u8,
)
    requires
        derivation(seeds, program_id) == Some((address, bump)),
    ensures
        program_address(with_bump(seeds, bump), program_id) == Some(address),
        is_canonical_bump(seeds, program_id, bump),
        forall|b: u8| is_canonical_bump(seeds, program_id, b) ==> b == bump,
{
    assert forall|b: u8| is_canonical_bump(seeds, program_id, b) implies b == bump by {
        lemma_canonical_bump_unique(seeds, program_id, b, bump);
    }
}

/// Finds the canonical bump of the seeds and the address it gives.
pub fn derive_address(seeds: &Vec<Vec<u8>>, program_id: &Key) -> (r: Result<(Key, u8), ErrorCode>)
    ensures
        match r {
            Ok((k, b)) => derivation(seeds_view(seeds@), program_id@) == Some((k@, b)),
            Err(e) => e == ErrorCode::NoViableAddress && derivation(
                seeds_view(seeds@),
                program_id@,
            ) is None,
        },
{
    let ghost sv = seeds_view(seeds@);
    match try_find_program_address(seeds, program_id) {
        Some((k, b)) => {
            proof {
                assert(is_canonical_bump(sv, program_id@, b));
                let c = choose|c: u8| is_canonical_bump(sv, program_id@, c);
                lemma_canonical_bump_unique(sv, program_id@, b, c);
            }
            Ok((k, b))
        },
        None => {
            proof {
                assert forall|b: u8| !is_canonical_bump(sv, program_id@, b) by {
                    if 1 <= b {
                        assert(program_address(with_bump(sv, b), program_id@) is None);
                    }
                }
            }
            Err(ErrorCode::NoViableAddress)
        },
    }
}

/// Checks that `expected` is the address that the seeds give with the stored
/// `bump`. A mismatch means the record is not where its key material says.
pub fn check_address(seeds: &Vec<Vec<u8>>, bump: u8, program_id: &Key, expected: &Key) -> (r: Result<
    (),
    ErrorCode,
>)
    ensures
        r is Ok <==> program_address(with_bump(seeds_view(seeds@), bump), program_id@) == Some(
            expected@,
        ),
        r is Err ==> r == Err::<(), ErrorCode>(ErrorCode::AddressMismatch),
{
    let mut full = seeds.clone();
    let mut b: Vec<u8> = Vec::new();
    b.push(bump);
    full.push(b);
    proof {
        assert(seeds_view(full@) =~= with_bump(seeds_view(seeds@), bump));
    }
    match create_program_address(&full, program_id) {
        Some(k) => {
            if k.same(expected) {
                Ok(())
            } else {
                Err(ErrorCode::AddressMismatch)
            }
        },
        None => Err(ErrorCode::AddressMismatch),
    }
}

} // verus!
