//! Account addresses and program-derived addresses (PDAs).
//!
//! An address is 32 raw bytes. Program-derived addresses are computed by the
//! runtime's `create_program_address` / `try_find_program_address`; this module
//! reaches them through two trusted wrappers and builds everything else (seed
//! layouts, bump checks) in verified code.
use anchor_lang::prelude::Pubkey;
use vstd::prelude::*;

verus! {

/// Largest number of seeds a program address may be derived from.
pub const MAX_SEEDS: usize = 16;

/// Largest length of a single seed.
pub const MAX_SEED_LEN: usize = 32;

/// A 32-byte account address (a public key or a program-derived address).
#[derive(Clone, Copy, Debug)]
pub struct Address(pub [u8; 32]);

impl View for Address {
    type V = Seq<u8>;

    open spec fn view(&self) -> Seq<u8> {
        self.0@
    }
}

impl PartialEq for Address {
    fn eq(&self, other: &Self) -> (r: bool) {
        let mut i: usize = 0;
        while i < 32
            invariant
                0 <= i <= 32,
                self.0@.len() == 32,
                other.0@.len() == 32,
                forall|j: int| 0 <= j < i ==> self.0@[j] == other.0@[j],
            decreases 32 - i,
        {
            if self.0[i] != other.0[i] {
                return false;
            }
            i = i + 1;
        }
        assert(self.0@ =~= other.0@);
        true
    }
}

impl vstd::std_specs::cmp::PartialEqSpecImpl for Address {
    open spec fn obeys_eq_spec() -> bool {
        true
    }

    open spec fn eq_spec(&self, other: &Self) -> bool {
        self@ == other@
    }
}

impl Address {
    /// The address's bytes, as a seed.
    pub fn to_seed(&self) -> (v: Vec<u8>)
        ensures
            v@ == self@,
    {
        let mut v: Vec<u8> = Vec::new();
        let mut i: usize = 0;
        while i < 32
            invariant
                0 <= i <= 32,
                self.0@.len() == 32,
                v@ == self.0@.subrange(0, i as int),
            decreases 32 - i,
        {
            v.push(self.0[i]);
            i = i + 1;
        }
        assert(self.0@.subrange(0, 32) =~= self.0@);
        v
    }
}

/// The contents of a list of seeds, each taken by its bytes.
pub open spec fn seeds_view(seeds: Seq<Vec<u8>>) -> Seq<Seq<u8>> {
    Seq::new(seeds.len(), |i: int| seeds[i]@)
}

/// Whether the seed list is within the runtime's limits on count and length.
pub open spec fn seeds_within_limits(seeds: Seq<Seq<u8>>) -> bool {
    &&& seeds.len() <= MAX_SEEDS
    &&& forall|i: int| 0 <= i < seeds.len() ==> #[trigger] seeds[i].len() <= MAX_SEED_LEN
}

/// The program-derived address of `seeds` under `program_id`, as computed by
/// `Pubkey::create_program_address`; `None` where that function fails.
pub uninterp spec fn program_address(seeds: Seq<Seq<u8>>, program_id: Seq<u8>) -> Option<Seq<u8>>;

/// Searches the bump seeds from `bump` down to 1 for the first one that, appended
/// to `seeds`, gives a program address.
pub open spec fn bump_search(seeds: Seq<Seq<u8>>, program_id: Seq<u8>, bump: int) -> Option<(Seq<u8>, u8)>
    decreases bump,
{
    if bump < 1 || bump > 255 {
        None
    } else {
        match program_address(seeds.push(seq![bump as u8]), program_id) {
            Some(a) => Some((a, bump as u8)),
            None => bump_search(seeds, program_id, bump - 1),
        }
    }
}

/// The canonical program address of `seeds` and its bump: the highest bump in
/// 255..=1 that yields an address.
pub open spec fn canonical_address(seeds: Seq<Seq<u8>>, program_id: Seq<u8>) -> Option<(Seq<u8>, u8)> {
    bump_search(seeds, program_id, 255)
}

/// The canonical program address of `seeds`, without its bump.
pub open spec fn canonical_key(seeds: Seq<Seq<u8>>, program_id: Seq<u8>) -> Option<Seq<u8>> {
    match canonical_address(seeds, program_id) {
        Some((a, _)) => Some(a),
        None => None,
    }
}

/// Calls `Pubkey::create_program_address`. Its result is named
/// `program_address`; the source shows that it fails when there are more than
/// `MAX_SEEDS` seeds or a seed is longer than `MAX_SEED_LEN`. Which seeds hash to
/// a point on the curve (and so fail too) is left to the name.
#[verifier::external_body]
fn create_program_address(seeds: &Vec<Vec<u8>>, program_id: &Address) -> (r: Option<Address>)
    ensures
        match r {
            Some(a) => program_address(seeds_view(seeds@), program_id@) == Some(a@),
            None => program_address(seeds_view(seeds@), program_id@) is None,
        },
        !seeds_within_limits(seeds_view(seeds@)) ==> r is None,
{
    let slices: Vec<&[u8]> = seeds.iter().map(|s| s.as_slice()).collect();
    match Pubkey::create_program_address(&slices, &Pubkey::new_from_array(program_id.0)) {
        Ok(key) => Some(Address(key.to_bytes())),
        Err(_) => None,
    }
}

/// Calls `Pubkey::try_find_program_address`. Its source tries the bump seeds
/// 255, 254, ..., 1 in turn with `create_program_address` and returns the first
/// address found with its bump, or `None`; that is `canonical_address`.
#[verifier::external_body]
fn try_find_program_address(seeds: &Vec<Vec<u8>>, program_id: &Address) -> (r: Option<(Address, u8)>)
    ensures
        match r {
            Some((a, b)) => canonical_address(seeds_view(seeds@), program_id@) == Some((a@, b)),
            None => canonical_address(seeds_view(seeds@), program_id@) is None,
        },
{
    let slices: Vec<&[u8]> = seeds.iter().map(|s| s.as_slice()).collect();
    match Pubkey::try_find_program_address(&slices, &Pubkey::new_from_array(program_id.0)) {
        Some((key, bump)) => Some((Address(key.to_bytes()), bump)),
        None => None,
    }
}

/// Finds the canonical program address of `seeds` and its bump seed.
pub fn find_address(seeds: &Vec<Vec<u8>>, program_id: &Address) -> (r: Option<(Address, u8)>)
    ensures
        match r {
            Some((a, b)) => canonical_address(seeds_view(seeds@), program_id@) == Some((a@, b)),
            None => canonical_address(seeds_view(seeds@), program_id@) is None,
        },
{
    try_find_program_address(seeds, program_id)
}

/// Whether `seeds` followed by the one-byte seed `bump` derive `expected` under
/// `program_id` (the check made for an account whose bump is stored).
pub fn address_matches(seeds: Vec<Vec<u8>>, bump: u8, program_id: &Address, expected: &Address) -> (ok: bool)
    ensures
        ok == (program_address(seeds_view(seeds@).push(seq![bump]), program_id@) == Some(expected@)),
{
    let mut with_bump = seeds;
    let ghost before = with_bump@;
    let mut b: Vec<u8> = Vec::new();
    b.push(bump);
    with_bump.push(b);
    assert(seeds_view(with_bump@) =~= seeds_view(before).push(seq![bump]));
    match create_program_address(&with_bump, program_id) {
        Some(a) => a == *expected,
        None => false,
    }
}

/// A found canonical address re-derives from its seeds and bump.
proof fn lemma_bump_search_rederives(seeds: Seq<Seq<u8>>, program_id: Seq<u8>, bump: int)
    ensures
        bump_search(seeds, program_id, bump) matches Some((a, b)) ==> program_address(
            seeds.push(seq![b]),
            program_id,
        ) == Some(a) && 1 <= b <= 255,
    decreases bump,
{
    if 1 <= bump <= 255 {
        lemma_bump_search_rederives(seeds, program_id, bump - 1);
    }
}

/// Law: the bump found for an account's seeds, stored and later appended to the
/// same seeds, derives the same address.
pub proof fn law_found_bump_rederives(seeds: Seq<Seq<u8>>, program_id: Seq<u8>)
    ensures
        canonical_address(seeds, program_id) matches Some((a, b)) ==> program_address(
            seeds.push(seq![b]),
            program_id,
        ) == Some(a),
{
    lemma_bump_search_rederives(seeds, program_id, 255);
}

proof fn lemma_bump_search_is_highest(seeds: Seq<Seq<u8>>, program_id: Seq<u8>, bump: int)
    requires
        0 <= bump <= 255,
    ensures
        bump_search(seeds, program_id, bump) matches Some((a, b)) ==> 1 <= b <= bump && program_address(
            seeds.push(seq![b]),
            program_id,
        ) == Some(a) && forall|k: int|
            b < k <= bump ==> #[trigger] program_address(seeds.push(seq![k as u8]), program_id) is None,
        bump_search(seeds, program_id, bump) is None ==> forall|k: int|
            1 <= k <= bump ==> #[trigger] program_address(seeds.push(seq![k as u8]), program_id) is None,
    decreases bump,
{
    if bump >= 1 {
        lemma_bump_search_is_highest(seeds, program_id, bump - 1);
    }
}

/// Law: the canonical bump is the highest bump that gives an address. When a
/// canonical address is found with bump `b`, no bump above `b` gives an
/// address; and a canonical address is found whenever some bump from 1 to 255
/// gives one.
pub proof fn law_canonical_bump_is_highest(seeds: Seq<Seq<u8>>, program_id: Seq<u8>, k: u8)
    ensures
        canonical_address(seeds, program_id) matches Some((a, b)) ==> (k > b ==> program_address(
            seeds.push(seq![k]),
            program_id,
        ) is None),
        k >= 1 && program_address(seeds.push(seq![k]), program_id) is Some ==> canonical_address(
            seeds,
            program_id,
        ) is Some,
{
    lemma_bump_search_is_highest(seeds, program_id, 255);
    assert(k as int as u8 == k);
}

} // verus!
