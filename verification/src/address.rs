//! Where on the ledger a parking area's record lives.
//!
//! The address of a record is derived from the program that keeps it, the
//! owner who registers it, a fixed tag, and a number that the owner
//! chooses, so that one owner can register as many parking areas as there
//! are numbers.

use vstd::prelude::*;
use vstd::bytes::{spec_u64_to_le_bytes, u64_to_le_bytes};
use anchor_lang::prelude::Pubkey;
use crate::identity::Identity;

verus! {

/// The address and bump seed that the ledger derives for a program from a
/// list of seeds, or `None` where it finds none.
pub uninterp spec fn program_address(seeds: Seq<Seq<u8>>, program_id: Seq<u8>) -> Option<
    (Seq<u8>, u8),
>;

/// Calls `Pubkey::try_find_program_address` with the given seeds and the
/// program's identity as a `Pubkey`. Its result depends on nothing but the
/// seeds and the program's identity; the contract gives that result its
/// name and says no more of it.
#[verifier::external_body]
fn try_find_program_address(seeds: &Vec<Vec<u8>>, program_id: &Identity) -> (found: Option<
    (Identity, u8),
>)
    ensures
        program_address(seeds.deep_view(), program_id@) == match found {
            Some((address, bump)) => Some((address@, bump)),
            None => None,
        },
{
    let slices: Vec<&[u8]> = seeds.iter().map(|seed| seed.as_slice()).collect();
    let program = Pubkey::new_from_array(program_id.bytes);
    match Pubkey::try_find_program_address(&slices, &program) {
        Some((address, bump)) => Some((Identity { bytes: address.to_bytes() }, bump)),
        None => None,
    }
}

/// The tag that marks an address as that of a parking area: the ASCII
/// bytes of `parking_area`.
pub open spec fn parking_area_tag() -> Seq<u8> {
    seq![
        0x70u8, 0x61u8, 0x72u8, 0x6bu8, 0x69u8, 0x6eu8, 0x67u8, 0x5fu8, 0x61u8, 0x72u8, 0x65u8,
        0x61u8,
    ]
}

/// The seeds of a parking area's address: the owner's identity, the tag,
/// and the owner's number in little-endian order.
pub open spec fn parking_area_seeds(owner: Seq<u8>, seed_random: u64) -> Seq<Seq<u8>> {
    seq![owner, parking_area_tag(), spec_u64_to_le_bytes(seed_random)]
}

/// The seeds of the address of the parking area that `owner` registers
/// under the number `seed_random`.
pub fn parking_area_address_seeds(owner: &Identity, seed_random: u64) -> (seeds: Vec<Vec<u8>>)
    ensures
        seeds.deep_view() == parking_area_seeds(owner@, seed_random),
{
    let mut owner_seed: Vec<u8> = Vec::new();
    let mut i: usize = 0;
    while i < 32
        invariant
            i <= 32,
            owner_seed@ == owner@.subrange(0, i as int),
        decreases 32 - i,
    {
        owner_seed.push(owner.bytes[i]);
        i += 1;
        assert(owner_seed@ =~= owner@.subrange(0, i as int));
    }
    assert(owner_seed@ =~= owner@);
    let tag: [u8; 12] = [0x70, 0x61, 0x72, 0x6b, 0x69, 0x6e, 0x67, 0x5f, 0x61, 0x72, 0x65, 0x61];
    let mut tag_seed: Vec<u8> = Vec::new();
    let mut j: usize = 0;
    while j < 12
        invariant
            j <= 12,
            tag_seed@ == tag@.subrange(0, j as int),
        decreases 12 - j,
    {
        tag_seed.push(tag[j]);
        j += 1;
        assert(tag_seed@ =~= tag@.subrange(0, j as int));
    }
    assert(tag_seed@ =~= parking_area_tag());
    let number_seed: Vec<u8> = u64_to_le_bytes(seed_random);
    let mut seeds: Vec<Vec<u8>> = Vec::new();
    seeds.push(owner_seed);
    seeds.push(tag_seed);
    seeds.push(number_seed);
    proof {
        assert(seeds@[0].deep_view() =~= owner@);
        assert(seeds@[1].deep_view() =~= parking_area_tag());
        assert(seeds@[2].deep_view() =~= spec_u64_to_le_bytes(seed_random));
        assert(seeds.deep_view() =~= parking_area_seeds(owner@, seed_random));
    }
    seeds
}

/// The address of the parking area that `owner` registers with the program
/// `program_id` under the number `seed_random`, together with the bump seed
/// that completes the derivation; `None` where the derivation finds no
/// address.
pub fn find_parking_area_address(program_id: &Identity, owner: &Identity, seed_random: u64) -> (found:
    Option<(Identity, u8)>)
    ensures
        program_address(parking_area_seeds(owner@, seed_random), program_id@) == match found {
            Some((address, bump)) => Some((address@, bump)),
            None => None,
        },
{
    let seeds = parking_area_address_seeds(owner, seed_random);
    try_find_program_address(&seeds, program_id)
}

} // verus!
