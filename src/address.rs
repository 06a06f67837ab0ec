//! Where records and vaults live: each address is derived from fixed seeds,
//! the authority's key and, for base records, the client-chosen `uuid`, so
//! that a caller can recompute it without reading any storage.
use vstd::prelude::*;

use crate::key::Key;

verus! {

/// What `Pubkey::try_find_program_address` returns for these seeds and this
/// program id: the derived address and its bump seed, or nothing.
pub uninterp spec fn program_address(seeds: Seq<Seq<u8>>, program_id: Seq<u8>) -> Option<
    (Seq<u8>, u8),
>;

/// The bytes of a list of seeds.
pub open spec fn seeds_view(seeds: Seq<Vec<u8>>) -> Seq<Seq<u8>> {
    seeds.map_values(|s: Vec<u8>| s@)
}

/// The seed that opens a record's address: the bytes of `r-seed`.
pub open spec fn requester_tag() -> Seq<u8> {
    seq![114u8, 45u8, 115u8, 101u8, 101u8, 100u8]
}

/// The seed that opens a vault's address: the bytes of `v-seed`.
pub open spec fn vault_tag() -> Seq<u8> {
    seq![118u8, 45u8, 115u8, 101u8, 101u8, 100u8]
}

/// The eight bytes of `x`, least significant first.
pub open spec fn le_bytes(x: u64) -> Seq<u8> {
    Seq::new(8, |i: int| ((x >> (8 * i) as u64) & 0xffu64) as u8)
}

/// The seeds of a base record: its tag, the authority, the `uuid`.
pub open spec fn requester_seeds_of(authority: Seq<u8>, uuid: u64) -> Seq<Seq<u8>> {
    seq![requester_tag(), authority, le_bytes(uuid)]
}

/// The seeds of a fee-charging record: its tag and the authority.
pub open spec fn fee_requester_seeds_of(authority: Seq<u8>) -> Seq<Seq<u8>> {
    seq![requester_tag(), authority]
}

/// The seeds of a vault: its tag and the authority.
pub open spec fn vault_seeds_of(authority: Seq<u8>) -> Seq<Seq<u8>> {
    seq![vault_tag(), authority]
}

/// Whether `r` is the derivation `found`, with the address as a key.
pub open spec fn found_matches(r: Option<(Key, u8)>, found: Option<(Seq<u8>, u8)>) -> bool {
    match r {
        Some((k, bump)) => found == Some((k@, bump)),
        None => found is None,
    }
}

/// Relies on `Pubkey::try_find_program_address`: off-chain it hashes the seeds
/// with a bump seed and the program id and depends on nothing else; it does
/// not panic.
#[verifier::external_body]
fn find_program_address(seeds: &Vec<Vec<u8>>, program_id: &Key) -> (r: Option<(Key, u8)>)
    ensures
        found_matches(r, program_address(seeds_view(seeds@), program_id@)),
{
    let slices: Vec<&[u8]> = seeds.iter().map(|s| s.as_slice()).collect();
    let program = anchor_lang::prelude::Pubkey::new_from_array(program_id.bytes);
    anchor_lang::prelude::Pubkey::try_find_program_address(&slices, &program).map(
        |(k, bump)| (Key::new(k.to_bytes()), bump),
    )
}

/// The bytes of `x`, least significant first.
pub fn to_le_bytes(x: u64) -> (r: Vec<u8>)
    ensures
        r@ == le_bytes(x),
{
    let mut out: Vec<u8> = Vec::new();
    let mut i: u64 = 0;
    while i < 8
        invariant
            i <= 8,
            out@ == Seq::new(i as nat, |j: int| ((x >> (8 * j) as u64) & 0xffu64) as u8),
        decreases 8 - i,
    {
        out.push(((x >> (8 * i)) & 0xffu64) as u8);
        i = i + 1;
        assert(out@ =~= Seq::new(i as nat, |j: int| ((x >> (8 * j) as u64) & 0xffu64) as u8));
    }
    assert(out@ =~= le_bytes(x));
    out
}

fn key_bytes(k: &Key) -> (r: Vec<u8>)
    ensures
        r@ == k@,
{
    let mut out: Vec<u8> = Vec::new();
    let mut i: usize = 0;
    while i < 32
        invariant
            i <= 32,
            k@.len() == 32,
            out@ == k@.subrange(0, i as int),
        decreases 32 - i,
    {
        out.push(k.bytes[i]);
        i = i + 1;
        assert(out@ =~= k@.subrange(0, i as int));
    }
    assert(out@ =~= k@);
    out
}

/// The seeds of the base record of `authority` for `uuid`.
pub fn requester_seeds(authority: &Key, uuid: u64) -> (r: Vec<Vec<u8>>)
    ensures
        seeds_view(r@) == requester_seeds_of(authority@, uuid),
{
    let r = vec![vec![114u8, 45u8, 115u8, 101u8, 101u8, 100u8], key_bytes(authority), to_le_bytes(uuid)];
    assert(seeds_view(r@) =~= requester_seeds_of(authority@, uuid));
    r
}

/// The seeds of the fee-charging record of `authority`.
pub fn fee_requester_seeds(authority: &Key) -> (r: Vec<Vec<u8>>)
    ensures
        seeds_view(r@) == fee_requester_seeds_of(authority@),
{
    let r = vec![vec![114u8, 45u8, 115u8, 101u8, 101u8, 100u8], key_bytes(authority)];
    assert(seeds_view(r@) =~= fee_requester_seeds_of(authority@));
    r
}

/// The seeds of the vault of `authority`.
pub fn vault_seeds(authority: &Key) -> (r: Vec<Vec<u8>>)
    ensures
        seeds_view(r@) == vault_seeds_of(authority@),
{
    let r = vec![vec![118u8, 45u8, 115u8, 101u8, 101u8, 100u8], key_bytes(authority)];
    assert(seeds_view(r@) =~= vault_seeds_of(authority@));
    r
}

/// The address and bump seed of the base record of `authority` for `uuid`
/// under `program_id`.
pub fn requester_address(authority: &Key, uuid: u64, program_id: &Key) -> (r: Option<(Key, u8)>)
    ensures
        found_matches(r, program_address(requester_seeds_of(authority@, uuid), program_id@)),
{
    find_program_address(&requester_seeds(authority, uuid), program_id)
}

/// The address and bump seed of the fee-charging record of `authority` under
/// `program_id`.
pub fn fee_requester_address(authority: &Key, program_id: &Key) -> (r: Option<(Key, u8)>)
    ensures
        found_matches(r, program_address(fee_requester_seeds_of(authority@), program_id@)),
{
    find_program_address(&fee_requester_seeds(authority), program_id)
}

/// The address and bump seed of the vault of `authority` under `program_id`.
pub fn vault_address(authority: &Key, program_id: &Key) -> (r: Option<(Key, u8)>)
    ensures
        found_matches(r, program_address(vault_seeds_of(authority@), program_id@)),
{
    find_program_address(&vault_seeds(authority), program_id)
}

} // verus!
