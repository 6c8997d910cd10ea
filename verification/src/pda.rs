use vstd::prelude::*;

use crate::codec::{push_arr32, push_u64, u64_bytes};

verus! {

// ---------------------------------------------------------------------------
// Namespace tags. Each derived record kind has its own stable byte string.
// ---------------------------------------------------------------------------

pub open spec fn merchant_seed() -> Seq<u8> {
    seq![109u8, 101, 114, 99, 104, 97, 110, 116]
}

pub open spec fn deal_seed() -> Seq<u8> {
    seq![100u8, 101, 97, 108]
}

pub open spec fn review_seed() -> Seq<u8> {
    seq![114u8, 101, 118, 105, 101, 119]
}

pub open spec fn redeem_seed() -> Seq<u8> {
    seq![114u8, 101, 100, 101, 101, 109]
}

pub open spec fn listing_seed() -> Seq<u8> {
    seq![108u8, 105, 115, 116, 105, 110, 103]
}

pub open spec fn escrow_seed() -> Seq<u8> {
    seq![101u8, 115, 99, 114, 111, 119]
}

/// The deterministic derived address for a namespace tag plus seed bytes
/// under one program identity, and the bump byte that pushes it off the
/// curve of externally controllable keys. Both depend on the seeds and the
/// program identity alone.
pub uninterp spec fn derived_address(seeds: Seq<Seq<u8>>, program_id: Seq<u8>) -> Seq<u8>;

pub uninterp spec fn derived_bump(seeds: Seq<Seq<u8>>, program_id: Seq<u8>) -> u8;

/// Relies on solana_program's Pubkey::find_program_address: for fixed seeds
/// and program id the result is deterministic, found by scanning bump bytes
/// downward from 255. A viable bump is assumed to exist; the caller-side seed
/// bounds keep every candidate inside the limits the search accepts.
#[verifier::external_body]
fn find_pda(seeds: &Vec<Vec<u8>>, program_id: &[u8; 32]) -> (r: ([u8; 32], u8))
    requires
        seeds@.len() <= 15,
        forall|i: int| 0 <= i < seeds@.len() ==> seeds@[i]@.len() <= 32,
    ensures
        r.0@ == derived_address(seeds@.map_values(|s: Vec<u8>| s@), program_id@),
        r.1 == derived_bump(seeds@.map_values(|s: Vec<u8>| s@), program_id@),
{
    let refs: Vec<&[u8]> = seeds.iter().map(|s| s.as_slice()).collect();
    let (pk, bump) = solana_program::pubkey::Pubkey::find_program_address(
        refs.as_slice(),
        &solana_program::pubkey::Pubkey::new_from_array(*program_id),
    );
    (pk.to_bytes(), bump)
}

fn merchant_seed_vec() -> (r: Vec<u8>)
    ensures
        r@ == merchant_seed(),
{
    let mut v: Vec<u8> = Vec::new();
    v.push(109);
    v.push(101);
    v.push(114);
    v.push(99);
    v.push(104);
    v.push(97);
    v.push(110);
    v.push(116);
    assert(v@ =~= merchant_seed());
    v
}

fn deal_seed_vec() -> (r: Vec<u8>)
    ensures
        r@ == deal_seed(),
{
    let mut v: Vec<u8> = Vec::new();
    v.push(100);
    v.push(101);
    v.push(97);
    v.push(108);
    assert(v@ =~= deal_seed());
    v
}

fn review_seed_vec() -> (r: Vec<u8>)
    ensures
        r@ == review_seed(),
{
    let mut v: Vec<u8> = Vec::new();
    v.push(114);
    v.push(101);
    v.push(118);
    v.push(105);
    v.push(101);
    v.push(119);
    assert(v@ =~= review_seed());
    v
}

fn redeem_seed_vec() -> (r: Vec<u8>)
    ensures
        r@ == redeem_seed(),
{
    let mut v: Vec<u8> = Vec::new();
    v.push(114);
    v.push(101);
    v.push(100);
    v.push(101);
    v.push(101);
    v.push(109);
    assert(v@ =~= redeem_seed());
    v
}

fn listing_seed_vec() -> (r: Vec<u8>)
    ensures
        r@ == listing_seed(),
{
    let mut v: Vec<u8> = Vec::new();
    v.push(108);
    v.push(105);
    v.push(115);
    v.push(116);
    v.push(105);
    v.push(110);
    v.push(103);
    assert(v@ =~= listing_seed());
    v
}

fn escrow_seed_vec() -> (r: Vec<u8>)
    ensures
        r@ == escrow_seed(),
{
    let mut v: Vec<u8> = Vec::new();
    v.push(101);
    v.push(115);
    v.push(99);
    v.push(114);
    v.push(111);
    v.push(119);
    assert(v@ =~= escrow_seed());
    v
}

fn arr32_vec(a: &[u8; 32]) -> (r: Vec<u8>)
    ensures
        r@ == a@,
{
    let mut v: Vec<u8> = Vec::new();
    push_arr32(&mut v, a);
    assert(v@ =~= a@);
    v
}

// ---------------------------------------------------------------------------
// The specific derivations the handlers re-check. One spec pair per record
// namespace, defined over the derived-address function.
// ---------------------------------------------------------------------------

pub open spec fn merchant_pda(owner: Seq<u8>, program_id: Seq<u8>) -> Seq<u8> {
    derived_address(seq![merchant_seed(), owner], program_id)
}

pub open spec fn merchant_pda_bump(owner: Seq<u8>, program_id: Seq<u8>) -> u8 {
    derived_bump(seq![merchant_seed(), owner], program_id)
}

pub fn derive_merchant_pda(owner: &[u8; 32], program_id: &[u8; 32]) -> (r: ([u8; 32], u8))
    ensures
        r.0@ == merchant_pda(owner@, program_id@),
        r.1 == merchant_pda_bump(owner@, program_id@),
{
    let mut seeds: Vec<Vec<u8>> = Vec::new();
    seeds.push(merchant_seed_vec());
    seeds.push(arr32_vec(owner));
    let r = find_pda(&seeds, program_id);
    assert(seeds@.map_values(|s: Vec<u8>| s@) =~= seq![merchant_seed(), owner@]);
    r
}

pub open spec fn deal_pda(owner: Seq<u8>, deal_id: u64, program_id: Seq<u8>) -> Seq<u8> {
    derived_address(seq![deal_seed(), owner, u64_bytes(deal_id)], program_id)
}

pub open spec fn deal_pda_bump(owner: Seq<u8>, deal_id: u64, program_id: Seq<u8>) -> u8 {
    derived_bump(seq![deal_seed(), owner, u64_bytes(deal_id)], program_id)
}

pub fn derive_deal_pda(owner: &[u8; 32], deal_id: u64, program_id: &[u8; 32]) -> (r: ([u8; 32], u8))
    ensures
        r.0@ == deal_pda(owner@, deal_id, program_id@),
        r.1 == deal_pda_bump(owner@, deal_id, program_id@),
{
    let mut id_bytes: Vec<u8> = Vec::new();
    push_u64(&mut id_bytes, deal_id);
    let mut seeds: Vec<Vec<u8>> = Vec::new();
    seeds.push(deal_seed_vec());
    seeds.push(arr32_vec(owner));
    seeds.push(id_bytes);
    let r = find_pda(&seeds, program_id);
    assert(seeds@.map_values(|s: Vec<u8>| s@) =~= seq![deal_seed(), owner@, u64_bytes(deal_id)]);
    r
}

pub open spec fn review_pda(deal: Seq<u8>, user: Seq<u8>, program_id: Seq<u8>) -> Seq<u8> {
    derived_address(seq![review_seed(), deal, user], program_id)
}

pub open spec fn review_pda_bump(deal: Seq<u8>, user: Seq<u8>, program_id: Seq<u8>) -> u8 {
    derived_bump(seq![review_seed(), deal, user], program_id)
}

pub fn derive_review_pda(deal: &[u8; 32], user: &[u8; 32], program_id: &[u8; 32]) -> (r: (
    [u8; 32],
    u8,
))
    ensures
        r.0@ == review_pda(deal@, user@, program_id@),
        r.1 == review_pda_bump(deal@, user@, program_id@),
{
    let mut seeds: Vec<Vec<u8>> = Vec::new();
    seeds.push(review_seed_vec());
    seeds.push(arr32_vec(deal));
    seeds.push(arr32_vec(user));
    let r = find_pda(&seeds, program_id);
    assert(seeds@.map_values(|s: Vec<u8>| s@) =~= seq![review_seed(), deal@, user@]);
    r
}

pub open spec fn redeem_pda(mint: Seq<u8>, program_id: Seq<u8>) -> Seq<u8> {
    derived_address(seq![redeem_seed(), mint], program_id)
}

pub open spec fn redeem_pda_bump(mint: Seq<u8>, program_id: Seq<u8>) -> u8 {
    derived_bump(seq![redeem_seed(), mint], program_id)
}

pub fn derive_redeem_pda(mint: &[u8; 32], program_id: &[u8; 32]) -> (r: ([u8; 32], u8))
    ensures
        r.0@ == redeem_pda(mint@, program_id@),
        r.1 == redeem_pda_bump(mint@, program_id@),
{
    let mut seeds: Vec<Vec<u8>> = Vec::new();
    seeds.push(redeem_seed_vec());
    seeds.push(arr32_vec(mint));
    let r = find_pda(&seeds, program_id);
    assert(seeds@.map_values(|s: Vec<u8>| s@) =~= seq![redeem_seed(), mint@]);
    r
}

pub open spec fn listing_pda(mint: Seq<u8>, seller: Seq<u8>, program_id: Seq<u8>) -> Seq<u8> {
    derived_address(seq![listing_seed(), mint, seller], program_id)
}

pub open spec fn listing_pda_bump(mint: Seq<u8>, seller: Seq<u8>, program_id: Seq<u8>) -> u8 {
    derived_bump(seq![listing_seed(), mint, seller], program_id)
}

pub fn derive_listing_pda(mint: &[u8; 32], seller: &[u8; 32], program_id: &[u8; 32]) -> (r: (
    [u8; 32],
    u8,
))
    ensures
        r.0@ == listing_pda(mint@, seller@, program_id@),
        r.1 == listing_pda_bump(mint@, seller@, program_id@),
{
    let mut seeds: Vec<Vec<u8>> = Vec::new();
    seeds.push(listing_seed_vec());
    seeds.push(arr32_vec(mint));
    seeds.push(arr32_vec(seller));
    let r = find_pda(&seeds, program_id);
    assert(seeds@.map_values(|s: Vec<u8>| s@) =~= seq![listing_seed(), mint@, seller@]);
    r
}

pub open spec fn escrow_pda(mint: Seq<u8>, program_id: Seq<u8>) -> Seq<u8> {
    derived_address(seq![escrow_seed(), mint], program_id)
}

pub open spec fn escrow_pda_bump(mint: Seq<u8>, program_id: Seq<u8>) -> u8 {
    derived_bump(seq![escrow_seed(), mint], program_id)
}

pub fn derive_escrow_pda(mint: &[u8; 32], program_id: &[u8; 32]) -> (r: ([u8; 32], u8))
    ensures
        r.0@ == escrow_pda(mint@, program_id@),
        r.1 == escrow_pda_bump(mint@, program_id@),
{
    let mut seeds: Vec<Vec<u8>> = Vec::new();
    seeds.push(escrow_seed_vec());
    seeds.push(arr32_vec(mint));
    let r = find_pda(&seeds, program_id);
    assert(seeds@.map_values(|s: Vec<u8>| s@) =~= seq![escrow_seed(), mint@]);
    r
}

/// Compares two 32-byte identities.
pub fn eq_bytes32(a: &[u8; 32], b: &[u8; 32]) -> (r: bool)
    ensures
        r <==> a@ == b@,
{
    let mut i: usize = 0;
    while i < 32
        invariant
            i <= 32,
            forall|j: int| 0 <= j < i ==> a@[j] == b@[j],
        decreases 32 - i,
    {
        if a[i] != b[i] {
            return false;
        }
        i = i + 1;
    }
    assert(a@ =~= b@);
    true
}

} // verus!
