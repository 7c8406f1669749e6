//! The four addresses of a contest, derived from its seed.
//!
//! Every instruction derives the addresses again and compares them with the
//! accounts it was handed: a matching address is what authorises an account.
//! Where the ledger derives no address, no account matches.

use crate::encoding::write_bytes;
use crate::pubkey::Pubkey;
use crate::state::Bucket;
use vstd::prelude::*;

verus! {

/// The address that the ledger derives for `program_id` from `seeds`, with the
/// salt that makes it valid, or `None` where it derives none.
pub uninterp spec fn program_address(seeds: Seq<Seq<u8>>, program_id: Pubkey) -> Option<
    (Pubkey, u8),
>;

/// Calls `pinocchio::pubkey::try_find_program_address`, which asks the ledger
/// to derive an address from the seeds and the program's address, and never
/// panics. The contract claims that the answer depends on these two
/// arguments alone, and calls it `program_address`; which address it is, is
/// not stated. In a build for another target than the ledger the outside
/// function derives nothing and answers `None` for every argument.
#[verifier::external_body]
fn try_find_program_address(seeds: &Vec<Vec<u8>>, program_id: &Pubkey) -> (r: Option<
    (Pubkey, u8),
>)
    ensures
        r == program_address(seeds.deep_view(), *program_id),
{
    let parts: Vec<&[u8]> = seeds.iter().map(|seed| seed.as_slice()).collect();
    pinocchio::pubkey::try_find_program_address(&parts, program_id)
}

/// The seeds of a record's address: the tag `bucket`, the creator and the
/// contest's own seed.
pub open spec fn bucket_seeds(creator: Pubkey, seed: Seq<u8>) -> Seq<Seq<u8>> {
    seq![Bucket::SEED_PREFIX@, creator@, seed]
}

/// The seeds of a pot's address: the tag `main` and the record's address.
pub open spec fn main_bucket_seeds(bucket: Pubkey) -> Seq<Seq<u8>> {
    seq![Bucket::MAIN_SEED_PREFIX@, bucket@]
}

/// The seeds of the first escrow's address: the tag `escrow_a` and the
/// record's address.
pub open spec fn escrow_a_seeds(bucket: Pubkey) -> Seq<Seq<u8>> {
    seq![Bucket::ESCROW_A_SEED_PREFIX@, bucket@]
}

/// The seeds of the second escrow's address: the tag `escrow_b` and the
/// record's address.
pub open spec fn escrow_b_seeds(bucket: Pubkey) -> Seq<Seq<u8>> {
    seq![Bucket::ESCROW_B_SEED_PREFIX@, bucket@]
}

/// The three addresses that belong to a record, each with its salt, as far as
/// the ledger derives them.
pub struct DerivedAddresses {
    /// The pot.
    pub main_bucket: Option<(Pubkey, u8)>,
    /// The escrow of the first competing address.
    pub escrow_a: Option<(Pubkey, u8)>,
    /// The escrow of the second competing address.
    pub escrow_b: Option<(Pubkey, u8)>,
}

/// The addresses that the ledger derives for the record at `bucket`.
pub open spec fn derived_addresses(bucket: Pubkey, program_id: Pubkey) -> DerivedAddresses {
    DerivedAddresses {
        main_bucket: program_address(main_bucket_seeds(bucket), program_id),
        escrow_a: program_address(escrow_a_seeds(bucket), program_id),
        escrow_b: program_address(escrow_b_seeds(bucket), program_id),
    }
}

/// A copy of `bytes` that owns its storage.
fn seed_of(bytes: &[u8]) -> (seed: Vec<u8>)
    ensures
        seed@ == bytes@,
{
    let mut seed: Vec<u8> = Vec::new();
    write_bytes(&mut seed, bytes);
    seed
}

/// The seeds of a record's address as a list.
pub(crate) fn bucket_seed_list(creator: &Pubkey, seed: &[u8]) -> (seeds: Vec<Vec<u8>>)
    ensures
        seeds.deep_view() == bucket_seeds(*creator, seed@),
{
    let mut seeds: Vec<Vec<u8>> = Vec::new();
    seeds.push(seed_of(Bucket::SEED_PREFIX.as_slice()));
    seeds.push(seed_of(creator.as_slice()));
    seeds.push(seed_of(seed));
    assert(seeds.deep_view() =~~= bucket_seeds(*creator, seed@));
    seeds
}

/// The pair of a tag and a record's address as a list of seeds.
pub(crate) fn tagged_seed_list(tag: &[u8], bucket: &Pubkey) -> (seeds: Vec<Vec<u8>>)
    ensures
        seeds.deep_view() == seq![tag@, bucket@],
{
    let mut seeds: Vec<Vec<u8>> = Vec::new();
    seeds.push(seed_of(tag));
    seeds.push(seed_of(bucket.as_slice()));
    assert(seeds.deep_view() =~~= seq![tag@, bucket@]);
    seeds
}

/// Appends the salt `bump` to `seeds` as a seed of its own: with it the
/// seeds sign for the address that was derived from them.
pub(crate) fn with_bump(seeds: Vec<Vec<u8>>, bump: u8) -> (signing: Vec<Vec<u8>>)
    ensures
        signing.deep_view() == seeds.deep_view().push(seq![bump]),
{
    let mut signing = seeds;
    let mut salt: Vec<u8> = Vec::new();
    salt.push(bump);
    assert(salt@ =~= seq![bump]);
    signing.push(salt);
    assert(signing.deep_view() =~~= seeds.deep_view().push(seq![bump]));
    signing
}

/// Derives the address of a contest's record from its creator and its seed.
pub fn derive_bucket_address(creator: &Pubkey, seed: &[u8], program_id: &Pubkey) -> (r: Option<
    (Pubkey, u8),
>)
    ensures
        r == program_address(bucket_seeds(*creator, seed@), *program_id),
{
    let seeds = bucket_seed_list(creator, seed);
    try_find_program_address(&seeds, program_id)
}

/// Derives the address of the pair of a tag and a record's address.
fn derive_tagged(tag: &[u8], bucket: &Pubkey, program_id: &Pubkey) -> (r: Option<(Pubkey, u8)>)
    ensures
        r == program_address(seq![tag@, bucket@], *program_id),
{
    let seeds = tagged_seed_list(tag, bucket);
    try_find_program_address(&seeds, program_id)
}

/// Derives the address of the pot that belongs to the record at `bucket`.
pub fn derive_main_bucket_address(bucket: &Pubkey, program_id: &Pubkey) -> (r: Option<
    (Pubkey, u8),
>)
    ensures
        r == program_address(main_bucket_seeds(*bucket), *program_id),
{
    derive_tagged(Bucket::MAIN_SEED_PREFIX.as_slice(), bucket, program_id)
}

/// Derives the address of the first escrow that belongs to the record at `bucket`.
pub fn derive_escrow_a_address(bucket: &Pubkey, program_id: &Pubkey) -> (r: Option<(Pubkey, u8)>)
    ensures
        r == program_address(escrow_a_seeds(*bucket), *program_id),
{
    derive_tagged(Bucket::ESCROW_A_SEED_PREFIX.as_slice(), bucket, program_id)
}

/// Derives the address of the second escrow that belongs to the record at `bucket`.
pub fn derive_escrow_b_address(bucket: &Pubkey, program_id: &Pubkey) -> (r: Option<(Pubkey, u8)>)
    ensures
        r == program_address(escrow_b_seeds(*bucket), *program_id),
{
    derive_tagged(Bucket::ESCROW_B_SEED_PREFIX.as_slice(), bucket, program_id)
}

/// Derives the pot and the two escrows that belong to the record at `bucket`.
pub fn derive_addresses(bucket: &Pubkey, program_id: &Pubkey) -> (r: DerivedAddresses)
    ensures
        r == derived_addresses(*bucket, *program_id),
{
    DerivedAddresses {
        main_bucket: derive_main_bucket_address(bucket, program_id),
        escrow_a: derive_escrow_a_address(bucket, program_id),
        escrow_b: derive_escrow_b_address(bucket, program_id),
    }
}

} // verus!
