use crate::address::{lemma_from_seq, Address};
use vstd::prelude::*;

verus! {

/// What `Pubkey::try_find_program_address` returns for these seeds under this
/// program: an address and the bump that it was found with, or nothing.
pub uninterp spec fn found_address(seeds: Seq<Seq<u8>>, program: Seq<u8>) -> Option<(Seq<u8>, u8)>;

/// What `Pubkey::create_program_address` returns for these seeds under this
/// program, `None` standing for each of its errors.
pub uninterp spec fn created_address(seeds: Seq<Seq<u8>>, program: Seq<u8>) -> Option<Seq<u8>>;

/// `Pubkey::try_find_program_address`: a hash of the seeds, a bump and the
/// program's address. Nothing is proved of it but that its result depends on
/// its arguments alone.
#[verifier::external_body]
fn find_program_address(seeds: &Vec<Vec<u8>>, program: &Address) -> (r: Option<(Address, u8)>)
    ensures
        found_address(seeds.deep_view(), program@) == match r {
            Some((a, bump)) => Some((a@, bump)),
            None => None::<(Seq<u8>, u8)>,
        },
{
    let parts: Vec<&[u8]> = seeds.iter().map(|s| s.as_slice()).collect();
    let id = anchor_lang::prelude::Pubkey::new_from_array(program.bytes);
    match anchor_lang::prelude::Pubkey::try_find_program_address(&parts, &id) {
        Some((key, bump)) => Some((Address { bytes: key.to_bytes() }, bump)),
        None => None,
    }
}

/// `Pubkey::create_program_address`: a hash of the seeds and the program's
/// address, refused where a key pair could sign for it or a seed is too long.
/// Nothing is proved of it but that its result depends on its arguments alone.
#[verifier::external_body]
fn create_program_address(seeds: &Vec<Vec<u8>>, program: &Address) -> (r: Option<Address>)
    ensures
        created_address(seeds.deep_view(), program@) == match r {
            Some(a) => Some(a@),
            None => None::<Seq<u8>>,
        },
{
    let parts: Vec<&[u8]> = seeds.iter().map(|s| s.as_slice()).collect();
    let id = anchor_lang::prelude::Pubkey::new_from_array(program.bytes);
    match anchor_lang::prelude::Pubkey::create_program_address(&parts, &id) {
        Ok(key) => Some(Address { bytes: key.to_bytes() }),
        Err(_) => None,
    }
}

/// The address and bump derived from `seeds` under `program`, if there is one.
pub open spec fn derived(seeds: Seq<Seq<u8>>, program: Address) -> Option<(Address, u8)> {
    match found_address(seeds, program@) {
        Some((bytes, bump)) => Some((Address::from_seq(bytes), bump)),
        None => None,
    }
}

/// The address that `seeds`, a stored bump among them, lead back to under
/// `program`, if they lead to one.
pub open spec fn recomputed(seeds: Seq<Seq<u8>>, program: Address) -> Option<Address> {
    match created_address(seeds, program@) {
        Some(bytes) => Some(Address::from_seq(bytes)),
        None => None,
    }
}

/// Derives the address of a new record and the bump that proves it.
pub fn derive_address(seeds: &Vec<Vec<u8>>, program: &Address) -> (r: Option<(Address, u8)>)
    ensures
        r == derived(seeds.deep_view(), *program),
{
    let r = find_program_address(seeds, program);
    proof {
        if let Some((a, _)) = r {
            lemma_from_seq(a);
        }
    }
    r
}

/// Recomputes a record's address from its seeds and its stored bump.
pub fn recompute_address(seeds: &Vec<Vec<u8>>, program: &Address) -> (r: Option<Address>)
    ensures
        r == recomputed(seeds.deep_view(), *program),
{
    let r = create_program_address(seeds, program);
    proof {
        if let Some(a) = r {
            lemma_from_seq(a);
        }
    }
    r
}

} // verus!
