use crate::address::Address;
use vstd::prelude::*;
use vstd::string::*;

verus! {

/// The most bytes that one seed can hold.
pub const MAX_SEED_LEN: usize = 32;

/// The bytes of the word `marketplace`.
pub open spec fn marketplace_tag() -> Seq<u8> {
    seq![109u8, 97u8, 114u8, 107u8, 101u8, 116u8, 112u8, 108u8, 97u8, 99u8, 101u8]
}

/// The bytes of the word `treasury`.
pub open spec fn treasury_tag() -> Seq<u8> {
    seq![116u8, 114u8, 101u8, 97u8, 115u8, 117u8, 114u8, 121u8]
}

/// The bytes of the word `rewards`.
pub open spec fn rewards_tag() -> Seq<u8> {
    seq![114u8, 101u8, 119u8, 97u8, 114u8, 100u8, 115u8]
}

/// Seeds of a marketplace record: the word `marketplace`, then the name. One
/// seed holds at most 32 bytes, so a longer name goes into two seeds, cut
/// after byte 32: the same bytes in the same order.
pub open spec fn marketplace_seeds_spec(name: Seq<char>) -> Seq<Seq<u8>> {
    let bytes = vstd::utf8::encode_utf8(name);
    if bytes.len() <= 32 {
        seq![marketplace_tag(), bytes]
    } else {
        seq![marketplace_tag(), bytes.subrange(0, 32), bytes.subrange(32, bytes.len() as int)]
    }
}

/// Seeds of a marketplace's treasury: the word `treasury`, then the
/// marketplace's address.
pub open spec fn treasury_seeds_spec(marketplace: Address) -> Seq<Seq<u8>> {
    seq![treasury_tag(), marketplace@]
}

/// Seeds of a marketplace's rewards issuer: the word `rewards`, then the
/// marketplace's address.
pub open spec fn rewards_seeds_spec(marketplace: Address) -> Seq<Seq<u8>> {
    seq![rewards_tag(), marketplace@]
}

/// Seeds of a listing: the marketplace's address, then the asset's.
pub open spec fn listing_seeds_spec(marketplace: Address, asset: Address) -> Seq<Seq<u8>> {
    seq![marketplace@, asset@]
}

/// Seeds followed by a bump: the bump is one more seed, of one byte.
pub open spec fn with_bump_spec(seeds: Seq<Seq<u8>>, bump: u8) -> Seq<Seq<u8>> {
    seeds.push(seq![bump])
}

fn marketplace_tag_bytes() -> (v: Vec<u8>)
    ensures
        v@ == marketplace_tag(),
{
    let mut v: Vec<u8> = Vec::new();
    v.push(109u8);
    v.push(97u8);
    v.push(114u8);
    v.push(107u8);
    v.push(101u8);
    v.push(116u8);
    v.push(112u8);
    v.push(108u8);
    v.push(97u8);
    v.push(99u8);
    v.push(101u8);
    assert(v@ =~= marketplace_tag());
    v
}

fn treasury_tag_bytes() -> (v: Vec<u8>)
    ensures
        v@ == treasury_tag(),
{
    let mut v: Vec<u8> = Vec::new();
    v.push(116u8);
    v.push(114u8);
    v.push(101u8);
    v.push(97u8);
    v.push(115u8);
    v.push(117u8);
    v.push(114u8);
    v.push(121u8);
    assert(v@ =~= treasury_tag());
    v
}

fn rewards_tag_bytes() -> (v: Vec<u8>)
    ensures
        v@ == rewards_tag(),
{
    let mut v: Vec<u8> = Vec::new();
    v.push(114u8);
    v.push(101u8);
    v.push(119u8);
    v.push(97u8);
    v.push(114u8);
    v.push(100u8);
    v.push(115u8);
    assert(v@ =~= rewards_tag());
    v
}

fn pair(first: Vec<u8>, second: Vec<u8>) -> (seeds: Vec<Vec<u8>>)
    ensures
        seeds.deep_view() == seq![first@, second@],
{
    let mut seeds: Vec<Vec<u8>> = Vec::new();
    seeds.push(first);
    seeds.push(second);
    assert(seeds.deep_view() =~~= seq![first@, second@]);
    seeds
}

/// The seeds of the marketplace named `name`.
pub fn marketplace_seeds(name: &str) -> (seeds: Vec<Vec<u8>>)
    ensures
        seeds.deep_view() == marketplace_seeds_spec(name@),
{
    let mut head = name.as_bytes_vec();
    if head.len() <= MAX_SEED_LEN {
        pair(marketplace_tag_bytes(), head)
    } else {
        let tail = head.split_off(MAX_SEED_LEN);
        let mut seeds = pair(marketplace_tag_bytes(), head);
        let ghost first_two = seeds.deep_view();
        seeds.push(tail);
        assert(seeds.deep_view() =~~= first_two.push(tail@));
        assert(first_two.push(tail@) =~~= marketplace_seeds_spec(name@));
        seeds
    }
}

/// The seeds of the treasury of `marketplace`.
pub fn treasury_seeds(marketplace: &Address) -> (seeds: Vec<Vec<u8>>)
    ensures
        seeds.deep_view() == treasury_seeds_spec(*marketplace),
{
    pair(treasury_tag_bytes(), marketplace.to_vec())
}

/// The seeds of the rewards issuer of `marketplace`.
pub fn rewards_seeds(marketplace: &Address) -> (seeds: Vec<Vec<u8>>)
    ensures
        seeds.deep_view() == rewards_seeds_spec(*marketplace),
{
    pair(rewards_tag_bytes(), marketplace.to_vec())
}

/// The seeds of the listing of `asset` on `marketplace`.
pub fn listing_seeds(marketplace: &Address, asset: &Address) -> (seeds: Vec<Vec<u8>>)
    ensures
        seeds.deep_view() == listing_seeds_spec(*marketplace, *asset),
{
    pair(marketplace.to_vec(), asset.to_vec())
}

/// `seeds` with `bump` as one more seed at the end.
pub fn with_bump(seeds: Vec<Vec<u8>>, bump: u8) -> (signed: Vec<Vec<u8>>)
    ensures
        signed.deep_view() == with_bump_spec(seeds.deep_view(), bump),
{
    let mut signed = seeds;
    let mut last: Vec<u8> = Vec::new();
    last.push(bump);
    assert(last@ =~= seq![bump]);
    signed.push(last);
    assert(signed.deep_view() =~~= with_bump_spec(seeds.deep_view(), bump));
    signed
}

} // verus!
