use vstd::prelude::*;
use solana_program::pubkey::Pubkey;
use crate::codec::{Key, key_to_vec};

verus! {

/// The address and nonce that the nonce search finds for `seeds` under
/// `program_id`, if a nonce from 255 down to 1 gives an address off the curve.
pub uninterp spec fn found_program_address(seeds: Seq<Seq<u8>>, program_id: Seq<u8>) -> Option<
    (Seq<u8>, u8),
>;

/// The address that `seeds` (the nonce included) give under `program_id`,
/// if it lies off the curve.
pub uninterp spec fn created_program_address(seeds: Seq<Seq<u8>>, program_id: Seq<u8>) -> Option<
    Seq<u8>,
>;

/// The token program's address (`TokenkegQfeZyiNwAJbNbGKPFXCWuBvf9Ss623VQ5DA`).
pub open spec fn token_program_id() -> Seq<u8> {
    seq![
        6u8, 221, 246, 225, 215, 101, 161, 147, 217, 203, 225, 70, 206, 235, 121, 172, 28, 180,
        133, 237, 95, 91, 55, 145, 58, 140, 245, 133, 126, 255, 0, 169,
    ]
}

/// The system program's address: 32 zero bytes.
pub open spec fn system_program_id() -> Seq<u8> {
    Seq::new(32, |i: int| 0u8)
}

/// Whether `key` is the token program's address.
pub open spec fn is_token_program_key(key: Seq<u8>) -> bool {
    key == token_program_id()
}

/// Whether `key` is the system program's address.
pub open spec fn is_system_program_key(key: Seq<u8>) -> bool {
    key == system_program_id()
}

/// The byte sequences of a list of seeds.
pub open spec fn seeds_view(seeds: Seq<Vec<u8>>) -> Seq<Seq<u8>> {
    seeds.map_values(|s: Vec<u8>| s@)
}

/// Relies on `Pubkey::try_find_program_address`: it tries the nonces from 255
/// down and returns the first whose address `Pubkey::create_program_address`
/// accepts, so re-deriving with that nonce appended gives the same address
/// and every higher nonce was refused.
#[verifier::external_body]
fn find_address(seeds: &Vec<Vec<u8>>, program_id: &Key) -> (r: Option<(Key, u8)>)
    ensures
        match r {
            Some(p) => found_program_address(seeds_view(seeds@), program_id@) == Some((p.0@, p.1))
                && created_program_address(seeds_view(seeds@).push(seq![p.1]), program_id@)
                == Some(p.0@) && forall|b: u8|
                p.1 < b ==> created_program_address(
                    #[trigger] seeds_view(seeds@).push(seq![b]),
                    program_id@,
                ) is None,
            None => found_program_address(seeds_view(seeds@), program_id@) is None,
        },
{
    let refs: Vec<&[u8]> = seeds.iter().map(|s| s.as_slice()).collect();
    Pubkey::try_find_program_address(&refs, &Pubkey::new_from_array(*program_id)).map(
        |(a, b)| (a.to_bytes(), b),
    )
}

/// Relies on `Pubkey::create_program_address`: the address of `seeds`, or an
/// error when it lies on the curve or the seeds are too long.
#[verifier::external_body]
fn create_address(seeds: &Vec<Vec<u8>>, program_id: &Key) -> (r: Option<Key>)
    ensures
        match r {
            Some(a) => created_program_address(seeds_view(seeds@), program_id@) == Some(a@),
            None => created_program_address(seeds_view(seeds@), program_id@) is None,
        },
{
    let refs: Vec<&[u8]> = seeds.iter().map(|s| s.as_slice()).collect();
    Pubkey::create_program_address(&refs, &Pubkey::new_from_array(*program_id)).ok().map(
        |a| a.to_bytes(),
    )
}

/// Relies on `spl_token::check_id`: whether the key equals the token
/// program's declared address.
#[verifier::external_body]
pub(crate) fn check_token_program(key: &Key) -> (r: bool)
    ensures
        r == is_token_program_key(key@),
{
    spl_token::check_id(&Pubkey::new_from_array(*key))
}

/// Relies on `system_program::check_id`: whether the key equals the system
/// program's declared address, all zero bytes.
#[verifier::external_body]
pub(crate) fn check_system_program(key: &Key) -> (r: bool)
    ensures
        r == is_system_program_key(key@),
{
    solana_program::system_program::check_id(&Pubkey::new_from_array(*key))
}

/// Seed tag of campaign records.
pub open spec fn fundraiser_tag() -> Seq<u8> {
    seq![102u8, 117, 110, 100, 114, 97, 105, 115, 101, 114]
}

/// Seed tag of pledge records.
pub open spec fn contributor_tag() -> Seq<u8> {
    seq![99u8, 111, 110, 116, 114, 105, 98, 117, 116, 111, 114]
}

/// Seeds of the campaign record of `maker`.
pub open spec fn fundraiser_seeds(maker: Seq<u8>) -> Seq<Seq<u8>> {
    seq![fundraiser_tag(), maker]
}

/// Seeds of the pledge record of `contributor` in campaign `fundraiser`.
pub open spec fn contributor_seeds(fundraiser: Seq<u8>, contributor: Seq<u8>) -> Seq<Seq<u8>> {
    seq![contributor_tag(), fundraiser, contributor]
}

fn fundraiser_tag_bytes() -> (r: Vec<u8>)
    ensures
        r@ == fundraiser_tag(),
{
    let r: Vec<u8> = vec![102u8, 117, 110, 100, 114, 97, 105, 115, 101, 114];
    assert(r@ =~= fundraiser_tag());
    r
}

fn contributor_tag_bytes() -> (r: Vec<u8>)
    ensures
        r@ == contributor_tag(),
{
    let r: Vec<u8> = vec![99u8, 111, 110, 116, 114, 105, 98, 117, 116, 111, 114];
    assert(r@ =~= contributor_tag());
    r
}

/// Derives the campaign record's address and nonce for `maker`. Re-deriving
/// with the nonce found gives the same address; no higher nonce gives one.
pub fn find_fundraiser_address(maker: &Key, program_id: &Key) -> (r: Option<(Key, u8)>)
    ensures
        match r {
            Some(p) => {
                &&& found_program_address(fundraiser_seeds(maker@), program_id@) == Some(
                    (p.0@, p.1),
                )
                &&& created_program_address(fundraiser_seeds(maker@).push(seq![p.1]), program_id@)
                    == Some(p.0@)
                &&& forall|b: u8|
                    p.1 < b ==> created_program_address(
                        #[trigger] fundraiser_seeds(maker@).push(seq![b]),
                        program_id@,
                    ) is None
            },
            None => found_program_address(fundraiser_seeds(maker@), program_id@) is None,
        },
{
    let seeds: Vec<Vec<u8>> = vec![fundraiser_tag_bytes(), key_to_vec(maker)];
    assert(seeds_view(seeds@) =~= fundraiser_seeds(maker@));
    find_address(&seeds, program_id)
}

/// Derives the pledge record's address and nonce of `contributor` in
/// `fundraiser`. Re-deriving with the nonce found gives the same address; no
/// higher nonce gives one.
pub fn find_contributor_address(fundraiser: &Key, contributor: &Key, program_id: &Key) -> (r:
    Option<(Key, u8)>)
    ensures
        match r {
            Some(p) => {
                &&& found_program_address(contributor_seeds(fundraiser@, contributor@), program_id@)
                    == Some((p.0@, p.1))
                &&& created_program_address(
                    contributor_seeds(fundraiser@, contributor@).push(seq![p.1]),
                    program_id@,
                ) == Some(p.0@)
                &&& forall|b: u8|
                    p.1 < b ==> created_program_address(
                        #[trigger] contributor_seeds(fundraiser@, contributor@).push(seq![b]),
                        program_id@,
                    ) is None
            },
            None => found_program_address(
                contributor_seeds(fundraiser@, contributor@),
                program_id@,
            ) is None,
        },
{
    let seeds: Vec<Vec<u8>> = vec![
        contributor_tag_bytes(),
        key_to_vec(fundraiser),
        key_to_vec(contributor),
    ];
    assert(seeds_view(seeds@) =~= contributor_seeds(fundraiser@, contributor@));
    find_address(&seeds, program_id)
}

/// Re-derives the campaign record's address of `maker` from its stored nonce.
pub fn create_fundraiser_address(maker: &Key, bump: u8, program_id: &Key) -> (r: Option<Key>)
    ensures
        match r {
            Some(a) => created_program_address(
                fundraiser_seeds(maker@).push(seq![bump]),
                program_id@,
            ) == Some(a@),
            None => created_program_address(
                fundraiser_seeds(maker@).push(seq![bump]),
                program_id@,
            ) is None,
        },
{
    let nonce: Vec<u8> = vec![bump];
    assert(nonce@ =~= seq![bump]);
    let seeds: Vec<Vec<u8>> = vec![fundraiser_tag_bytes(), key_to_vec(maker), nonce];
    assert(seeds_view(seeds@) =~= fundraiser_seeds(maker@).push(seq![bump]));
    create_address(&seeds, program_id)
}

} // verus!
