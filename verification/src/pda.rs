//! Deterministic identity derivation.
//!
//! A program-owned address is derived from a domain-separation tag plus an
//! ordered sequence of seed byte-strings and a numeric bump disambiguator.
//! A successful derivation is reproducible by anyone who knows the inputs,
//! and the derived address has no known signing secret, so matching a
//! record's address against a fresh derivation proves the record is a
//! legitimate protocol-owned actor.

use vstd::prelude::*;
use crate::key::Key;
use spl_associated_token_account::solana_program::pubkey::Pubkey;

verus! {

/// The address, if any, that the ledger's derivation function yields for a
/// seed list and a deriving program; `None` when the derived bytes fall
/// inside the valid-signing-key space and the derivation is rejected.
pub uninterp spec fn program_address_of(seeds: Seq<Seq<u8>>, program_id: Seq<u8>) -> Option<
    Seq<u8>,
>;

/// The canonical associated token account address for an (owner, mint)
/// pair.
pub uninterp spec fn ata_of(owner: Seq<u8>, mint: Seq<u8>) -> Seq<u8>;

/// Relies on `solana_program::pubkey::Pubkey::create_program_address`: the
/// result is a function of the seed list and the program id alone, and the
/// call fails exactly when the derived bytes are a valid curve point or a
/// seed exceeds the length limits.
#[verifier::external_body]
pub(crate) fn create_program_address(seeds: &Vec<Vec<u8>>, program_id: &Key) -> (r: Option<Key>)
    ensures
        r.deep_view() == program_address_of(seeds.deep_view(), program_id@),
{
    let seed_slices: Vec<&[u8]> = seeds.iter().map(|s| s.as_slice()).collect();
    match Pubkey::create_program_address(&seed_slices, &Pubkey::new_from_array(program_id.bytes)) {
        Ok(p) => Some(Key { bytes: p.to_bytes() }),
        Err(_) => None,
    }
}

/// Relies on `spl_associated_token_account::get_associated_token_address`:
/// the canonical associated account address is a function of the wallet and
/// mint addresses alone.
#[verifier::external_body]
pub(crate) fn associated_token_address(owner: &Key, mint: &Key) -> (r: Key)
    ensures
        r@ == ata_of(owner@, mint@),
{
    let o = Pubkey::new_from_array(owner.bytes);
    let m = Pubkey::new_from_array(mint.bytes);
    Key { bytes: spl_associated_token_account::get_associated_token_address(&o, &m).to_bytes() }
}

/// The domain-separation tag of NFT-metadata records: the bytes of
/// `"metadata"`.
pub open spec fn metadata_tag() -> Seq<u8> {
    seq![109u8, 101u8, 116u8, 97u8, 100u8, 97u8, 116u8, 97u8]
}

/// The address of the external token-metadata program that owns all
/// NFT-metadata records.
pub open spec fn metadata_program_id_bytes() -> Seq<u8> {
    seq![
        11u8, 112u8, 101u8, 177u8, 227u8, 209u8, 124u8, 69u8, 56u8, 157u8, 82u8, 127u8, 107u8,
        4u8, 195u8, 205u8, 88u8, 184u8, 108u8, 115u8, 26u8, 160u8, 253u8, 181u8, 73u8, 182u8,
        209u8, 188u8, 3u8, 248u8, 41u8, 70u8,
    ]
}

/// The domain-separation tag of operator records: the bytes of
/// `"Operator"`.
pub open spec fn operator_tag() -> Seq<u8> {
    seq![79u8, 112u8, 101u8, 114u8, 97u8, 116u8, 111u8, 114u8]
}

/// The address of the delegation program itself, under which operator
/// records are derived.
pub open spec fn operator_program_id_bytes() -> Seq<u8> {
    seq![
        143u8, 254u8, 228u8, 44u8, 69u8, 162u8, 72u8, 35u8, 66u8, 209u8, 65u8, 140u8, 242u8,
        70u8, 229u8, 243u8, 41u8, 234u8, 7u8, 218u8, 90u8, 65u8, 110u8, 77u8, 225u8, 241u8,
        155u8, 212u8, 164u8, 10u8, 191u8, 26u8,
    ]
}

/// The token-metadata program's address as a key value.
pub fn metadata_program_id() -> (k: Key)
    ensures
        k@ == metadata_program_id_bytes(),
{
    let k = Key {
        bytes: [
            11u8, 112u8, 101u8, 177u8, 227u8, 209u8, 124u8, 69u8, 56u8, 157u8, 82u8, 127u8, 107u8,
            4u8, 195u8, 205u8, 88u8, 184u8, 108u8, 115u8, 26u8, 160u8, 253u8, 181u8, 73u8, 182u8,
            209u8, 188u8, 3u8, 248u8, 41u8, 70u8,
        ],
    };
    proof {
        assert(k@ =~= metadata_program_id_bytes());
    }
    k
}

/// The delegation program's address as a key value.
pub fn operator_program_id() -> (k: Key)
    ensures
        k@ == operator_program_id_bytes(),
{
    let k = Key {
        bytes: [
            143u8, 254u8, 228u8, 44u8, 69u8, 162u8, 72u8, 35u8, 66u8, 209u8, 65u8, 140u8, 242u8,
            70u8, 229u8, 243u8, 41u8, 234u8, 7u8, 218u8, 90u8, 65u8, 110u8, 77u8, 225u8, 241u8,
            155u8, 212u8, 164u8, 10u8, 191u8, 26u8,
        ],
    };
    proof {
        assert(k@ =~= operator_program_id_bytes());
    }
    k
}

/// The seed list an NFT-metadata record's address is derived from:
/// the metadata tag, the metadata program's address, the NFT mint, and the
/// bump.
pub open spec fn metadata_seeds(mint: Seq<u8>, bump: u8) -> Seq<Seq<u8>> {
    seq![metadata_tag(), metadata_program_id_bytes(), mint, seq![bump]]
}

/// The expected address of the metadata record for an NFT mint, if the
/// supplied bump yields one.
pub open spec fn expected_metadata_address(mint: Seq<u8>, bump: u8) -> Option<Seq<u8>> {
    program_address_of(metadata_seeds(mint, bump), metadata_program_id_bytes())
}

/// The seed list an operator record's address is derived from: the operator
/// tag, the base key, and the bump.
pub open spec fn operator_seeds(base: Seq<u8>, bump: u8) -> Seq<Seq<u8>> {
    seq![operator_tag(), base, seq![bump]]
}

/// The expected address of the operator record for a base key, if the
/// supplied bump yields one.
pub open spec fn expected_operator_address(base: Seq<u8>, bump: u8) -> Option<Seq<u8>> {
    program_address_of(operator_seeds(base, bump), operator_program_id_bytes())
}

/// The metadata tag as bytes.
fn metadata_tag_bytes() -> (v: Vec<u8>)
    ensures
        v@ == metadata_tag(),
{
    let mut v: Vec<u8> = Vec::new();
    v.push(109u8);
    v.push(101u8);
    v.push(116u8);
    v.push(97u8);
    v.push(100u8);
    v.push(97u8);
    v.push(116u8);
    v.push(97u8);
    proof {
        assert(v@ =~= metadata_tag());
    }
    v
}

/// The operator tag as bytes.
fn operator_tag_bytes() -> (v: Vec<u8>)
    ensures
        v@ == operator_tag(),
{
    let mut v: Vec<u8> = Vec::new();
    v.push(79u8);
    v.push(112u8);
    v.push(101u8);
    v.push(114u8);
    v.push(97u8);
    v.push(116u8);
    v.push(111u8);
    v.push(114u8);
    proof {
        assert(v@ =~= operator_tag());
    }
    v
}

/// Derives the address of the metadata record for an NFT mint with the
/// supplied bump.
pub fn derive_metadata_address(mint: &Key, bump: u8) -> (r: Option<Key>)
    ensures
        r.deep_view() == expected_metadata_address(mint@, bump),
{
    let program = metadata_program_id();
    let mut seeds: Vec<Vec<u8>> = Vec::new();
    seeds.push(metadata_tag_bytes());
    seeds.push(program.to_vec());
    seeds.push(mint.to_vec());
    let mut bump_seed: Vec<u8> = Vec::new();
    bump_seed.push(bump);
    proof {
        assert(bump_seed@ =~= seq![bump]);
    }
    seeds.push(bump_seed);
    proof {
        assert(seeds.deep_view() =~~= metadata_seeds(mint@, bump));
    }
    create_program_address(&seeds, &program)
}

/// Derives the address of the operator record for a base key with the
/// supplied bump.
pub fn derive_operator_address(base: &Key, bump: u8) -> (r: Option<Key>)
    ensures
        r.deep_view() == expected_operator_address(base@, bump),
{
    let program = operator_program_id();
    let mut seeds: Vec<Vec<u8>> = Vec::new();
    seeds.push(operator_tag_bytes());
    seeds.push(base.to_vec());
    let mut bump_seed: Vec<u8> = Vec::new();
    bump_seed.push(bump);
    proof {
        assert(bump_seed@ =~= seq![bump]);
    }
    seeds.push(bump_seed);
    proof {
        assert(seeds.deep_view() =~~= operator_seeds(base@, bump));
    }
    create_program_address(&seeds, &program)
}

} // verus!
