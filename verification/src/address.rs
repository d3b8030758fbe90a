//! Program-derived addresses: the seeds that the program's accounts are
//! found by, and the addresses that those seeds lead to.

use vstd::prelude::*;
use vstd::bytes::{spec_u64_to_le_bytes, u64_to_le_bytes};
use crate::identity::Identity;

verus! {

/// The address and bump seed that `Pubkey::try_find_program_address` finds
/// for a list of seeds under a program, if it finds any.
pub uninterp spec fn program_address(seeds: Seq<Seq<u8>>, program_id: Seq<u8>) -> Option<(Seq<u8>, u8)>;

/// Calls `anchor_lang::prelude::Pubkey::try_find_program_address`.
///
/// Trusted: what comes back is `program_address` of the seeds and the
/// program's bytes, the address as an `Identity` of the same bytes. Nothing
/// is claimed of which address that is.
#[verifier::external_body]
fn find_program_address(seeds: &Vec<Vec<u8>>, program_id: &Identity) -> (found: Option<
    (Identity, u8),
>)
    ensures
        match found {
            Some((address, bump)) => program_address(seeds.deep_view(), program_id@) == Some(
                (address@, bump),
            ),
            None => program_address(seeds.deep_view(), program_id@) is None,
        },
{
    let parts: Vec<&[u8]> = seeds.iter().map(|seed| seed.as_slice()).collect();
    let program = anchor_lang::prelude::Pubkey::new_from_array(program_id.bytes);
    anchor_lang::prelude::Pubkey::try_find_program_address(&parts, &program).map(
        |(key, bump)| (Identity { bytes: key.to_bytes() }, bump),
    )
}

/// `found` is what the derivation from `seeds` under `program_id` gives.
pub open spec fn found_at(
    seeds: Seq<Seq<u8>>,
    program_id: Identity,
    found: Option<(Identity, u8)>,
) -> bool {
    match found {
        Some((address, bump)) => program_address(seeds, program_id@) == Some((address@, bump)),
        None => program_address(seeds, program_id@) is None,
    }
}

/// The bytes of `license_state`, the seed of the ledger's address.
pub open spec fn ledger_tag() -> Seq<u8> {
    seq![108u8, 105u8, 99u8, 101u8, 110u8, 115u8, 101u8, 95u8, 115u8, 116u8, 97u8, 116u8, 101u8]
}

/// The bytes of `mint`, the first seed of a license token's address.
pub open spec fn mint_tag() -> Seq<u8> {
    seq![109u8, 105u8, 110u8, 116u8]
}

/// The bytes of `metadata`, the first seed of a record's address and of the
/// metadata program's account for a token.
pub open spec fn metadata_tag() -> Seq<u8> {
    seq![109u8, 101u8, 116u8, 97u8, 100u8, 97u8, 116u8, 97u8]
}

/// The seeds of the ledger's address.
pub open spec fn ledger_seeds() -> Seq<Seq<u8>> {
    seq![ledger_tag()]
}

/// The seeds with which the ledger signs: those of its address, then the
/// bump seed.
pub open spec fn ledger_signer_seeds(bump: u8) -> Seq<Seq<u8>> {
    seq![ledger_tag(), seq![bump]]
}

/// The seeds of the token of license number `token_id`: the tag and the
/// number's eight bytes, lowest first.
pub open spec fn mint_seeds(token_id: u64) -> Seq<Seq<u8>> {
    seq![mint_tag(), spec_u64_to_le_bytes(token_id)]
}

/// The seeds of the record kept for the token at `mint`.
pub open spec fn record_seeds(mint: Seq<u8>) -> Seq<Seq<u8>> {
    seq![metadata_tag(), mint]
}

/// The seeds of the metadata program's account for the token at `mint`.
pub open spec fn registrar_seeds(token_metadata_program: Seq<u8>, mint: Seq<u8>) -> Seq<Seq<u8>> {
    seq![metadata_tag(), token_metadata_program, mint]
}

fn ledger_tag_bytes() -> (tag: Vec<u8>)
    ensures
        tag@ == ledger_tag(),
{
    let tag = vec![108u8, 105u8, 99u8, 101u8, 110u8, 115u8, 101u8, 95u8, 115u8, 116u8, 97u8, 116u8, 101u8];
    assert(tag@ =~= ledger_tag());
    tag
}

fn mint_tag_bytes() -> (tag: Vec<u8>)
    ensures
        tag@ == mint_tag(),
{
    let tag = vec![109u8, 105u8, 110u8, 116u8];
    assert(tag@ =~= mint_tag());
    tag
}

fn metadata_tag_bytes() -> (tag: Vec<u8>)
    ensures
        tag@ == metadata_tag(),
{
    let tag = vec![109u8, 101u8, 116u8, 97u8, 100u8, 97u8, 116u8, 97u8];
    assert(tag@ =~= metadata_tag());
    tag
}

/// The seeds with which the ledger signs, for the bump seed of its address.
pub fn ledger_signer_seeds_for(bump: u8) -> (seeds: Vec<Vec<u8>>)
    ensures
        seeds.deep_view() == ledger_signer_seeds(bump),
{
    let last = vec![bump];
    assert(last@ =~= seq![bump]);
    let seeds = vec![ledger_tag_bytes(), last];
    assert(seeds.deep_view() =~~= ledger_signer_seeds(bump));
    seeds
}

/// The ledger's address under `program_id`, with its bump seed.
pub fn find_ledger_address(program_id: &Identity) -> (found: Option<(Identity, u8)>)
    ensures
        found_at(ledger_seeds(), *program_id, found),
{
    let seeds = vec![ledger_tag_bytes()];
    assert(seeds.deep_view() =~~= ledger_seeds());
    find_program_address(&seeds, program_id)
}

/// The address of the token of license number `token_id`.
pub fn find_mint_address(token_id: u64, program_id: &Identity) -> (found: Option<(Identity, u8)>)
    ensures
        found_at(mint_seeds(token_id), *program_id, found),
{
    let seeds = vec![mint_tag_bytes(), u64_to_le_bytes(token_id)];
    assert(seeds.deep_view() =~~= mint_seeds(token_id));
    find_program_address(&seeds, program_id)
}

/// The address of the record kept for the token at `mint`.
pub fn find_record_address(mint: &Identity, program_id: &Identity) -> (found: Option<
    (Identity, u8),
>)
    ensures
        found_at(record_seeds(mint@), *program_id, found),
{
    let seeds = vec![metadata_tag_bytes(), mint.to_vec()];
    assert(seeds.deep_view() =~~= record_seeds(mint@));
    find_program_address(&seeds, program_id)
}

/// The address of the metadata program's account for the token at `mint`.
pub fn find_registrar_address(mint: &Identity, token_metadata_program: &Identity) -> (found:
    Option<(Identity, u8)>)
    ensures
        found_at(
            registrar_seeds(token_metadata_program@, mint@),
            *token_metadata_program,
            found,
        ),
{
    let seeds = vec![metadata_tag_bytes(), token_metadata_program.to_vec(), mint.to_vec()];
    assert(seeds.deep_view() =~~= registrar_seeds(token_metadata_program@, mint@));
    find_program_address(&seeds, token_metadata_program)
}

} // verus!
