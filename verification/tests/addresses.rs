use anchor_lang::prelude::Pubkey;
use brolli_license::address::{
    find_ledger_address, find_mint_address, find_record_address, find_registrar_address,
    ledger_signer_seeds_for,
};
use brolli_license::identity::Identity;
use brolli_license::issuance::derive_accounts;

fn program() -> Pubkey {
    Pubkey::new_from_array([11u8; 32])
}

fn registrar() -> Pubkey {
    Pubkey::new_from_array([23u8; 32])
}

fn of(key: &Pubkey) -> Identity {
    Identity::new(key.to_bytes())
}

#[test]
fn ledger_address_is_derived_from_its_tag() {
    let (key, bump) = Pubkey::find_program_address(&[b"license_state"], &program());
    assert_eq!(find_ledger_address(&of(&program())), Some((of(&key), bump)));
    assert_ne!(of(&key), of(&program()));
}

#[test]
fn mint_address_is_derived_from_the_token_id() {
    for token_id in [1u64, 2, 50, 256, 0x0102_0304_0506_0708] {
        let (key, bump) =
            Pubkey::find_program_address(&[b"mint", &token_id.to_le_bytes()], &program());
        assert_eq!(find_mint_address(token_id, &of(&program())), Some((of(&key), bump)));
    }
    assert_ne!(
        find_mint_address(1, &of(&program())).unwrap().0,
        find_mint_address(2, &of(&program())).unwrap().0
    );
}

#[test]
fn mint_address_depends_on_the_program() {
    assert_ne!(
        find_mint_address(1, &of(&program())).unwrap().0,
        find_mint_address(1, &of(&registrar())).unwrap().0
    );
}

#[test]
fn record_address_is_derived_from_the_mint() {
    let mint = Pubkey::new_from_array([5u8; 32]);
    let (key, bump) = Pubkey::find_program_address(&[b"metadata", mint.as_ref()], &program());
    assert_eq!(find_record_address(&of(&mint), &of(&program())), Some((of(&key), bump)));
}

#[test]
fn registrar_address_is_derived_under_the_metadata_program() {
    let mint = Pubkey::new_from_array([5u8; 32]);
    let (key, bump) = Pubkey::find_program_address(
        &[b"metadata", registrar().as_ref(), mint.as_ref()],
        &registrar(),
    );
    assert_eq!(find_registrar_address(&of(&mint), &of(&registrar())), Some((of(&key), bump)));
}

#[test]
fn signer_seeds_are_the_tag_and_the_bump() {
    assert_eq!(ledger_signer_seeds_for(254), vec![b"license_state".to_vec(), vec![254u8]]);
}

#[test]
fn accounts_of_a_license_are_derived_together() {
    let accounts = derive_accounts(&of(&program()), &of(&registrar()), 3).unwrap();
    let (ledger, bump) = Pubkey::find_program_address(&[b"license_state"], &program());
    let (mint, _) = Pubkey::find_program_address(&[b"mint", &3u64.to_le_bytes()], &program());
    let (metadata, _) = Pubkey::find_program_address(
        &[b"metadata", registrar().as_ref(), mint.as_ref()],
        &registrar(),
    );
    let (record, _) = Pubkey::find_program_address(&[b"metadata", mint.as_ref()], &program());
    assert_eq!(accounts.license_state, of(&ledger));
    assert_eq!(accounts.license_state_bump, bump);
    assert_eq!(accounts.mint, of(&mint));
    assert_eq!(accounts.metadata, of(&metadata));
    assert_eq!(accounts.license_metadata, of(&record));
}
