use brolli_license::defaults::{
    resolve, update_default_image_uri, update_default_provenance_cid, Defaults, UpdateDefaults,
    DEFAULT_IMAGE_URI, DEFAULT_PROVENANCE_CID,
};
use brolli_license::error::LicenseError;
use brolli_license::identity::Identity;
use brolli_license::issuance::{
    derive_accounts, issue_license, mint_license, Action, Issuance, IssuanceAccounts, MintLicense,
    Outcome, Phase,
};
use brolli_license::orders::Creator;
use brolli_license::state::{initialize, Initialize, LicenseState};

fn user(n: u8) -> Identity {
    let mut bytes = [0u8; 32];
    bytes[0] = n;
    bytes[1] = 0xA5;
    Identity::new(bytes)
}

fn wallet(n: u8) -> Identity {
    let mut bytes = [0u8; 32];
    bytes[0] = n;
    bytes[1] = 0x5A;
    Identity::new(bytes)
}

fn program() -> Identity {
    Identity::new([11u8; 32])
}

fn registrar() -> Identity {
    Identity::new([23u8; 32])
}

fn authority() -> Identity {
    Identity::new([200u8; 32])
}

fn new_ctx() -> MintLicense {
    let mut init = Initialize { license_state: None, authority: authority() };
    assert_eq!(initialize(&mut init), Ok(()));
    MintLicense {
        program_id: program(),
        license_state: init.license_state.unwrap(),
        user: user(1),
        token_account: wallet(1),
        token_metadata_program: registrar(),
        defaults: Defaults::new(),
    }
}

fn request(ctx: &mut MintLicense, n: u8, name: &str, image: &str, provenance: &str) -> Result<Issuance, LicenseError> {
    ctx.user = user(n);
    ctx.token_account = wallet(n);
    mint_license(ctx, name.to_string(), image.to_string(), provenance.to_string())
}

fn complete(ctx: &mut MintLicense, issuance: &mut Issuance) {
    assert_eq!(issuance.phase, Phase::Minting);
    assert_eq!(issuance.advance(ctx, Outcome::Succeeded), Action::Register);
    assert_eq!(issuance.phase, Phase::Registering);
    assert_eq!(issuance.advance(ctx, Outcome::Succeeded), Action::Record);
    assert_eq!(issuance.phase, Phase::Completed);
}

#[test]
fn fifty_licenses_and_no_more() {
    let mut ctx = new_ctx();
    assert_eq!(ctx.license_state.max_supply, 50);

    let mut first = request(&mut ctx, 1, "X", "", "").unwrap();
    complete(&mut ctx, &mut first);
    assert_eq!(first.token_id, 1);
    assert_eq!(first.record.token_id, 1);
    assert_eq!(first.record.name, "X");
    assert_eq!(first.record.image_uri, DEFAULT_IMAGE_URI);
    assert_eq!(first.record.provenance_cid, DEFAULT_PROVENANCE_CID);
    assert_eq!(first.record.owner, user(1));
    assert_eq!(ctx.license_state.current_supply, 1);

    let again = request(&mut ctx, 1, "X", "", "");
    assert_eq!(again.err(), Some(LicenseError::AlreadyHasLicense));
    assert_eq!(ctx.license_state.current_supply, 1);
    assert_eq!(ctx.license_state.has_license, vec![user(1)]);

    for n in 2..=50u8 {
        let mut issuance = request(&mut ctx, n, "X", "", "").unwrap();
        complete(&mut ctx, &mut issuance);
        assert_eq!(issuance.token_id, n as u64);
        assert_eq!(issuance.record.token_id, n as u64);
        assert_eq!(ctx.license_state.current_supply, n as u64);
    }
    assert_eq!(ctx.license_state.has_license.len(), 50);

    let late = request(&mut ctx, 51, "X", "", "");
    assert_eq!(late.err(), Some(LicenseError::MaximumSupplyReached));
    assert_eq!(ctx.license_state.current_supply, 50);
    assert_eq!(ctx.license_state.has_license.len(), 50);
    assert!(!ctx.license_state.is_holder(&user(51)));
}

#[test]
fn a_holder_is_rejected_as_exhausted_once_the_supply_is() {
    let mut ctx = new_ctx();
    for n in 1..=50u8 {
        let mut issuance = request(&mut ctx, n, "X", "", "").unwrap();
        complete(&mut ctx, &mut issuance);
    }
    let again = request(&mut ctx, 1, "X", "", "");
    assert_eq!(again.err(), Some(LicenseError::MaximumSupplyReached));
}

#[test]
fn a_second_request_is_rejected_whatever_lies_between() {
    let mut ctx = new_ctx();
    let mut first = request(&mut ctx, 7, "A", "", "").unwrap();
    complete(&mut ctx, &mut first);
    for n in 8..=20u8 {
        let mut issuance = request(&mut ctx, n, "B", "", "").unwrap();
        complete(&mut ctx, &mut issuance);
    }
    let before = ctx.license_state.clone();
    let again = request(&mut ctx, 7, "other name", "other image", "other provenance");
    assert_eq!(again.err(), Some(LicenseError::AlreadyHasLicense));
    assert_eq!(ctx.license_state.current_supply, before.current_supply);
    assert_eq!(ctx.license_state.has_license, before.has_license);
}

#[test]
fn the_same_metadata_may_be_asked_for_twice() {
    let mut ctx = new_ctx();
    let mut one = request(&mut ctx, 1, "same", "img", "prov").unwrap();
    complete(&mut ctx, &mut one);
    let mut two = request(&mut ctx, 2, "same", "img", "prov").unwrap();
    complete(&mut ctx, &mut two);
    assert_eq!(one.record.name, two.record.name);
    assert_eq!(one.token_id, 1);
    assert_eq!(two.token_id, 2);
    assert_ne!(one.record.mint, two.record.mint);
}

#[test]
fn references_given_are_kept_verbatim() {
    let mut ctx = new_ctx();
    let issuance = request(&mut ctx, 1, "Umbrella", "ipfs://image", "ipfs://provenance").unwrap();
    assert_eq!(issuance.record.name, "Umbrella");
    assert_eq!(issuance.record.image_uri, "ipfs://image");
    assert_eq!(issuance.record.provenance_cid, "ipfs://provenance");
    assert_eq!(issuance.registration.data.uri, "ipfs://image");
    assert_eq!(issuance.event.provenance_cid, "ipfs://provenance");
}

#[test]
fn each_reference_falls_back_on_its_own() {
    let mut ctx = new_ctx();
    let one = request(&mut ctx, 1, "n", "ipfs://image", "").unwrap();
    assert_eq!(one.record.image_uri, "ipfs://image");
    assert_eq!(one.record.provenance_cid, DEFAULT_PROVENANCE_CID);
    assert_eq!(one.event.provenance_cid, "");
    let two = request(&mut ctx, 2, "n", "", "ipfs://provenance").unwrap();
    assert_eq!(two.record.image_uri, DEFAULT_IMAGE_URI);
    assert_eq!(two.registration.data.uri, DEFAULT_IMAGE_URI);
    assert_eq!(two.record.provenance_cid, "ipfs://provenance");
}

#[test]
fn resolve_takes_the_fallback_for_the_empty_string_only() {
    let fallback = "fallback".to_string();
    assert_eq!(resolve(&String::new(), &fallback), "fallback");
    assert_eq!(resolve(&" ".to_string(), &fallback), " ");
    assert_eq!(resolve(&"given".to_string(), &fallback), "given");
    assert_eq!(resolve(&String::new(), &String::new()), "");
}

#[test]
fn the_plan_of_an_issuance() {
    let mut ctx = new_ctx();
    let mut earlier = request(&mut ctx, 1, "first", "", "").unwrap();
    complete(&mut ctx, &mut earlier);

    let issuance = request(&mut ctx, 2, "Parasol", "", "ipfs://p").unwrap();
    let accounts = derive_accounts(&program(), &registrar(), 2).unwrap();
    assert_eq!(issuance.phase, Phase::Minting);
    assert_eq!(issuance.token_id, 2);
    assert_eq!(issuance.before.current_supply, 1);
    assert_eq!(issuance.before.has_license, vec![user(1)]);
    assert_eq!(issuance.accounts.mint, accounts.mint);
    assert_eq!(issuance.accounts.license_state, accounts.license_state);
    assert_eq!(issuance.accounts.metadata, accounts.metadata);
    assert_eq!(issuance.accounts.license_metadata, accounts.license_metadata);

    assert_eq!(issuance.mint_to.mint, accounts.mint);
    assert_eq!(issuance.mint_to.to, wallet(2));
    assert_eq!(issuance.mint_to.authority, accounts.license_state);
    assert_eq!(issuance.mint_to.amount, 1);
    assert_eq!(
        issuance.mint_to.signer_seeds,
        vec![b"license_state".to_vec(), vec![accounts.license_state_bump]]
    );

    let order = &issuance.registration;
    assert_eq!(order.metadata, accounts.metadata);
    assert_eq!(order.mint, accounts.mint);
    assert_eq!(order.mint_authority, accounts.license_state);
    assert_eq!(order.payer, user(2));
    assert_eq!(order.update_authority, accounts.license_state);
    assert!(order.update_authority_is_signer);
    assert!(order.is_mutable);
    assert_eq!(order.data.name, "Brolli");
    assert_eq!(order.data.symbol, "BROLLI");
    assert_eq!(order.data.uri, DEFAULT_IMAGE_URI);
    assert_eq!(order.data.seller_fee_basis_points, 0);
    assert_eq!(order.data.creators.len(), 1);
    let Creator { address, verified, share } = order.data.creators[0];
    assert_eq!(address, accounts.license_state);
    assert!(verified);
    assert_eq!(share, 100);

    assert_eq!(issuance.record.owner, user(2));
    assert_eq!(issuance.record.mint, accounts.mint);
    assert_eq!(issuance.event.user, user(2));
    assert_eq!(issuance.event.mint, accounts.mint);
    assert_eq!(issuance.event.name, "Parasol");
    assert_eq!(issuance.event.provenance_cid, "ipfs://p");
    assert_eq!(issuance.event.token_id, 2);

    assert_eq!(ctx.license_state.current_supply, 2);
    assert_eq!(ctx.license_state.has_license, vec![user(1), user(2)]);
}

#[test]
fn issue_license_works_on_the_addresses_it_is_given() {
    let mut ctx = new_ctx();
    let accounts = IssuanceAccounts {
        license_state: wallet(90),
        license_state_bump: 3,
        mint: wallet(91),
        metadata: wallet(92),
        license_metadata: wallet(93),
    };
    let issuance =
        issue_license(&mut ctx, accounts, "n".to_string(), String::new(), String::new()).unwrap();
    assert_eq!(issuance.token_id, 1);
    assert_eq!(issuance.mint_to.mint, wallet(91));
    assert_eq!(issuance.mint_to.authority, wallet(90));
    assert_eq!(issuance.mint_to.signer_seeds, vec![b"license_state".to_vec(), vec![3u8]]);
    assert_eq!(issuance.registration.metadata, wallet(92));
    assert_eq!(issuance.record.mint, wallet(91));
    assert_eq!(issuance.accounts.license_metadata, wallet(93));
    assert_eq!(ctx.license_state.has_license, vec![user(1)]);

    let again = issue_license(&mut ctx, accounts, "n".to_string(), String::new(), String::new());
    assert_eq!(again.err(), Some(LicenseError::AlreadyHasLicense));
    assert_eq!(ctx.license_state.current_supply, 1);
}

#[test]
fn a_refused_mint_puts_the_ledger_back() {
    let mut ctx = new_ctx();
    let mut earlier = request(&mut ctx, 1, "first", "", "").unwrap();
    complete(&mut ctx, &mut earlier);

    let mut issuance = request(&mut ctx, 2, "second", "", "").unwrap();
    assert_eq!(ctx.license_state.current_supply, 2);
    assert_eq!(
        issuance.advance(&mut ctx, Outcome::Failed),
        Action::Abort(LicenseError::ExternalMintFailure)
    );
    assert_eq!(issuance.phase, Phase::Aborted);
    assert_eq!(ctx.license_state.current_supply, 1);
    assert_eq!(ctx.license_state.has_license, vec![user(1)]);
    assert_eq!(ctx.license_state.authority, authority());
    assert_eq!(ctx.license_state.max_supply, 50);

    let mut retry = request(&mut ctx, 2, "second", "", "").unwrap();
    assert_eq!(retry.token_id, 2);
    complete(&mut ctx, &mut retry);
    assert_eq!(ctx.license_state.has_license, vec![user(1), user(2)]);
}

#[test]
fn a_refused_registration_puts_the_ledger_back() {
    let mut ctx = new_ctx();
    let mut issuance = request(&mut ctx, 1, "first", "", "").unwrap();
    assert_eq!(issuance.advance(&mut ctx, Outcome::Succeeded), Action::Register);
    assert_eq!(ctx.license_state.current_supply, 1);
    assert_eq!(
        issuance.advance(&mut ctx, Outcome::Failed),
        Action::Abort(LicenseError::ExternalMetadataFailure)
    );
    assert_eq!(issuance.phase, Phase::Aborted);
    assert_eq!(ctx.license_state.current_supply, 0);
    assert!(ctx.license_state.has_license.is_empty());
}

#[test]
fn an_issuance_that_is_over_stays_as_it_is() {
    let mut ctx = new_ctx();
    let mut done = request(&mut ctx, 1, "first", "", "").unwrap();
    complete(&mut ctx, &mut done);
    assert_eq!(done.advance(&mut ctx, Outcome::Failed), Action::Nothing);
    assert_eq!(done.advance(&mut ctx, Outcome::Succeeded), Action::Nothing);
    assert_eq!(done.phase, Phase::Completed);
    assert_eq!(ctx.license_state.current_supply, 1);

    let mut failed = request(&mut ctx, 2, "second", "", "").unwrap();
    failed.advance(&mut ctx, Outcome::Failed);
    assert_eq!(failed.advance(&mut ctx, Outcome::Succeeded), Action::Nothing);
    assert_eq!(failed.advance(&mut ctx, Outcome::Failed), Action::Nothing);
    assert_eq!(failed.phase, Phase::Aborted);
    assert_eq!(ctx.license_state.has_license, vec![user(1)]);
}

#[test]
fn a_rejected_request_changes_nothing() {
    let mut ctx = new_ctx();
    let mut first = request(&mut ctx, 1, "first", "", "").unwrap();
    complete(&mut ctx, &mut first);
    let defaults = ctx.defaults.clone();
    let rejected = request(&mut ctx, 1, "first", "", "");
    assert_eq!(rejected.err(), Some(LicenseError::AlreadyHasLicense));
    assert_eq!(ctx.program_id, program());
    assert_eq!(ctx.token_metadata_program, registrar());
    assert_eq!(ctx.user, user(1));
    assert_eq!(ctx.token_account, wallet(1));
    assert_eq!(ctx.defaults.image_uri, defaults.image_uri);
    assert_eq!(ctx.defaults.provenance_cid, defaults.provenance_cid);
    assert_eq!(ctx.license_state.current_supply, 1);
    assert_eq!(ctx.license_state.max_supply, 50);
    assert_eq!(ctx.license_state.authority, authority());
    assert_eq!(ctx.license_state.has_license, vec![user(1)]);
}

#[test]
fn only_the_authority_updates_the_defaults() {
    let mut ledger = LicenseState::new(authority());
    ledger.commit_issuance(user(1));
    let mut ctx =
        UpdateDefaults { license_state: ledger, authority: user(1), defaults: Defaults::new() };

    let refused = update_default_image_uri(&mut ctx, "ipfs://new".to_string());
    assert_eq!(refused.err(), Some(LicenseError::Unauthorized));
    let refused = update_default_provenance_cid(&mut ctx, "ipfs://new".to_string());
    assert_eq!(refused.err(), Some(LicenseError::Unauthorized));
    assert_eq!(ctx.defaults.image_uri, DEFAULT_IMAGE_URI);
    assert_eq!(ctx.defaults.provenance_cid, DEFAULT_PROVENANCE_CID);
    assert_eq!(ctx.license_state.current_supply, 1);
    assert_eq!(ctx.license_state.has_license, vec![user(1)]);

    ctx.authority = authority();
    let event = update_default_image_uri(&mut ctx, "ipfs://image2".to_string()).unwrap();
    assert_eq!(event.uri_type, "image");
    assert_eq!(event.new_uri, "ipfs://image2");
    assert_eq!(ctx.defaults.image_uri, "ipfs://image2");
    assert_eq!(ctx.defaults.provenance_cid, DEFAULT_PROVENANCE_CID);

    let event = update_default_provenance_cid(&mut ctx, "ipfs://prov2".to_string()).unwrap();
    assert_eq!(event.uri_type, "provenance");
    assert_eq!(event.new_uri, "ipfs://prov2");
    assert_eq!(ctx.defaults.image_uri, "ipfs://image2");
    assert_eq!(ctx.defaults.provenance_cid, "ipfs://prov2");

    assert_eq!(ctx.license_state.current_supply, 1);
    assert_eq!(ctx.license_state.max_supply, 50);
    assert_eq!(ctx.license_state.authority, authority());
    assert_eq!(ctx.license_state.has_license, vec![user(1)]);
}

#[test]
fn updated_defaults_serve_later_issuances_only() {
    let mut ctx = new_ctx();
    let mut first = request(&mut ctx, 1, "first", "", "").unwrap();
    complete(&mut ctx, &mut first);

    let mut admin = UpdateDefaults {
        license_state: ctx.license_state.clone(),
        authority: authority(),
        defaults: ctx.defaults.clone(),
    };
    update_default_image_uri(&mut admin, "ipfs://image2".to_string()).unwrap();
    update_default_provenance_cid(&mut admin, "ipfs://prov2".to_string()).unwrap();
    ctx.defaults = admin.defaults;

    let second = request(&mut ctx, 2, "second", "", "").unwrap();
    assert_eq!(second.record.image_uri, "ipfs://image2");
    assert_eq!(second.record.provenance_cid, "ipfs://prov2");
    assert_eq!(second.registration.data.uri, "ipfs://image2");
    assert_eq!(first.record.image_uri, DEFAULT_IMAGE_URI);
    assert_eq!(first.record.provenance_cid, DEFAULT_PROVENANCE_CID);
}
