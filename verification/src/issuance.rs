//! Issuing a license: the check against the ledger, the entry in it, the
//! orders to the token program and the metadata program, the record, and
//! what becomes of all that when one of the two programs refuses.

use vstd::prelude::*;
use vstd::string::StringExecFns;
use crate::address::{
    find_ledger_address, find_mint_address, find_record_address, find_registrar_address,
    ledger_seeds, ledger_signer_seeds, ledger_signer_seeds_for, mint_seeds, program_address,
    record_seeds, registrar_seeds,
};
use crate::defaults::{resolve, resolved, Defaults, DefaultsView};
use crate::error::LicenseError;
use crate::identity::Identity;
use crate::orders::{
    Creator, MetadataOrder, MetadataOrderView, MintOrder, MintOrderView, TokenMetadata,
    TokenMetadataView,
};
use crate::record::{LicenseMetadata, LicenseMetadataView};
use crate::state::{Ledger, LicenseState};

verus! {

/// The addresses that one issuance works on.
#[derive(Clone, Copy, Debug)]
pub struct IssuanceAccounts {
    /// The ledger's own address, under which the token is minted.
    pub license_state: Identity,
    /// The bump seed of the ledger's address.
    pub license_state_bump: u8,
    /// The address of the license's token.
    pub mint: Identity,
    /// The metadata program's account for the token.
    pub metadata: Identity,
    /// The address of the license's record.
    pub license_metadata: Identity,
}

/// `accounts` are the addresses derived for license number `token_id` of
/// the program `program_id`.
pub open spec fn accounts_derived(
    accounts: IssuanceAccounts,
    program_id: Identity,
    token_metadata_program: Identity,
    token_id: u64,
) -> bool {
    &&& program_address(ledger_seeds(), program_id@) == Some(
        (accounts.license_state@, accounts.license_state_bump),
    )
    &&& program_address(mint_seeds(token_id), program_id@) matches Some(mint)
        && mint.0 == accounts.mint@
    &&& program_address(
        registrar_seeds(token_metadata_program@, accounts.mint@),
        token_metadata_program@,
    ) matches Some(metadata) && metadata.0 == accounts.metadata@
    &&& program_address(record_seeds(accounts.mint@), program_id@) matches Some(record)
        && record.0 == accounts.license_metadata@
}

/// Every address of license number `token_id` can be derived.
pub open spec fn accounts_derivable(
    program_id: Identity,
    token_metadata_program: Identity,
    token_id: u64,
) -> bool {
    &&& program_address(ledger_seeds(), program_id@) is Some
    &&& program_address(mint_seeds(token_id), program_id@) matches Some(mint)
        && program_address(
        registrar_seeds(token_metadata_program@, mint.0),
        token_metadata_program@,
    ) is Some && program_address(record_seeds(mint.0), program_id@) is Some
}

/// Derives the addresses of license number `token_id`, if each of them can
/// be derived.
pub fn derive_accounts(
    program_id: &Identity,
    token_metadata_program: &Identity,
    token_id: u64,
) -> (found: Option<IssuanceAccounts>)
    ensures
        match found {
            Some(accounts) => accounts_derived(
                accounts,
                *program_id,
                *token_metadata_program,
                token_id,
            ),
            None => !accounts_derivable(*program_id, *token_metadata_program, token_id),
        },
{
    let (license_state, license_state_bump) = match find_ledger_address(program_id) {
        Some(found) => found,
        None => return None,
    };
    let mint = match find_mint_address(token_id, program_id) {
        Some(found) => found.0,
        None => return None,
    };
    let metadata = match find_registrar_address(&mint, token_metadata_program) {
        Some(found) => found.0,
        None => return None,
    };
    let license_metadata = match find_record_address(&mint, program_id) {
        Some(found) => found.0,
        None => return None,
    };
    Some(IssuanceAccounts { license_state, license_state_bump, mint, metadata, license_metadata })
}

/// Tells observers that a license was issued.
#[derive(Debug)]
pub struct LicenseMinted {
    pub user: Identity,
    pub mint: Identity,
    pub name: String,
    pub provenance_cid: String,
    pub token_id: u64,
}

/// `LicenseMinted` as a mathematical value.
pub ghost struct LicenseMintedView {
    pub user: Identity,
    pub mint: Identity,
    pub name: Seq<char>,
    pub provenance_cid: Seq<char>,
    pub token_id: u64,
}

impl View for LicenseMinted {
    type V = LicenseMintedView;

    open spec fn view(&self) -> LicenseMintedView {
        LicenseMintedView {
            user: self.user,
            mint: self.mint,
            name: self.name@,
            provenance_cid: self.provenance_cid@,
            token_id: self.token_id,
        }
    }
}

/// What an issuance works on: the program, its ledger, the identity that
/// asks for a license, the account that will hold its token, the metadata
/// program, and the defaults in force.
#[derive(Debug)]
pub struct MintLicense {
    pub program_id: Identity,
    pub license_state: LicenseState,
    pub user: Identity,
    pub token_account: Identity,
    pub token_metadata_program: Identity,
    pub defaults: Defaults,
}

/// `MintLicense` as a mathematical value.
pub ghost struct MintLicenseView {
    pub program_id: Identity,
    pub license_state: Ledger,
    pub user: Identity,
    pub token_account: Identity,
    pub token_metadata_program: Identity,
    pub defaults: DefaultsView,
}

impl View for MintLicense {
    type V = MintLicenseView;

    open spec fn view(&self) -> MintLicenseView {
        MintLicenseView {
            program_id: self.program_id,
            license_state: self.license_state@,
            user: self.user,
            token_account: self.token_account,
            token_metadata_program: self.token_metadata_program,
            defaults: self.defaults@,
        }
    }
}

/// How far an issuance has come.
#[derive(Clone, Copy, Debug, PartialEq, Eq, Structural)]
pub enum Phase {
    /// The ledger holds the new entry; the token is still to be minted.
    Minting,
    /// The token is minted; its metadata is still to be registered.
    Registering,
    /// Both programs did their part: the license is issued.
    Completed,
    /// One of the programs refused: the ledger is as it was before.
    Aborted,
}

/// What the token program or the metadata program made of an order.
#[derive(Clone, Copy, Debug, PartialEq, Eq, Structural)]
pub enum Outcome {
    Succeeded,
    Failed,
}

/// What is to be done next for an issuance.
#[derive(Clone, Copy, Debug, PartialEq, Eq, Structural)]
pub enum Action {
    /// Hand the issuance's `mint_to` to the token program.
    Mint,
    /// Hand the issuance's `registration` to the metadata program.
    Register,
    /// Store the issuance's `record` and publish its `event`.
    Record,
    /// Give the request up with this error; nothing of it stays behind.
    Abort(LicenseError),
    /// The issuance was over before; there is nothing to do.
    Nothing,
}

/// One issuance under way: the ledger as it was before, and all that the
/// issuance will hand out if it completes.
#[derive(Debug)]
pub struct Issuance {
    pub phase: Phase,
    pub token_id: u64,
    pub before: LicenseState,
    pub accounts: IssuanceAccounts,
    pub mint_to: MintOrder,
    pub registration: MetadataOrder,
    pub record: LicenseMetadata,
    pub event: LicenseMinted,
}

/// `Issuance` as a mathematical value.
pub ghost struct IssuanceView {
    pub phase: Phase,
    pub token_id: u64,
    pub before: Ledger,
    pub accounts: IssuanceAccounts,
    pub mint_to: MintOrderView,
    pub registration: MetadataOrderView,
    pub record: LicenseMetadataView,
    pub event: LicenseMintedView,
}

impl View for Issuance {
    type V = IssuanceView;

    open spec fn view(&self) -> IssuanceView {
        IssuanceView {
            phase: self.phase,
            token_id: self.token_id,
            before: self.before@,
            accounts: self.accounts,
            mint_to: self.mint_to@,
            registration: self.registration@,
            record: self.record@,
            event: self.event@,
        }
    }
}

/// The token id of the next license of `ledger`: the supply after it.
pub open spec fn next_token_id(ledger: Ledger) -> u64 {
    (ledger.current_supply + 1) as u64
}

/// The order to mint the one token of a license to the requester's token
/// account, under the ledger's address.
pub open spec fn mint_order(ctx: MintLicenseView, accounts: IssuanceAccounts) -> MintOrderView {
    MintOrderView {
        mint: accounts.mint,
        to: ctx.token_account,
        authority: accounts.license_state,
        signer_seeds: ledger_signer_seeds(accounts.license_state_bump),
        amount: 1,
    }
}

/// The order to register the token's metadata: the collection's name and
/// symbol, the image asked for or the default one, no fee, and the ledger
/// as the token's only creator and the authority over its metadata.
pub open spec fn metadata_order(
    ctx: MintLicenseView,
    accounts: IssuanceAccounts,
    image_uri: Seq<char>,
) -> MetadataOrderView {
    MetadataOrderView {
        metadata: accounts.metadata,
        mint: accounts.mint,
        mint_authority: accounts.license_state,
        payer: ctx.user,
        update_authority: accounts.license_state,
        update_authority_is_signer: true,
        data: TokenMetadataView {
            name: "Brolli"@,
            symbol: "BROLLI"@,
            uri: resolved(image_uri, ctx.defaults.image_uri),
            seller_fee_basis_points: 0,
            creators: seq![Creator { address: accounts.license_state, verified: true, share: 100 }],
        },
        is_mutable: true,
    }
}

/// The record of the license: the name as given, each reference as given
/// or, where it is empty, the default, the requester as owner, the token,
/// and the token id.
pub open spec fn record_of(
    ctx: MintLicenseView,
    accounts: IssuanceAccounts,
    name: Seq<char>,
    image_uri: Seq<char>,
    provenance_cid: Seq<char>,
) -> LicenseMetadataView {
    LicenseMetadataView {
        name,
        image_uri: resolved(image_uri, ctx.defaults.image_uri),
        provenance_cid: resolved(provenance_cid, ctx.defaults.provenance_cid),
        owner: ctx.user,
        mint: accounts.mint,
        token_id: next_token_id(ctx.license_state),
    }
}

/// An issuance as it begins, on the state `ctx` in which it was asked for.
pub open spec fn plan(
    ctx: MintLicenseView,
    accounts: IssuanceAccounts,
    name: Seq<char>,
    image_uri: Seq<char>,
    provenance_cid: Seq<char>,
) -> IssuanceView {
    IssuanceView {
        phase: Phase::Minting,
        token_id: next_token_id(ctx.license_state),
        before: ctx.license_state,
        accounts,
        mint_to: mint_order(ctx, accounts),
        registration: metadata_order(ctx, accounts, image_uri),
        record: record_of(ctx, accounts, name, image_uri, provenance_cid),
        event: LicenseMintedView {
            user: ctx.user,
            mint: accounts.mint,
            name,
            provenance_cid,
            token_id: next_token_id(ctx.license_state),
        },
    }
}

/// Begins the issuance of a license to `ctx.user`, on the addresses
/// `accounts`.
///
/// Where the supply is exhausted or the user holds a license already, the
/// request is rejected and `ctx` stays as it is. Otherwise the ledger takes
/// the user in, and the issuance that comes back is in the phase `Minting`:
/// its `mint_to` is to be handed to the token program, and what that program
/// makes of it to [`Issuance::advance`].
pub fn issue_license(
    ctx: &mut MintLicense,
    accounts: IssuanceAccounts,
    name: String,
    image_uri: String,
    provenance_cid: String,
) -> (result: Result<Issuance, LicenseError>)
    ensures
        match result {
            Ok(issuance) => {
                &&& old(ctx)@.license_state.eligibility(old(ctx).user) is Ok
                &&& final(ctx)@ == (MintLicenseView {
                    license_state: old(ctx)@.license_state.issue(old(ctx).user),
                    ..old(ctx)@
                })
                &&& issuance@ == plan(old(ctx)@, accounts, name@, image_uri@, provenance_cid@)
                &&& old(ctx).license_state.wf() ==> final(ctx).license_state.wf()
            },
            Err(e) => {
                &&& old(ctx)@.license_state.eligibility(old(ctx).user) == Err::<(), LicenseError>(e)
                &&& *final(ctx) == *old(ctx)
            },
        },
{
    match ctx.license_state.check_eligible(&ctx.user) {
        Err(e) => {
            return Err(e);
        },
        Ok(()) => {},
    }
    let before = ctx.license_state.clone();
    let token_id = ctx.license_state.commit_issuance(ctx.user);

    let mint_to = MintOrder {
        mint: accounts.mint,
        to: ctx.token_account,
        authority: accounts.license_state,
        signer_seeds: ledger_signer_seeds_for(accounts.license_state_bump),
        amount: 1,
    };
    let resolved_image = resolve(&image_uri, &ctx.defaults.image_uri);
    let creators = vec![Creator { address: accounts.license_state, verified: true, share: 100 }];
    let registration = MetadataOrder {
        metadata: accounts.metadata,
        mint: accounts.mint,
        mint_authority: accounts.license_state,
        payer: ctx.user,
        update_authority: accounts.license_state,
        update_authority_is_signer: true,
        data: TokenMetadata {
            name: String::from_str("Brolli"),
            symbol: String::from_str("BROLLI"),
            uri: resolved_image.clone(),
            seller_fee_basis_points: 0,
            creators,
        },
        is_mutable: true,
    };
    let record = LicenseMetadata {
        name: name.clone(),
        image_uri: resolved_image,
        provenance_cid: resolve(&provenance_cid, &ctx.defaults.provenance_cid),
        owner: ctx.user,
        mint: accounts.mint,
        token_id,
    };
    let event = LicenseMinted {
        user: ctx.user,
        mint: accounts.mint,
        name,
        provenance_cid,
        token_id,
    };
    let issuance = Issuance {
        phase: Phase::Minting,
        token_id,
        before,
        accounts,
        mint_to,
        registration,
        record,
        event,
    };
    proof {
        assert(issuance.registration.data.creators@ =~= seq![
            Creator { address: accounts.license_state, verified: true, share: 100 },
        ]);
    }
    Ok(issuance)
}

/// Why a request on the state `ctx` is rejected before anything is changed,
/// if it is: for the ledger's reason, or because an address of the license
/// cannot be derived.
pub open spec fn rejection(ctx: MintLicenseView) -> Option<LicenseError> {
    match ctx.license_state.eligibility(ctx.user) {
        Err(e) => Some(e),
        Ok(_) => if accounts_derivable(
            ctx.program_id,
            ctx.token_metadata_program,
            next_token_id(ctx.license_state),
        ) {
            None
        } else {
            Some(LicenseError::InvalidMint)
        },
    }
}

/// Begins the issuance of a license to `ctx.user`, named `name`, with the
/// two references given, each of which may be empty and then stands for the
/// default.
///
/// The request is rejected, and `ctx` stays as it is, where the supply is
/// exhausted, where the user holds a license already, or where an address
/// of the license cannot be derived. Otherwise the ledger takes the user
/// in, and the issuance that comes back is in the phase `Minting`, on the
/// addresses derived for the new token id: its `mint_to` is to be handed to
/// the token program, and what that program makes of it to
/// [`Issuance::advance`].
pub fn mint_license(
    ctx: &mut MintLicense,
    name: String,
    image_uri: String,
    provenance_cid: String,
) -> (result: Result<Issuance, LicenseError>)
    ensures
        match result {
            Ok(issuance) => {
                &&& rejection(old(ctx)@) is None
                &&& accounts_derived(
                    issuance.accounts,
                    old(ctx).program_id,
                    old(ctx).token_metadata_program,
                    next_token_id(old(ctx)@.license_state),
                )
                &&& final(ctx)@ == (MintLicenseView {
                    license_state: old(ctx)@.license_state.issue(old(ctx).user),
                    ..old(ctx)@
                })
                &&& issuance@ == plan(
                    old(ctx)@,
                    issuance.accounts,
                    name@,
                    image_uri@,
                    provenance_cid@,
                )
                &&& old(ctx).license_state.wf() ==> final(ctx).license_state.wf()
            },
            Err(e) => {
                &&& rejection(old(ctx)@) == Some(e)
                &&& *final(ctx) == *old(ctx)
            },
        },
{
    match ctx.license_state.check_eligible(&ctx.user) {
        Err(e) => {
            return Err(e);
        },
        Ok(()) => {},
    }
    let token_id = ctx.license_state.current_supply + 1;
    match derive_accounts(&ctx.program_id, &ctx.token_metadata_program, token_id) {
        None => Err(LicenseError::InvalidMint),
        Some(accounts) => issue_license(ctx, accounts, name, image_uri, provenance_cid),
    }
}

/// What one step makes of an issuance and the state it works on, and what
/// is to be done next.
///
/// A success moves the issuance on: from minting to registering, from
/// registering to its end. A failure ends it and puts the ledger back as it
/// was before the issuance began. An issuance that is over stays as it is.
pub open spec fn step(issuance: IssuanceView, ctx: MintLicenseView, outcome: Outcome) -> (
    IssuanceView,
    MintLicenseView,
    Action,
) {
    match (issuance.phase, outcome) {
        (Phase::Minting, Outcome::Succeeded) => (
            IssuanceView { phase: Phase::Registering, ..issuance },
            ctx,
            Action::Register,
        ),
        (Phase::Minting, Outcome::Failed) => (
            IssuanceView { phase: Phase::Aborted, ..issuance },
            MintLicenseView { license_state: issuance.before, ..ctx },
            Action::Abort(LicenseError::ExternalMintFailure),
        ),
        (Phase::Registering, Outcome::Succeeded) => (
            IssuanceView { phase: Phase::Completed, ..issuance },
            ctx,
            Action::Record,
        ),
        (Phase::Registering, Outcome::Failed) => (
            IssuanceView { phase: Phase::Aborted, ..issuance },
            MintLicenseView { license_state: issuance.before, ..ctx },
            Action::Abort(LicenseError::ExternalMetadataFailure),
        ),
        (Phase::Completed, _) => (issuance, ctx, Action::Nothing),
        (Phase::Aborted, _) => (issuance, ctx, Action::Nothing),
    }
}

impl Issuance {
    /// Takes in what the token program or the metadata program made of the
    /// order last handed to it, and says what is to be done next.
    pub fn advance(&mut self, ctx: &mut MintLicense, outcome: Outcome) -> (action: Action)
        ensures
            (final(self)@, final(ctx)@, action) == step(old(self)@, old(ctx)@, outcome),
    {
        match self.phase {
            Phase::Minting => match outcome {
                Outcome::Succeeded => {
                    self.phase = Phase::Registering;
                    Action::Register
                },
                Outcome::Failed => {
                    self.phase = Phase::Aborted;
                    ctx.license_state = self.before.clone();
                    Action::Abort(LicenseError::ExternalMintFailure)
                },
            },
            Phase::Registering => match outcome {
                Outcome::Succeeded => {
                    self.phase = Phase::Completed;
                    Action::Record
                },
                Outcome::Failed => {
                    self.phase = Phase::Aborted;
                    ctx.license_state = self.before.clone();
                    Action::Abort(LicenseError::ExternalMetadataFailure)
                },
            },
            Phase::Completed => Action::Nothing,
            Phase::Aborted => Action::Nothing,
        }
    }
}

} // verus!
