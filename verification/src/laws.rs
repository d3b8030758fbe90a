//! What holds of the ledger over any number of requests, whatever they ask
//! for and however the token program and the metadata program answer.

use vstd::prelude::*;
use crate::error::LicenseError;
use crate::identity::Identity;
use crate::issuance::{
    accounts_derivable, next_token_id, plan, rejection, step, Action, IssuanceAccounts,
    IssuanceView, MintLicenseView, Outcome, Phase,
};
use crate::state::{lemma_issue_keeps_wf, Ledger, MAX_SUPPLY};

verus! {

/// An issuance run to its end: the step on what the token program made of
/// the mint order, then, if the issuance goes on, the step on what the
/// metadata program made of the registration.
pub open spec fn settle(
    issuance: IssuanceView,
    ctx: MintLicenseView,
    mint: Outcome,
    registration: Outcome,
) -> (IssuanceView, MintLicenseView, Action) {
    let minted = step(issuance, ctx, mint);
    if minted.2 == Action::Register {
        step(minted.0, minted.1, registration)
    } else {
        minted
    }
}

/// An issuance is all or nothing. Where both programs succeed, it ends
/// completed, with the ledger's new entry in place and the record to be
/// stored. Where either fails, it ends aborted with that program's error,
/// and the state is in every part what it was before the issuance began.
pub proof fn law_issuance_is_all_or_nothing(
    ctx: MintLicenseView,
    accounts: IssuanceAccounts,
    name: Seq<char>,
    image_uri: Seq<char>,
    provenance_cid: Seq<char>,
    mint: Outcome,
    registration: Outcome,
)
    ensures
        ({
            let begun = MintLicenseView { license_state: ctx.license_state.issue(ctx.user), ..ctx };
            let end = settle(
                plan(ctx, accounts, name, image_uri, provenance_cid),
                begun,
                mint,
                registration,
            );
            if mint == Outcome::Failed {
                &&& end.2 == Action::Abort(LicenseError::ExternalMintFailure)
                &&& end.1 == ctx
                &&& end.0.phase == Phase::Aborted
            } else if registration == Outcome::Failed {
                &&& end.2 == Action::Abort(LicenseError::ExternalMetadataFailure)
                &&& end.1 == ctx
                &&& end.0.phase == Phase::Aborted
            } else {
                &&& end.2 == Action::Record
                &&& end.1 == begun
                &&& end.0.phase == Phase::Completed
            }
        }),
{
}

/// One request for a license, with all that decides how it ends: who asks,
/// whether the addresses of the license can be derived, and what the two
/// programs make of their orders.
pub ghost struct Attempt {
    pub candidate: Identity,
    pub derivable: bool,
    pub mint: Outcome,
    pub registration: Outcome,
}

/// How `attempt` ends on `ledger`: with the token id of the license issued,
/// or with the error for which nothing was issued.
pub open spec fn outcome_of(ledger: Ledger, attempt: Attempt) -> Result<u64, LicenseError> {
    match ledger.eligibility(attempt.candidate) {
        Err(e) => Err(e),
        Ok(_) => if !attempt.derivable {
            Err(LicenseError::InvalidMint)
        } else if attempt.mint == Outcome::Failed {
            Err(LicenseError::ExternalMintFailure)
        } else if attempt.registration == Outcome::Failed {
            Err(LicenseError::ExternalMetadataFailure)
        } else {
            Ok(next_token_id(ledger))
        },
    }
}

/// The ledger after `attempt`: with the candidate taken in where a license
/// was issued, and as it was where none was.
pub open spec fn ledger_after(ledger: Ledger, attempt: Attempt) -> Ledger {
    if outcome_of(ledger, attempt) is Ok {
        ledger.issue(attempt.candidate)
    } else {
        ledger
    }
}

/// The ledger after `attempts`, one after the other.
pub open spec fn run(ledger: Ledger, attempts: Seq<Attempt>) -> Ledger
    decreases attempts.len(),
{
    if attempts.len() == 0 {
        ledger
    } else {
        ledger_after(run(ledger, attempts.drop_last()), attempts.last())
    }
}

/// How the attempt at position `i` of `attempts` ends, the attempts before
/// it having been made on `ledger`.
pub open spec fn outcome_at(ledger: Ledger, attempts: Seq<Attempt>, i: int) -> Result<
    u64,
    LicenseError,
> {
    outcome_of(run(ledger, attempts.take(i)), attempts[i])
}

/// The token ids of the licenses that `attempts` issue, in the order of
/// issuance.
pub open spec fn token_ids(ledger: Ledger, attempts: Seq<Attempt>) -> Seq<u64>
    decreases attempts.len(),
{
    if attempts.len() == 0 {
        Seq::empty()
    } else {
        let earlier = token_ids(ledger, attempts.drop_last());
        match outcome_of(run(ledger, attempts.drop_last()), attempts.last()) {
            Ok(token_id) => earlier.push(token_id),
            Err(_) => earlier,
        }
    }
}

/// An attempt ends as the issuance it stands for does. Where the request on
/// `ctx` is rejected, the attempt fails with the same error. Where it is
/// begun and run to its end, the attempt succeeds exactly when the issuance
/// completes, with the issuance's token id, fails with the error of the
/// program that refused, and leaves the ledger that the issuance leaves.
pub proof fn law_attempt_is_the_issuance(
    ctx: MintLicenseView,
    accounts: IssuanceAccounts,
    name: Seq<char>,
    image_uri: Seq<char>,
    provenance_cid: Seq<char>,
    attempt: Attempt,
)
    requires
        attempt.candidate == ctx.user,
        attempt.derivable == accounts_derivable(
            ctx.program_id,
            ctx.token_metadata_program,
            next_token_id(ctx.license_state),
        ),
    ensures
        rejection(ctx) matches Some(e) ==> outcome_of(ctx.license_state, attempt) == Err::<
            u64,
            LicenseError,
        >(e),
        rejection(ctx) is None ==> ({
            let begun = MintLicenseView { license_state: ctx.license_state.issue(ctx.user), ..ctx };
            let issuance = plan(ctx, accounts, name, image_uri, provenance_cid);
            let end = settle(issuance, begun, attempt.mint, attempt.registration);
            &&& end.1.license_state == ledger_after(ctx.license_state, attempt)
            &&& end.2 == match outcome_of(ctx.license_state, attempt) {
                Ok(_) => Action::Record,
                Err(e) => Action::Abort(e),
            }
            &&& outcome_of(ctx.license_state, attempt) matches Ok(token_id) ==> token_id
                == issuance.token_id
        }),
{
}

/// A failed attempt leaves the ledger as it was, whatever made it fail.
pub proof fn law_failure_changes_nothing(ledger: Ledger, attempt: Attempt)
    requires
        outcome_of(ledger, attempt) is Err,
    ensures
        ledger_after(ledger, attempt) == ledger,
{
}

/// Whatever is attempted, a well-formed ledger stays well formed: its
/// supply counts its holders and never exceeds its cap, and no identity
/// holds two licenses. Its authority and its cap never change, and whoever
/// holds a license keeps it.
pub proof fn law_ledger_stays_well_formed(ledger: Ledger, attempts: Seq<Attempt>)
    requires
        ledger.wf(),
    ensures
        run(ledger, attempts).wf(),
        run(ledger, attempts).current_supply <= ledger.max_supply,
        run(ledger, attempts).max_supply == ledger.max_supply,
        run(ledger, attempts).authority == ledger.authority,
        ledger.holders.is_prefix_of(run(ledger, attempts).holders),
    decreases attempts.len(),
{
    if attempts.len() > 0 {
        law_ledger_stays_well_formed(ledger, attempts.drop_last());
        let before = run(ledger, attempts.drop_last());
        if outcome_of(before, attempts.last()) is Ok {
            lemma_issue_keeps_wf(before, attempts.last().candidate);
        }
    }
}

/// From its creation on, the supply never exceeds `MAX_SUPPLY`, and once it
/// has reached it every further attempt is rejected for that reason,
/// whoever asks.
pub proof fn law_supply_is_capped(authority: Identity, attempts: Seq<Attempt>, next: Attempt)
    ensures
        run(Ledger::fresh(authority), attempts).current_supply <= MAX_SUPPLY,
        run(Ledger::fresh(authority), attempts).current_supply == MAX_SUPPLY ==> outcome_of(
            run(Ledger::fresh(authority), attempts),
            next,
        ) == Err::<u64, LicenseError>(LicenseError::MaximumSupplyReached),
{
    law_ledger_stays_well_formed(Ledger::fresh(authority), attempts);
}

/// The attempts before position `i + 1` are those before `i`, then the
/// attempt at `i`.
proof fn lemma_run_one_more(ledger: Ledger, attempts: Seq<Attempt>, i: int)
    requires
        0 <= i < attempts.len(),
    ensures
        run(ledger, attempts.take(i + 1)) == ledger_after(
            run(ledger, attempts.take(i)),
            attempts[i],
        ),
{
    assert(attempts.take(i + 1).drop_last() == attempts.take(i));
}

/// Whoever holds a license after the first `i` attempts holds it after the
/// first `j`, for every later `j`.
proof fn lemma_holders_stay(ledger: Ledger, attempts: Seq<Attempt>, i: int, j: int, who: Identity)
    requires
        0 <= i <= j <= attempts.len(),
        run(ledger, attempts.take(i)).holders.contains(who),
    ensures
        run(ledger, attempts.take(j)).holders.contains(who),
    decreases j - i,
{
    if i < j {
        lemma_holders_stay(ledger, attempts, i, j - 1, who);
        lemma_run_one_more(ledger, attempts, j - 1);
        let before = run(ledger, attempts.take(j - 1));
        let k = choose|k: int| 0 <= k < before.holders.len() && before.holders[k] == who;
        assert(ledger_after(before, attempts[j - 1]).holders[k] == who);
    }
}

/// No identity is issued two licenses. Once an attempt of an identity has
/// succeeded, every later attempt of the same identity is rejected, however
/// many attempts lie between: as a holder, or, where the supply has run out
/// by then, for that reason.
pub proof fn law_one_license_each(ledger: Ledger, attempts: Seq<Attempt>, i: int, j: int)
    requires
        0 <= i < j < attempts.len(),
        attempts[i].candidate == attempts[j].candidate,
        outcome_at(ledger, attempts, i) is Ok,
    ensures
        outcome_at(ledger, attempts, j) == Err::<u64, LicenseError>(
            if run(ledger, attempts.take(j)).current_supply < run(
                ledger,
                attempts.take(j),
            ).max_supply {
                LicenseError::AlreadyHasLicense
            } else {
                LicenseError::MaximumSupplyReached
            },
        ),
{
    let who = attempts[i].candidate;
    let before = run(ledger, attempts.take(i));
    lemma_run_one_more(ledger, attempts, i);
    let after = run(ledger, attempts.take(i + 1));
    assert(after.holders[before.holders.len() as int] == who);
    lemma_holders_stay(ledger, attempts, i + 1, j, who);
}

/// The token ids issued continue the ledger's count without a gap and
/// without a repeat: the first is one more than the supply at the start,
/// each next one is one more than the one before, and the last is the
/// supply at the end.
pub proof fn law_token_ids_are_dense(ledger: Ledger, attempts: Seq<Attempt>)
    requires
        ledger.wf(),
    ensures
        token_ids(ledger, attempts).len() + ledger.current_supply == run(
            ledger,
            attempts,
        ).current_supply,
        forall|k: int|
            0 <= k < token_ids(ledger, attempts).len() ==> #[trigger] token_ids(
                ledger,
                attempts,
            )[k] == ledger.current_supply + k + 1,
    decreases attempts.len(),
{
    if attempts.len() > 0 {
        law_token_ids_are_dense(ledger, attempts.drop_last());
        law_ledger_stays_well_formed(ledger, attempts.drop_last());
    }
}

/// From the ledger's creation on, the token ids issued are 1, 2, and so on
/// up to the current supply.
pub proof fn law_token_ids_count_from_one(authority: Identity, attempts: Seq<Attempt>)
    ensures
        token_ids(Ledger::fresh(authority), attempts).len() == run(
            Ledger::fresh(authority),
            attempts,
        ).current_supply,
        forall|k: int|
            0 <= k < token_ids(Ledger::fresh(authority), attempts).len() ==> #[trigger] token_ids(
                Ledger::fresh(authority),
                attempts,
            )[k] == k + 1,
{
    law_token_ids_are_dense(Ledger::fresh(authority), attempts);
}

} // verus!
