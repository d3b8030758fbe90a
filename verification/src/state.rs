//! The ledger: how many licenses exist, how many may, and who holds one.

use vstd::prelude::*;
use crate::error::LicenseError;
use crate::identity::{Identity, lemma_identity_by_bytes};

verus! {

/// The number of licenses that can ever be issued.
pub const MAX_SUPPLY: u64 = 50;

/// The number of holders that the stored ledger has room for.
pub const MAX_LICENSES: usize = 50;

/// The ledger, of which the program keeps exactly one.
///
/// The authority and the cap are set when the ledger is created and never
/// change. Holders are only ever added, in the order of issuance.
#[derive(Debug)]
pub struct LicenseState {
    pub authority: Identity,
    pub current_supply: u64,
    pub max_supply: u64,
    pub has_license: Vec<Identity>,
}

/// A ledger as a mathematical value.
pub ghost struct Ledger {
    pub authority: Identity,
    pub current_supply: nat,
    pub max_supply: nat,
    pub holders: Seq<Identity>,
}

impl Ledger {
    /// The ledger just after creation under `authority`.
    pub open spec fn fresh(authority: Identity) -> Ledger {
        Ledger {
            authority,
            current_supply: 0,
            max_supply: MAX_SUPPLY as nat,
            holders: Seq::empty(),
        }
    }

    /// The supply counts the holders, stays within the cap, and no identity
    /// holds two licenses. The cap is one that a stored ledger can hold.
    pub open spec fn wf(self) -> bool {
        &&& self.current_supply == self.holders.len()
        &&& self.current_supply <= self.max_supply
        &&& self.max_supply <= u64::MAX
        &&& self.holders.no_duplicates()
    }

    /// Whether a license can be issued to `candidate`, and if not, why. An
    /// exhausted supply is reported before a duplicate holder.
    pub open spec fn eligibility(self, candidate: Identity) -> Result<(), LicenseError> {
        if self.current_supply >= self.max_supply {
            Err(LicenseError::MaximumSupplyReached)
        } else if self.holders.contains(candidate) {
            Err(LicenseError::AlreadyHasLicense)
        } else {
            Ok(())
        }
    }

    /// The ledger after a license was issued to `candidate`.
    pub open spec fn issue(self, candidate: Identity) -> Ledger {
        Ledger {
            current_supply: self.current_supply + 1,
            holders: self.holders.push(candidate),
            ..self
        }
    }
}

impl View for LicenseState {
    type V = Ledger;

    open spec fn view(&self) -> Ledger {
        Ledger {
            authority: self.authority,
            current_supply: self.current_supply as nat,
            max_supply: self.max_supply as nat,
            holders: self.has_license@,
        }
    }
}

impl Clone for LicenseState {
    fn clone(&self) -> (copy: LicenseState)
        ensures
            copy@ == self@,
    {
        let mut holders: Vec<Identity> = Vec::new();
        let mut i: usize = 0;
        while i < self.has_license.len()
            invariant
                i <= self.has_license.len(),
                holders@ == self.has_license@.take(i as int),
            decreases self.has_license.len() - i,
        {
            holders.push(self.has_license[i]);
            assert(self.has_license@.take(i + 1) == self.has_license@.take(i as int).push(
                self.has_license@[i as int],
            ));
            i += 1;
        }
        assert(self.has_license@.take(i as int) == self.has_license@);
        LicenseState {
            authority: self.authority,
            current_supply: self.current_supply,
            max_supply: self.max_supply,
            has_license: holders,
        }
    }
}

impl LicenseState {
    /// The bytes that a stored ledger takes: the authority, the two
    /// counters, and a list of at most `MAX_LICENSES` holders.
    pub const SPACE: usize = 32 + 8 + 8 + (4 + 32 * MAX_LICENSES);

    /// See [`Ledger::wf`].
    pub open spec fn wf(&self) -> bool {
        self@.wf()
    }

    /// A new ledger under `authority`: nothing issued, a cap of
    /// `MAX_SUPPLY`, no holders.
    pub fn new(authority: Identity) -> (state: LicenseState)
        ensures
            state@ == Ledger::fresh(authority),
            state.wf(),
    {
        LicenseState { authority, current_supply: 0, max_supply: MAX_SUPPLY, has_license: Vec::new() }
    }

    /// Whether `user` holds a license.
    pub fn is_holder(&self, user: &Identity) -> (found: bool)
        ensures
            found == self@.holders.contains(*user),
    {
        let mut i: usize = 0;
        while i < self.has_license.len()
            invariant
                i <= self.has_license.len(),
                forall|j: int| 0 <= j < i ==> self.has_license@[j] != *user,
            decreases self.has_license.len() - i,
        {
            if self.has_license[i] == *user {
                proof {
                    lemma_identity_by_bytes(self.has_license@[i as int], *user);
                    assert(self@.holders[i as int] == *user);
                }
                return true;
            }
            proof {
                lemma_identity_by_bytes(self.has_license@[i as int], *user);
            }
            i += 1;
        }
        false
    }

    /// Whether a license can be issued to `candidate` as the ledger stands
    /// now. Reads only.
    pub fn check_eligible(&self, candidate: &Identity) -> (verdict: Result<(), LicenseError>)
        ensures
            verdict == self@.eligibility(*candidate),
    {
        if self.current_supply >= self.max_supply {
            Err(LicenseError::MaximumSupplyReached)
        } else if self.is_holder(candidate) {
            Err(LicenseError::AlreadyHasLicense)
        } else {
            Ok(())
        }
    }

    /// Records that a license is issued to `candidate` and returns its token
    /// id: the supply after the issuance.
    pub fn commit_issuance(&mut self, candidate: Identity) -> (token_id: u64)
        requires
            old(self)@.eligibility(candidate) is Ok,
        ensures
            final(self)@ == old(self)@.issue(candidate),
            token_id as nat == final(self)@.current_supply,
            old(self).wf() ==> final(self).wf(),
    {
        self.has_license.push(candidate);
        self.current_supply += 1;
        proof {
            if old(self).wf() {
                lemma_issue_keeps_wf(old(self)@, candidate);
            }
        }
        self.current_supply
    }
}

/// Issuing to an eligible identity keeps a ledger well formed.
pub proof fn lemma_issue_keeps_wf(ledger: Ledger, candidate: Identity)
    requires
        ledger.wf(),
        ledger.eligibility(candidate) is Ok,
    ensures
        ledger.issue(candidate).wf(),
{
    let after = ledger.issue(candidate).holders;
    assert forall|i: int, j: int| 0 <= i < after.len() && 0 <= j < after.len() && i != j implies after[i] != after[j] by {
        if i < ledger.holders.len() && j < ledger.holders.len() {
        } else if i < ledger.holders.len() {
            assert(ledger.holders.contains(ledger.holders[i]));
        } else {
            assert(ledger.holders.contains(ledger.holders[j]));
        }
    }
}

/// What the creation of the ledger works on: the place where the ledger is
/// kept, empty until then, and the identity that creates it.
#[derive(Debug)]
pub struct Initialize {
    pub license_state: Option<LicenseState>,
    pub authority: Identity,
}

/// Creates the ledger under `ctx.authority`: nothing issued, a cap of
/// `MAX_SUPPLY`, no holders. A ledger that exists is left as it is.
pub fn initialize(ctx: &mut Initialize) -> (result: Result<(), LicenseError>)
    ensures
        final(ctx).authority == old(ctx).authority,
        match result {
            Ok(_) => {
                &&& old(ctx).license_state is None
                &&& final(ctx).license_state matches Some(state)
                    && state@ == Ledger::fresh(old(ctx).authority) && state.wf()
            },
            Err(e) => {
                &&& old(ctx).license_state is Some
                &&& e == LicenseError::AlreadyInitialized
                &&& *final(ctx) == *old(ctx)
            },
        },
{
    if ctx.license_state.is_some() {
        return Err(LicenseError::AlreadyInitialized);
    }
    ctx.license_state = Some(LicenseState::new(ctx.authority));
    Ok(())
}

/// What a reader of the supply works on: the ledger.
#[derive(Debug)]
pub struct GetSupplyInfo {
    pub license_state: LicenseState,
}

/// What a reader of one identity's standing works on: the ledger.
#[derive(Debug)]
pub struct HasLicense {
    pub license_state: LicenseState,
}

/// How many licenses exist, how many may, and how many are left.
#[derive(Clone, Copy, Debug, PartialEq, Eq, Structural)]
pub struct SupplyInfo {
    pub current_supply: u64,
    pub max_supply: u64,
    pub remaining_supply: u64,
}

/// The supply as the ledger has it, with what is left of the cap.
pub fn get_supply_info(ctx: &GetSupplyInfo) -> (info: SupplyInfo)
    requires
        ctx.license_state.current_supply <= ctx.license_state.max_supply,
    ensures
        info.current_supply == ctx.license_state.current_supply,
        info.max_supply == ctx.license_state.max_supply,
        info.remaining_supply == ctx.license_state.max_supply - ctx.license_state.current_supply,
{
    let state = &ctx.license_state;
    SupplyInfo {
        current_supply: state.current_supply,
        max_supply: state.max_supply,
        remaining_supply: state.max_supply - state.current_supply,
    }
}

/// Whether `user` holds a license.
pub fn has_license(ctx: &HasLicense, user: Identity) -> (holds: bool)
    ensures
        holds == ctx.license_state@.holders.contains(user),
{
    ctx.license_state.is_holder(&user)
}

} // verus!
