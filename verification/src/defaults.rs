//! The references that stand in for those a request leaves empty, and the
//! authority's two operations that change them.

use vstd::prelude::*;
use vstd::string::StringExecFns;
use crate::error::LicenseError;
use crate::identity::{Identity, lemma_identity_by_bytes};
use crate::state::LicenseState;

verus! {

/// The image reference that a new program starts with.
pub const DEFAULT_IMAGE_URI: &'static str =
    "https://tan-everyday-mite-419.mypinata.cloud/ipfs/bafkreialme2ca3b36nzq5rqqdqaw3k2le4uvgrdxtdj33t2j4sn44amisi";

/// The provenance reference that a new program starts with.
pub const DEFAULT_PROVENANCE_CID: &'static str =
    "https://tan-everyday-mite-419.mypinata.cloud/ipfs/bafkreidc7qbkdsfirbetsu5owm56oeqkhwhqlxpfgjio4qy3xexigod2nq";

/// The references used where a request gives an empty one.
#[derive(Debug)]
pub struct Defaults {
    pub image_uri: String,
    pub provenance_cid: String,
}

/// `Defaults` as a mathematical value.
pub ghost struct DefaultsView {
    pub image_uri: Seq<char>,
    pub provenance_cid: Seq<char>,
}

impl View for Defaults {
    type V = DefaultsView;

    open spec fn view(&self) -> DefaultsView {
        DefaultsView { image_uri: self.image_uri@, provenance_cid: self.provenance_cid@ }
    }
}

impl Clone for Defaults {
    fn clone(&self) -> (copy: Defaults)
        ensures
            copy == *self,
    {
        Defaults { image_uri: self.image_uri.clone(), provenance_cid: self.provenance_cid.clone() }
    }
}

/// What a reference stands for: itself, or `fallback` where it is empty.
pub open spec fn resolved(given: Seq<char>, fallback: Seq<char>) -> Seq<char> {
    if given.len() == 0 {
        fallback
    } else {
        given
    }
}

/// What `given` stands for: itself, or `fallback` where it is empty.
pub fn resolve(given: &String, fallback: &String) -> (reference: String)
    ensures
        reference@ == resolved(given@, fallback@),
{
    if given.as_str().is_empty() {
        fallback.clone()
    } else {
        given.clone()
    }
}

impl Defaults {
    /// The defaults that a new program starts with.
    pub open spec fn initial() -> DefaultsView {
        DefaultsView { image_uri: DEFAULT_IMAGE_URI@, provenance_cid: DEFAULT_PROVENANCE_CID@ }
    }

    /// The defaults that a new program starts with.
    pub fn new() -> (defaults: Defaults)
        ensures
            defaults@ == Defaults::initial(),
    {
        Defaults {
            image_uri: String::from_str(DEFAULT_IMAGE_URI),
            provenance_cid: String::from_str(DEFAULT_PROVENANCE_CID),
        }
    }
}

/// Tells observers that one of the defaults was replaced.
#[derive(Debug)]
pub struct DefaultUriUpdated {
    pub uri_type: String,
    pub new_uri: String,
}

/// `DefaultUriUpdated` as a mathematical value.
pub ghost struct DefaultUriUpdatedView {
    pub uri_type: Seq<char>,
    pub new_uri: Seq<char>,
}

impl View for DefaultUriUpdated {
    type V = DefaultUriUpdatedView;

    open spec fn view(&self) -> DefaultUriUpdatedView {
        DefaultUriUpdatedView { uri_type: self.uri_type@, new_uri: self.new_uri@ }
    }
}

/// What an update of the defaults works on: the ledger, whose authority
/// alone may change them, the caller, and the defaults themselves.
#[derive(Debug)]
pub struct UpdateDefaults {
    pub license_state: LicenseState,
    pub authority: Identity,
    pub defaults: Defaults,
}

impl UpdateDefaults {
    /// Whether the caller is the ledger's authority.
    pub open spec fn authorized(&self) -> bool {
        self.authority == self.license_state.authority
    }

    fn is_authorized(&self) -> (yes: bool)
        ensures
            yes == self.authorized(),
    {
        proof {
            lemma_identity_by_bytes(self.license_state.authority, self.authority);
        }
        self.license_state.authority == self.authority
    }
}

/// Replaces the default image reference with `new_uri`, for the issuances
/// that follow. Only the ledger's authority may do so; the ledger itself is
/// never touched.
pub fn update_default_image_uri(ctx: &mut UpdateDefaults, new_uri: String) -> (result: Result<
    DefaultUriUpdated,
    LicenseError,
>)
    ensures
        final(ctx).license_state == old(ctx).license_state,
        final(ctx).authority == old(ctx).authority,
        match result {
            Ok(event) => {
                &&& old(ctx).authorized()
                &&& final(ctx).defaults@ == (DefaultsView {
                    image_uri: new_uri@,
                    ..old(ctx).defaults@
                })
                &&& event@ == (DefaultUriUpdatedView { uri_type: "image"@, new_uri: new_uri@ })
            },
            Err(e) => {
                &&& !old(ctx).authorized()
                &&& e == LicenseError::Unauthorized
                &&& *final(ctx) == *old(ctx)
            },
        },
{
    if !ctx.is_authorized() {
        return Err(LicenseError::Unauthorized);
    }
    ctx.defaults.image_uri = new_uri.clone();
    Ok(DefaultUriUpdated { uri_type: String::from_str("image"), new_uri })
}

/// Replaces the default provenance reference with `new_cid`, for the
/// issuances that follow. Only the ledger's authority may do so; the ledger
/// itself is never touched.
pub fn update_default_provenance_cid(ctx: &mut UpdateDefaults, new_cid: String) -> (result: Result<
    DefaultUriUpdated,
    LicenseError,
>)
    ensures
        final(ctx).license_state == old(ctx).license_state,
        final(ctx).authority == old(ctx).authority,
        match result {
            Ok(event) => {
                &&& old(ctx).authorized()
                &&& final(ctx).defaults@ == (DefaultsView {
                    provenance_cid: new_cid@,
                    ..old(ctx).defaults@
                })
                &&& event@ == (DefaultUriUpdatedView {
                    uri_type: "provenance"@,
                    new_uri: new_cid@,
                })
            },
            Err(e) => {
                &&& !old(ctx).authorized()
                &&& e == LicenseError::Unauthorized
                &&& *final(ctx) == *old(ctx)
            },
        },
{
    if !ctx.is_authorized() {
        return Err(LicenseError::Unauthorized);
    }
    ctx.defaults.provenance_cid = new_cid.clone();
    Ok(DefaultUriUpdated { uri_type: String::from_str("provenance"), new_uri: new_cid })
}

} // verus!
