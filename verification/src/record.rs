//! License records: what the program keeps of each issued license, and what
//! it answers when asked about one.

use vstd::prelude::*;
use vstd::string::StringExecFns;
use crate::identity::Identity;

verus! {

/// The record of one issued license. It is written once, when the license
/// is issued, and never changed.
#[derive(Debug)]
pub struct LicenseMetadata {
    pub name: String,
    pub image_uri: String,
    pub provenance_cid: String,
    pub owner: Identity,
    pub mint: Identity,
    pub token_id: u64,
}

/// `LicenseMetadata` as a mathematical value.
pub ghost struct LicenseMetadataView {
    pub name: Seq<char>,
    pub image_uri: Seq<char>,
    pub provenance_cid: Seq<char>,
    pub owner: Identity,
    pub mint: Identity,
    pub token_id: u64,
}

impl View for LicenseMetadata {
    type V = LicenseMetadataView;

    open spec fn view(&self) -> LicenseMetadataView {
        LicenseMetadataView {
            name: self.name@,
            image_uri: self.image_uri@,
            provenance_cid: self.provenance_cid@,
            owner: self.owner,
            mint: self.mint,
            token_id: self.token_id,
        }
    }
}

impl Clone for LicenseMetadata {
    fn clone(&self) -> (copy: LicenseMetadata)
        ensures
            copy == *self,
    {
        LicenseMetadata {
            name: self.name.clone(),
            image_uri: self.image_uri.clone(),
            provenance_cid: self.provenance_cid.clone(),
            owner: self.owner,
            mint: self.mint,
            token_id: self.token_id,
        }
    }
}

impl LicenseMetadata {
    /// The bytes that a stored record takes: three length-prefixed strings
    /// of at most 100, 200 and 100 bytes, two identities and the token id.
    pub const SPACE: usize = 4 + 100 + 4 + 200 + 4 + 100 + 32 + 32 + 8;
}

/// What a reader of one license's record works on: the metadata program's
/// account for the token, and the record.
#[derive(Debug)]
pub struct GetNftMetadata {
    pub metadata: Identity,
    pub license_metadata: LicenseMetadata,
}

/// All that is shown of one license.
#[derive(Debug)]
pub struct NftMetadataResponse {
    pub name: String,
    pub description: String,
    pub image: String,
    pub provenance_cid: String,
    pub token_id: u64,
    pub owner: Identity,
    pub mint: Identity,
}

/// `NftMetadataResponse` as a mathematical value.
pub ghost struct NftMetadataResponseView {
    pub name: Seq<char>,
    pub description: Seq<char>,
    pub image: Seq<char>,
    pub provenance_cid: Seq<char>,
    pub token_id: u64,
    pub owner: Identity,
    pub mint: Identity,
}

impl View for NftMetadataResponse {
    type V = NftMetadataResponseView;

    open spec fn view(&self) -> NftMetadataResponseView {
        NftMetadataResponseView {
            name: self.name@,
            description: self.description@,
            image: self.image@,
            provenance_cid: self.provenance_cid@,
            token_id: self.token_id,
            owner: self.owner,
            mint: self.mint,
        }
    }
}

/// The provenance of one license, as a named trait.
#[derive(Debug)]
pub struct ProvenanceTrait {
    pub trait_type: String,
    pub value: String,
}

/// `ProvenanceTrait` as a mathematical value.
pub ghost struct ProvenanceTraitView {
    pub trait_type: Seq<char>,
    pub value: Seq<char>,
}

impl View for ProvenanceTrait {
    type V = ProvenanceTraitView;

    open spec fn view(&self) -> ProvenanceTraitView {
        ProvenanceTraitView { trait_type: self.trait_type@, value: self.value@ }
    }
}

/// What is shown of the license recorded as `record`: its name behind the
/// collection's, a fixed description, and the record's other fields as they
/// are.
pub open spec fn nft_metadata_of(record: LicenseMetadataView) -> NftMetadataResponseView {
    NftMetadataResponseView {
        name: "Brolli "@ + record.name,
        description: "For BUIDLers"@,
        image: record.image_uri,
        provenance_cid: record.provenance_cid,
        token_id: record.token_id,
        owner: record.owner,
        mint: record.mint,
    }
}

/// All that is shown of the license whose record `ctx` holds.
pub fn get_nft_metadata(ctx: &GetNftMetadata) -> (response: NftMetadataResponse)
    ensures
        response@ == nft_metadata_of(ctx.license_metadata@),
{
    let record = &ctx.license_metadata;
    NftMetadataResponse {
        name: String::from_str("Brolli ").concat(record.name.as_str()),
        description: String::from_str("For BUIDLers"),
        image: record.image_uri.clone(),
        provenance_cid: record.provenance_cid.clone(),
        token_id: record.token_id,
        owner: record.owner,
        mint: record.mint,
    }
}

/// The provenance of the license whose record `ctx` holds.
pub fn get_provenance_trait(ctx: &GetNftMetadata) -> (provenance: ProvenanceTrait)
    ensures
        provenance@ == (ProvenanceTraitView {
            trait_type: "Provenance CID"@,
            value: ctx.license_metadata.provenance_cid@,
        }),
{
    ProvenanceTrait {
        trait_type: String::from_str("Provenance CID"),
        value: ctx.license_metadata.provenance_cid.clone(),
    }
}

} // verus!
