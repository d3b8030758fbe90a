//! What the program asks of the two programs it relies on: the token
//! program, which mints, and the metadata program, which registers what is
//! displayed of a token.

use vstd::prelude::*;
use crate::identity::Identity;

verus! {

/// The order to mint `amount` units of the token at `mint` into the account
/// `to`, under `authority`, which signs with `signer_seeds`.
#[derive(Debug)]
pub struct MintOrder {
    pub mint: Identity,
    pub to: Identity,
    pub authority: Identity,
    pub signer_seeds: Vec<Vec<u8>>,
    pub amount: u64,
}

/// `MintOrder` as a mathematical value.
pub ghost struct MintOrderView {
    pub mint: Identity,
    pub to: Identity,
    pub authority: Identity,
    pub signer_seeds: Seq<Seq<u8>>,
    pub amount: u64,
}

impl View for MintOrder {
    type V = MintOrderView;

    open spec fn view(&self) -> MintOrderView {
        MintOrderView {
            mint: self.mint,
            to: self.to,
            authority: self.authority,
            signer_seeds: self.signer_seeds.deep_view(),
            amount: self.amount,
        }
    }
}

/// One creator of a token, with the share of the proceeds that is theirs,
/// in percent.
#[derive(Clone, Copy, Debug)]
pub struct Creator {
    pub address: Identity,
    pub verified: bool,
    pub share: u8,
}

/// What the metadata program displays of a token.
#[derive(Debug)]
pub struct TokenMetadata {
    pub name: String,
    pub symbol: String,
    pub uri: String,
    pub seller_fee_basis_points: u16,
    pub creators: Vec<Creator>,
}

/// `TokenMetadata` as a mathematical value.
pub ghost struct TokenMetadataView {
    pub name: Seq<char>,
    pub symbol: Seq<char>,
    pub uri: Seq<char>,
    pub seller_fee_basis_points: u16,
    pub creators: Seq<Creator>,
}

impl View for TokenMetadata {
    type V = TokenMetadataView;

    open spec fn view(&self) -> TokenMetadataView {
        TokenMetadataView {
            name: self.name@,
            symbol: self.symbol@,
            uri: self.uri@,
            seller_fee_basis_points: self.seller_fee_basis_points,
            creators: self.creators@,
        }
    }
}

/// The order to register `data` for the token at `mint`, in the metadata
/// program's account `metadata`.
#[derive(Debug)]
pub struct MetadataOrder {
    pub metadata: Identity,
    pub mint: Identity,
    pub mint_authority: Identity,
    pub payer: Identity,
    pub update_authority: Identity,
    pub update_authority_is_signer: bool,
    pub data: TokenMetadata,
    pub is_mutable: bool,
}

/// `MetadataOrder` as a mathematical value.
pub ghost struct MetadataOrderView {
    pub metadata: Identity,
    pub mint: Identity,
    pub mint_authority: Identity,
    pub payer: Identity,
    pub update_authority: Identity,
    pub update_authority_is_signer: bool,
    pub data: TokenMetadataView,
    pub is_mutable: bool,
}

impl View for MetadataOrder {
    type V = MetadataOrderView;

    open spec fn view(&self) -> MetadataOrderView {
        MetadataOrderView {
            metadata: self.metadata,
            mint: self.mint,
            mint_authority: self.mint_authority,
            payer: self.payer,
            update_authority: self.update_authority,
            update_authority_is_signer: self.update_authority_is_signer,
            data: self.data@,
            is_mutable: self.is_mutable,
        }
    }
}

} // verus!
