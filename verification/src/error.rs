//! The reasons for which a request is rejected.

use vstd::prelude::*;
use vstd::string::StringExecFns;

verus! {

/// Why the program rejected a request. Every rejection is final for that
/// request: nothing is retried, and nothing of the request stays behind.
#[derive(Clone, Copy, Debug, PartialEq, Eq, Structural)]
pub enum LicenseError {
    /// Every license of the capped supply has been issued.
    MaximumSupplyReached,
    /// The identity already holds a license.
    AlreadyHasLicense,
    /// The caller is not the ledger's authority.
    Unauthorized,
    /// No token address can be derived for the license.
    InvalidMint,
    /// The ledger exists already.
    AlreadyInitialized,
    /// The token program refused to mint the license token.
    ExternalMintFailure,
    /// The metadata program refused to register the token's metadata.
    ExternalMetadataFailure,
}

impl LicenseError {
    /// The text shown to a caller for this error.
    pub open spec fn spec_message(self) -> Seq<char> {
        match self {
            LicenseError::MaximumSupplyReached => "Maximum supply reached"@,
            LicenseError::AlreadyHasLicense => "Address already has Brolli"@,
            LicenseError::Unauthorized => "Unauthorized"@,
            LicenseError::InvalidMint => "Invalid mint address"@,
            LicenseError::AlreadyInitialized => "License state already initialized"@,
            LicenseError::ExternalMintFailure => "Token mint failed"@,
            LicenseError::ExternalMetadataFailure => "Metadata registration failed"@,
        }
    }

    /// The text shown to a caller for this error.
    pub fn message(&self) -> (text: String)
        ensures
            text@ == self.spec_message(),
    {
        match self {
            LicenseError::MaximumSupplyReached => String::from_str("Maximum supply reached"),
            LicenseError::AlreadyHasLicense => String::from_str("Address already has Brolli"),
            LicenseError::Unauthorized => String::from_str("Unauthorized"),
            LicenseError::InvalidMint => String::from_str("Invalid mint address"),
            LicenseError::AlreadyInitialized => String::from_str(
                "License state already initialized",
            ),
            LicenseError::ExternalMintFailure => String::from_str("Token mint failed"),
            LicenseError::ExternalMetadataFailure => String::from_str(
                "Metadata registration failed",
            ),
        }
    }
}

} // verus!
