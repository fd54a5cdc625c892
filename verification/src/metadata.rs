//! What a token says about itself, and when that is valid.

use vstd::prelude::*;
use vstd::string::*;

verus! {

/// The version of the metadata layout that a token declares.
pub const FT_METADATA_SPEC: &'static str = "ft-1.0.0";

/// The icon of a token that names none of its own.
pub const DATA_IMAGE_SVG_NEAR_ICON: &'static str =
    "data:image/svg+xml,%3Csvg xmlns='http://www.w3.org/2000/svg' viewBox='0 0 288 288'%3E%3Cg id='l' data-name='l'%3E%3Cpath d='M187.58,79.81l-30.1,44.69a3.2,3.2,0,0,0,4.75,4.2L191.86,103a1.2,1.2,0,0,1,2,.91v80.46a1.2,1.2,0,0,1-2.12.77L102.18,77.93A15.35,15.35,0,0,0,90.47,72.5H87.34A15.34,15.34,0,0,0,72,87.84V201.16A15.34,15.34,0,0,0,87.34,216.5h0a15.35,15.35,0,0,0,13.08-7.31l30.1-44.69a3.2,3.2,0,0,0-4.75-4.2L96.14,186a1.2,1.2,0,0,1-2-.91V104.61a1.2,1.2,0,0,1,2.12-.77l89.55,107.23a15.35,15.35,0,0,0,11.71,5.43h3.13A15.34,15.34,0,0,0,216,201.16V87.84A15.34,15.34,0,0,0,200.66,72.5h0A15.35,15.35,0,0,0,187.58,79.81Z'/%3E%3C/g%3E%3C/svg%3E";

/// The length of a reference hash, in bytes.
pub const REFERENCE_HASH_LEN: usize = 32;

/// What a token says about itself.
#[derive(Clone, Debug, PartialEq, Eq)]
pub struct TokenMetadata {
    pub spec: String,
    pub name: String,
    pub symbol: String,
    pub icon: Option<String>,
    pub reference: Option<String>,
    pub reference_hash: Option<Vec<u8>>,
    pub decimals: u8,
}

/// Calls `FungibleTokenMetadata::assert_valid` of near-contract-standards on
/// a copy of the metadata. That function returns nothing; it panics unless
/// the layout version is `ft-1.0.0`, reference and hash come together, and the
/// hash has 32 bytes, which is what `valid` says.
#[verifier::external_body]
pub(crate) fn assert_valid(metadata: &TokenMetadata)
    requires
        metadata.valid(),
{
    near_contract_standards::fungible_token::metadata::FungibleTokenMetadata {
        spec: metadata.spec.clone(),
        name: metadata.name.clone(),
        symbol: metadata.symbol.clone(),
        icon: metadata.icon.clone(),
        reference: metadata.reference.clone(),
        reference_hash: metadata.reference_hash.clone().map(near_sdk::json_types::Base64VecU8),
        decimals: metadata.decimals,
    }.assert_valid()
}

impl TokenMetadata {
    /// The layout version is the known one, and a reference comes with its
    /// hash of 32 bytes and a hash with its reference.
    pub open spec fn valid(&self) -> bool {
        &&& self.spec@ == FT_METADATA_SPEC@
        &&& (self.reference is Some <==> self.reference_hash is Some)
        &&& (self.reference_hash matches Some(hash) ==> hash@.len() == REFERENCE_HASH_LEN)
    }

    /// Whether the metadata are valid.
    pub fn is_valid(&self) -> (valid: bool)
        ensures
            valid == self.valid(),
    {
        let known = String::from_str(FT_METADATA_SPEC);
        if self.spec != known {
            return false;
        }
        if self.reference.is_some() != self.reference_hash.is_some() {
            return false;
        }
        match &self.reference_hash {
            Some(hash) => hash.len() == REFERENCE_HASH_LEN,
            None => true,
        }
    }

    /// Metadata in the known layout with the default icon and no reference.
    pub fn with_defaults(name: String, symbol: String, decimals: u8) -> (metadata: Self)
        ensures
            metadata.valid(),
            metadata.spec@ == FT_METADATA_SPEC@,
            metadata.name == name,
            metadata.symbol == symbol,
            metadata.decimals == decimals,
            metadata.icon matches Some(icon) && icon@ == DATA_IMAGE_SVG_NEAR_ICON@,
            metadata.reference is None,
            metadata.reference_hash is None,
    {
        TokenMetadata {
            spec: String::from_str(FT_METADATA_SPEC),
            name,
            symbol,
            icon: Some(String::from_str(DATA_IMAGE_SVG_NEAR_ICON)),
            reference: None,
            reference_hash: None,
            decimals,
        }
    }
}

} // verus!
