//! The nested policy records of an issuer: payment, application, metadata,
//! interest and transfer-fee configuration.
//!
//! Every record knows its exact serialized byte size, computed from the
//! declared field ceilings plus `4 + len * element_size` for each
//! variable-length list. The same formula is used when storage is first
//! allocated and when it is grown; the two call sites must never diverge.

use vstd::prelude::*;
use crate::constants::{
    MAX_METADATA_KEY_VALUE_SIZE, MAX_NAME_SIZE, MAX_SYMBOL_SIZE, MAX_URI_SIZE, MAX_VECTOR_SIZE,
};
use crate::errors::TokenGatorMinterError;
use crate::pubkey::Pubkey;

verus! {

/// An identity provider a member can attach.
#[derive(Clone, Copy, Debug, PartialEq, Eq, Structural)]
pub enum IdentityProvider {
    Discord,
    GitHub,
    Google,
    Twitter,
}

impl IdentityProvider {
    /// The provider's display name.
    pub fn get_provider(&self) -> (r: String)
        ensures
            r@ == match self {
                IdentityProvider::Discord => "Discord"@,
                IdentityProvider::GitHub => "GitHub"@,
                IdentityProvider::Google => "Google"@,
                IdentityProvider::Twitter => "Twitter"@,
            },
    {
        match self {
            IdentityProvider::Discord => String::from_str("Discord"),
            IdentityProvider::GitHub => String::from_str("GitHub"),
            IdentityProvider::Google => String::from_str("Google"),
            IdentityProvider::Twitter => String::from_str("Twitter"),
        }
    }
}

/// One metadata key/value pair.
#[derive(Clone, Debug)]
pub struct MetadataPair {
    pub key: String,
    pub value: String,
}

/// A payment policy: how many units cost what, in which asset, and for how
/// many days a payment stays valid.
#[derive(Clone, Copy, Debug, PartialEq, Eq, Structural)]
pub struct PaymentConfig {
    pub amount: u16,
    pub price: u64,
    pub mint: Pubkey,
    pub days: u8,
    pub expires_at: i64,
}

impl PaymentConfig {
    /// Serialized size: amount (2) + price (8) + mint (32) + days (1).
    pub open spec fn spec_size() -> int {
        (2 + 8 + 32 + 1) as int
    }

    pub fn size() -> (r: usize)
        ensures
            r == PaymentConfig::spec_size(),
    {
        2 + 8 + 32 + 1
    }

    /// Validation hook; currently accepts every payment policy.
    pub fn validate(&self) -> (r: Result<(), TokenGatorMinterError>)
        ensures
            r is Ok,
    {
        Ok(())
    }
}

/// Display metadata for the bound asset: name, symbol, URI, and optional
/// extra key/value pairs.
#[derive(Clone, Debug)]
pub struct MinterMetadataConfig {
    pub name: String,
    pub symbol: String,
    pub metadata: Option<Vec<MetadataPair>>,
    pub uri: String,
}

/// The sequence of pairs held by an optional metadata list.
pub open spec fn spec_metadata_view(metadata: &Option<Vec<MetadataPair>>) -> Option<
    Seq<MetadataPair>,
> {
    match metadata {
        Some(m) => Some(m@),
        None => None,
    }
}

impl MinterMetadataConfig {
    /// Serialized size: name and symbol and URI at their ceilings, one byte
    /// for the option tag, and `4 + len * 30` for the pair list (a key and
    /// a value at the MAX_METADATA_KEY_VALUE_SIZE ceiling take 30 bytes).
    pub open spec fn spec_size(metadata: Option<Seq<MetadataPair>>) -> int {
        let metadata_size: int = match metadata {
            Some(m) => m.len() * 30 as int,
            None => 0,
        };
        MAX_NAME_SIZE + MAX_SYMBOL_SIZE + 1 + (4 + metadata_size) + MAX_URI_SIZE
    }

    pub fn size(metadata: &Option<Vec<MetadataPair>>) -> (r: usize)
        requires
            match metadata {
                Some(m) => m@.len() <= MAX_VECTOR_SIZE as int,
                None => true,
            },
        ensures
            r == MinterMetadataConfig::spec_size(spec_metadata_view(metadata)),
    {
        // Each pair takes a key and a value at the MAX_METADATA_KEY_VALUE_SIZE
        // ceiling: 30 bytes together.
        let metadata_size: usize = match metadata {
            Some(m) => m.len() * 30,
            None => 0,
        };
        MAX_NAME_SIZE + MAX_SYMBOL_SIZE + 1 + (4 + metadata_size) + MAX_URI_SIZE
    }

    /// Validation hook; currently accepts every metadata policy.
    pub fn validate(&self) -> (r: Result<(), TokenGatorMinterError>)
        ensures
            r is Ok,
    {
        Ok(())
    }
}

/// An optional interest policy on the bound asset.
#[derive(Clone, Copy, Debug, PartialEq, Eq, Structural)]
pub struct MinterInterestConfig {
    pub rate: i16,
}

impl MinterInterestConfig {
    /// Serialized size: rate (2).
    pub open spec fn spec_size() -> int {
        2 as int
    }

    pub fn size() -> (r: usize)
        ensures
            r == MinterInterestConfig::spec_size(),
    {
        2
    }

    /// Validation hook; currently accepts every interest policy.
    pub fn validate(&self) -> (r: Result<(), TokenGatorMinterError>)
        ensures
            r is Ok,
    {
        Ok(())
    }
}

/// An optional transfer-fee policy on the bound asset.
#[derive(Clone, Copy, Debug, PartialEq, Eq, Structural)]
pub struct MinterTransferFeeConfig {
    pub transfer_fee_basis_points: u16,
    pub max_fee_rate: u64,
}

impl MinterTransferFeeConfig {
    /// Serialized size: basis points (2) + max fee (8).
    pub open spec fn spec_size() -> int {
        (2 + 8) as int
    }

    pub fn size() -> (r: usize)
        ensures
            r == MinterTransferFeeConfig::spec_size(),
    {
        2 + 8
    }

    /// Validation hook; currently accepts every transfer-fee policy.
    pub fn validate(&self) -> (r: Result<(), TokenGatorMinterError>)
        ensures
            r is Ok,
    {
        Ok(())
    }
}

/// Member-level configuration: which identities a member may attach, and
/// the payment policy for a membership.
#[derive(Clone, Debug)]
pub struct MinterApplicationConfig {
    pub identities: Vec<IdentityProvider>,
    pub payment_config: PaymentConfig,
}

impl MinterApplicationConfig {
    /// Serialized size: `4 + len * 2` for the identity list plus the
    /// payment policy.
    pub open spec fn spec_size(identities: Seq<IdentityProvider>) -> int {
        4 + identities.len() * 2 + PaymentConfig::spec_size()
    }

    pub fn size(identities: &[IdentityProvider]) -> (r: usize)
        requires
            identities@.len() <= MAX_VECTOR_SIZE as int,
        ensures
            r == MinterApplicationConfig::spec_size(identities@),
    {
        let payment_config_size = PaymentConfig::size();
        // Each identity takes a tag byte and a provider byte.
        4 + identities.len() * 2 + payment_config_size
    }

    /// Validation hook; currently accepts every application policy.
    pub fn validate(&self) -> (r: Result<(), TokenGatorMinterError>)
        ensures
            r is Ok,
    {
        Ok(())
    }
}

/// The issuer's bound asset and its nested policies.
#[derive(Clone, Debug)]
pub struct MinterConfig {
    pub mint: Pubkey,
    pub application_config: MinterApplicationConfig,
    pub metadata_config: MinterMetadataConfig,
    pub interest_config: Option<MinterInterestConfig>,
    pub transfer_fee_config: Option<MinterTransferFeeConfig>,
}

impl MinterConfig {
    /// Serialized size: mint (32), nested application and metadata
    /// configuration, and one tagged byte plus the fixed size for each of
    /// the two optional policies.
    pub open spec fn spec_size(
        identities: Seq<IdentityProvider>,
        metadata: Option<Seq<MetadataPair>>,
    ) -> int {
        32 + MinterApplicationConfig::spec_size(identities)
            + MinterMetadataConfig::spec_size(metadata) + 1 + MinterInterestConfig::spec_size()
            + 1 + MinterTransferFeeConfig::spec_size()
    }

    pub fn size(
        application_config: &MinterApplicationConfig,
        metadata_config: &MinterMetadataConfig,
    ) -> (r: usize)
        requires
            application_config.identities@.len() <= MAX_VECTOR_SIZE as int,
            match metadata_config.metadata {
                Some(m) => m@.len() <= MAX_VECTOR_SIZE as int,
                None => true,
            },
        ensures
            r == MinterConfig::spec_size(
                application_config.identities@,
                spec_metadata_view(&metadata_config.metadata),
            ),
    {
        let application_size = MinterApplicationConfig::size(
            application_config.identities.as_slice(),
        );
        let metadata_size = MinterMetadataConfig::size(&metadata_config.metadata);
        proof {
            assert(application_size <= 4 + 65535 * 2 + 43);
            assert(metadata_size <= 50 + 10 + 1 + 4 + 65535 * 30 + 100);
        }
        32 + application_size + metadata_size + 1 + MinterInterestConfig::size() + 1
            + MinterTransferFeeConfig::size()
    }

    /// Runs each nested validation hook in order, stopping at the first
    /// failure; every hook currently accepts.
    pub fn validate(&self) -> (r: Result<(), TokenGatorMinterError>)
        ensures
            r is Ok,
    {
        match self.application_config.validate() {
            Ok(()) => {},
            Err(e) => {
                return Err(e);
            },
        }
        match self.metadata_config.validate() {
            Ok(()) => {},
            Err(e) => {
                return Err(e);
            },
        }
        if let Some(interest_config) = &self.interest_config {
            match interest_config.validate() {
                Ok(()) => {},
                Err(e) => {
                    return Err(e);
                },
            }
        }
        if let Some(transfer_fee_config) = &self.transfer_fee_config {
            match transfer_fee_config.validate() {
                Ok(()) => {},
                Err(e) => {
                    return Err(e);
                },
            }
        }
        Ok(())
    }
}

} // verus!
