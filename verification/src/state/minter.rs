//! The issuer record: identity, display fields, payment policy, nested
//! configuration and the sorted authority set.

use vstd::prelude::*;
use vstd::utf8::encode_utf8;
use crate::authority_set::{binary_search_pubkeys, sorted_pubkeys};
use crate::constants::{
    MAX_DESCRIPTION_SIZE, MAX_IMAGE_URL_SIZE, MAX_NAME_SIZE, MAX_VECTOR_SIZE,
};
use crate::errors::TokenGatorMinterError;
use crate::pubkey::Pubkey;
use crate::state::minter_config::{
    spec_metadata_view, MetadataPair, MinterApplicationConfig, MinterConfig,
    MinterMetadataConfig, PaymentConfig,
};
use crate::validation::{
    is_valid_url, is_valid_username, spec_is_valid_url, spec_is_valid_username,
};

verus! {

/// The issuer ("minter") record persisted per bound asset.
#[derive(Clone, Debug)]
pub struct Minter {
    /// Bump of the derived address.
    pub bump: u8,
    /// Community the issuer belongs to.
    pub community_id: Pubkey,
    /// Collection group of the issuer.
    pub group: Pubkey,
    /// Name of the issuer.
    pub name: String,
    /// Description of the issuer.
    pub description: String,
    /// Image URL of the issuer.
    pub image_url: String,
    /// Remote fee payer.
    pub fee_payer: Pubkey,
    /// Authorities that have been delegated to, in ascending address order.
    pub authorities: Vec<Pubkey>,
    /// Payment policy for creating this issuer.
    pub payment_config: PaymentConfig,
    /// Bound asset and nested policies.
    pub minter_config: MinterConfig,
}

impl Minter {
    /// Serialized size of an issuer record with `n_authorities` delegated
    /// authorities: fixed-width fields and string ceilings, plus
    /// `4 + n * 32` for the authority list, plus the nested configuration.
    pub open spec fn spec_size(
        n_authorities: int,
        identities: Seq<crate::state::minter_config::IdentityProvider>,
        metadata: Option<Seq<MetadataPair>>,
    ) -> int {
        8 + 1 + 32 + 32 + MAX_NAME_SIZE + MAX_DESCRIPTION_SIZE + MAX_IMAGE_URL_SIZE + 32 + (4
            + n_authorities * 32) + 8 + PaymentConfig::spec_size() + MinterConfig::spec_size(
            identities,
            metadata,
        )
    }

    /// The byte size to allocate or grow to. Computed the same way at
    /// creation time and at mutation time.
    pub fn size(
        authorities: &[Pubkey],
        application_config: &MinterApplicationConfig,
        metadata_config: &MinterMetadataConfig,
    ) -> (r: usize)
        requires
            authorities@.len() <= 0x0100_0000,
            application_config.identities@.len() <= MAX_VECTOR_SIZE as int,
            match metadata_config.metadata {
                Some(m) => m@.len() <= MAX_VECTOR_SIZE as int,
                None => true,
            },
        ensures
            r == Minter::spec_size(
                authorities@.len() as int,
                application_config.identities@,
                spec_metadata_view(&metadata_config.metadata),
            ),
    {
        // Vector length marker plus one address per authority.
        let authorities_size = 4 + authorities.len() * 32;

        let payment_config_size = PaymentConfig::size();
        let minter_config_size = MinterConfig::size(application_config, metadata_config);

        8 + 1 + 32 + 32 + MAX_NAME_SIZE + MAX_DESCRIPTION_SIZE + MAX_IMAGE_URL_SIZE + 32
            + authorities_size + 8 + payment_config_size + minter_config_size
    }

    /// The validation sequence's outcome: the first failure, or `Ok`.
    /// Checks run in this order: name shape, description length, image URL
    /// shape, image URL length, authority count ceiling; the nested policy
    /// hooks currently accept everything.
    pub open spec fn spec_validate(self) -> Result<(), TokenGatorMinterError> {
        if !spec_is_valid_username(encode_utf8(self.name@)) {
            Err(TokenGatorMinterError::InvalidMinterName)
        } else if !(encode_utf8(self.description@).len() > 10 && encode_utf8(self.description@).len()
            <= MAX_DESCRIPTION_SIZE) {
            Err(TokenGatorMinterError::InvalidMinterDescription)
        } else if !spec_is_valid_url(encode_utf8(self.image_url@)) {
            Err(TokenGatorMinterError::InvalidMinterImageURL)
        } else if !(encode_utf8(self.image_url@).len() > 0 && encode_utf8(self.image_url@).len()
            <= MAX_IMAGE_URL_SIZE) {
            Err(TokenGatorMinterError::InvalidMinterImageURL)
        } else if !(self.authorities@.len() <= MAX_VECTOR_SIZE as int) {
            Err(TokenGatorMinterError::MaxSizeReached)
        } else {
            Ok(())
        }
    }

    /// The record passes the whole validation sequence.
    pub open spec fn spec_valid(self) -> bool {
        self.spec_validate() is Ok
    }

    /// A well-formed issuer: validated, with its authorities in ascending
    /// address order.
    pub open spec fn wf(self) -> bool {
        self.spec_valid() && sorted_pubkeys(self.authorities@)
    }

    /// The nested lists fit the library's vector ceiling, so the record's
    /// size formula stays within machine arithmetic.
    pub open spec fn bounded_lists(self) -> bool {
        &&& self.minter_config.application_config.identities@.len() <= MAX_VECTOR_SIZE as int
        &&& match self.minter_config.metadata_config.metadata {
            Some(m) => m@.len() <= MAX_VECTOR_SIZE as int,
            None => true,
        }
    }

    /// Runs the validation checks in order, short-circuiting on the first failure.
    pub fn validate(&self) -> (r: Result<(), TokenGatorMinterError>)
        ensures
            r == self.spec_validate(),
    {
        // Name
        if !is_valid_username(self.name.as_str()) {
            return Err(TokenGatorMinterError::InvalidMinterName);
        }

        // Description
        let description_len = self.description.as_str().as_bytes().len();
        if !(description_len > 10 && description_len <= MAX_DESCRIPTION_SIZE) {
            return Err(TokenGatorMinterError::InvalidMinterDescription);
        }

        // Image URL
        if !is_valid_url(self.image_url.as_str()) {
            return Err(TokenGatorMinterError::InvalidMinterImageURL);
        }
        let image_url_len = self.image_url.as_str().as_bytes().len();
        if !(image_url_len > 0 && image_url_len <= MAX_IMAGE_URL_SIZE) {
            return Err(TokenGatorMinterError::InvalidMinterImageURL);
        }

        // Authorities
        if !(self.authorities.len() <= MAX_VECTOR_SIZE as usize) {
            return Err(TokenGatorMinterError::MaxSizeReached);
        }

        // Payment config
        match self.payment_config.validate() {
            Ok(()) => {},
            Err(e) => {
                return Err(e);
            },
        }

        // Minter config
        match self.minter_config.validate() {
            Ok(()) => {},
            Err(e) => {
                return Err(e);
            },
        }

        Ok(())
    }

    /// Whether `authority` belongs to the authority set; the authorization
    /// gate for every mutating operation.
    pub fn check_for_authority(&self, authority: &Pubkey) -> (r: bool)
        requires
            sorted_pubkeys(self.authorities@),
        ensures
            r == self.authorities@.contains(*authority),
    {
        match binary_search_pubkeys(&self.authorities, authority) {
            Ok(i) => {
                proof {
                    assert(self.authorities@[i as int] == *authority);
                }
                true
            },
            Err(_) => false,
        }
    }
}

/// The size formula is incremental in the authority count: the record
/// sized before an insertion, plus the 32 bytes of one address, equals the
/// record sized after it, for any count up to the ceiling.
pub proof fn lemma_minter_size_grows_by_element(
    n: int,
    identities: Seq<crate::state::minter_config::IdentityProvider>,
    metadata: Option<Seq<MetadataPair>>,
)
    requires
        0 <= n <= MAX_VECTOR_SIZE as int,
    ensures
        Minter::spec_size(n, identities, metadata) + 32 == Minter::spec_size(
            n + 1,
            identities,
            metadata,
        ),
{
    assert((n + 1) * 32 == n * 32 + 32) by (nonlinear_arith);
}

} // verus!
