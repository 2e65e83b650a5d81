//! Creating a standalone issuer, with its own collection group record kept
//! beside it.
//!
//! The issuer record is built and validated, the bound asset is created
//! with a computed set of extensions, display metadata is attached, and
//! one collection token is minted to the issuer's own token account.

use vstd::prelude::*;
use crate::addresses::{
    associated_token_address, ata_seeds, community_seeds, fetch_community_id,
    spec_ata_program_id, spec_derived_address,
};
use crate::errors::TokenGatorMinterError;
use crate::instructions::wns_create::spec_display_fields_error;
use crate::pubkey::Pubkey;
use crate::state::group_extensions::Group;
use crate::state::minter::Minter;
use crate::state::minter_config::{
    MinterApplicationConfig, MinterConfig, MinterInterestConfig, MinterMetadataConfig,
    MinterTransferFeeConfig, PaymentConfig,
};

verus! {

/// Arguments for creating a standalone issuer.
#[derive(Clone, Debug)]
pub struct CreateMinterArgs {
    pub community: String,
    pub name: String,
    pub description: String,
    pub image_url: String,
    pub payment_config: PaymentConfig,
    pub application_config: MinterApplicationConfig,
    pub metadata_config: MinterMetadataConfig,
    pub interest_config: Option<MinterInterestConfig>,
    pub transfer_fee_config: Option<MinterTransferFeeConfig>,
}

/// One extension the bound asset must be created with.
#[derive(Clone, Copy, Debug, PartialEq, Eq, Structural)]
pub enum MintExtension {
    MintCloseAuthority,
    NonTransferable,
    MetadataPointer,
    GroupPointer,
    TransferFeeConfig,
    InterestBearingConfig,
}

/// The extensions the bound asset is created with: the four every issuer
/// gets, then the transfer-fee and interest extensions when their policies
/// are present.
pub open spec fn spec_mint_extensions(
    transfer_fee: Option<MinterTransferFeeConfig>,
    interest: Option<MinterInterestConfig>,
) -> Seq<MintExtension> {
    let base = seq![
        MintExtension::MintCloseAuthority,
        MintExtension::NonTransferable,
        MintExtension::MetadataPointer,
        MintExtension::GroupPointer,
    ];
    let with_fee = if transfer_fee is Some {
        base.push(MintExtension::TransferFeeConfig)
    } else {
        base
    };
    if interest is Some {
        with_fee.push(MintExtension::InterestBearingConfig)
    } else {
        with_fee
    }
}

/// What the transition produces on success: the validated issuer record,
/// its collection group record, the extensions and display metadata for
/// the bound asset, and the one collection token minted to the issuer.
#[derive(Clone, Debug)]
pub struct CreateMinterOutcome {
    pub minter: Minter,
    pub group: Group,
    pub extensions: Vec<MintExtension>,
    pub collection_mint_amount: u64,
}

/// The outcome `create` must return, checked in this order: the fee payer
/// is not the authority, the community identity derives, the built record
/// validates, and the issuer's token account is the expected one.
pub open spec fn spec_create_outcome(
    args: CreateMinterArgs,
    authority: Pubkey,
    fee_payer: Pubkey,
    minter_key: Pubkey,
    minter_token_account: Pubkey,
    mint_key: Pubkey,
    token_program: Pubkey,
    program_id: Pubkey,
) -> Result<(), TokenGatorMinterError> {
    let community = spec_derived_address(community_seeds(args.community@), program_id);
    if fee_payer == authority {
        Err(TokenGatorMinterError::InvalidFeePayer)
    } else if community is None {
        Err(TokenGatorMinterError::InvalidSeeds)
    } else if spec_display_fields_error(args.name@, args.description@, args.image_url@) is Err {
        spec_display_fields_error(args.name@, args.description@, args.image_url@)
    } else if spec_derived_address(
        ata_seeds(minter_key, mint_key, token_program),
        spec_ata_program_id(),
    ) != Some(minter_token_account) {
        Err(TokenGatorMinterError::InvalidMinterTokenAccount)
    } else {
        Ok(())
    }
}

/// Creates a standalone issuer: builds and validates the record, lays out
/// the bound asset's extensions, and pairs the issuer with a fresh
/// collection group of capacity 100 holding one minted collection token.
pub fn create(
    bump: u8,
    authority: &Pubkey,
    fee_payer: &Pubkey,
    minter_key: &Pubkey,
    minter_token_account: &Pubkey,
    mint_key: &Pubkey,
    group_key: &Pubkey,
    token_program: &Pubkey,
    program_id: &Pubkey,
    args: CreateMinterArgs,
) -> (r: Result<CreateMinterOutcome, TokenGatorMinterError>)
    ensures
        match r {
            Ok(_) => spec_create_outcome(
                args,
                *authority,
                *fee_payer,
                *minter_key,
                *minter_token_account,
                *mint_key,
                *token_program,
                *program_id,
            ) is Ok,
            Err(e) => Err::<(), _>(e) == spec_create_outcome(
                args,
                *authority,
                *fee_payer,
                *minter_key,
                *minter_token_account,
                *mint_key,
                *token_program,
                *program_id,
            ),
        },
        match r {
            Ok(outcome) => {
                &&& outcome.minter.wf()
                &&& (args.application_config.identities@.len()
                    <= crate::constants::MAX_VECTOR_SIZE as int && (
                match args.metadata_config.metadata {
                    Some(m) => m@.len() <= crate::constants::MAX_VECTOR_SIZE as int,
                    None => true,
                })) ==> outcome.minter.bounded_lists()
                &&& outcome.minter.bump == bump
                &&& Some(outcome.minter.community_id) == spec_derived_address(
                    community_seeds(args.community@),
                    *program_id,
                )
                &&& outcome.minter.group == *group_key
                &&& outcome.minter.name@ == args.name@
                &&& outcome.minter.description@ == args.description@
                &&& outcome.minter.image_url@ == args.image_url@
                &&& outcome.minter.fee_payer == *fee_payer
                &&& outcome.minter.authorities@ == seq![*authority]
                &&& outcome.minter.payment_config == args.payment_config
                &&& outcome.minter.minter_config.mint == *mint_key
                &&& outcome.minter.minter_config.application_config.identities@
                    == args.application_config.identities@
                &&& outcome.minter.minter_config.application_config.payment_config
                    == args.application_config.payment_config
                &&& outcome.minter.minter_config.metadata_config.name@
                    == args.metadata_config.name@
                &&& outcome.minter.minter_config.metadata_config.symbol@
                    == args.metadata_config.symbol@
                &&& outcome.minter.minter_config.metadata_config.uri@
                    == args.metadata_config.uri@
                &&& outcome.minter.minter_config.interest_config == args.interest_config
                &&& outcome.minter.minter_config.transfer_fee_config == args.transfer_fee_config
                &&& outcome.group == (Group {
                    update_authority: *minter_key,
                    mint: *mint_key,
                    size: 0,
                    max_size: 100,
                })
                &&& outcome.extensions@ == spec_mint_extensions(
                    args.transfer_fee_config,
                    args.interest_config,
                )
                &&& outcome.collection_mint_amount == 1
            },
            Err(_) => true,
        },
{
    if *fee_payer == *authority {
        return Err(TokenGatorMinterError::InvalidFeePayer);
    }

    let community_id = match fetch_community_id(args.community.as_str(), program_id) {
        Some(pk) => pk,
        None => {
            return Err(TokenGatorMinterError::InvalidSeeds);
        },
    };

    let mut authorities: Vec<Pubkey> = Vec::new();
    authorities.push(*authority);

    let minter = Minter {
        bump,
        community_id,
        group: *group_key,
        name: args.name,
        description: args.description,
        image_url: args.image_url,
        fee_payer: *fee_payer,
        authorities,
        payment_config: args.payment_config,
        minter_config: MinterConfig {
            mint: *mint_key,
            application_config: args.application_config,
            metadata_config: args.metadata_config,
            interest_config: args.interest_config,
            transfer_fee_config: args.transfer_fee_config,
        },
    };

    proof {
        assert(minter.authorities@.len() == 1);
    }
    match minter.validate() {
        Ok(()) => {},
        Err(e) => {
            return Err(e);
        },
    }

    // The bound asset's extensions: four for every issuer, and one more
    // for each optional policy.
    let mut extensions: Vec<MintExtension> = Vec::new();
    extensions.push(MintExtension::MintCloseAuthority);
    extensions.push(MintExtension::NonTransferable);
    extensions.push(MintExtension::MetadataPointer);
    extensions.push(MintExtension::GroupPointer);
    if minter.minter_config.transfer_fee_config.is_some() {
        extensions.push(MintExtension::TransferFeeConfig);
    }
    if minter.minter_config.interest_config.is_some() {
        extensions.push(MintExtension::InterestBearingConfig);
    }
    proof {
        assert(extensions@ =~= spec_mint_extensions(
            args.transfer_fee_config,
            args.interest_config,
        ));
    }

    let minter_token_account_matches = match associated_token_address(
        minter_key,
        mint_key,
        token_program,
    ) {
        Some(pk) => pk == *minter_token_account,
        None => false,
    };
    if !minter_token_account_matches {
        return Err(TokenGatorMinterError::InvalidMinterTokenAccount);
    }

    let group = Group { update_authority: *minter_key, mint: *mint_key, size: 0, max_size: 100 };

    proof {
        assert(minter.authorities@ =~= seq![*authority]);
    }

    Ok(CreateMinterOutcome { minter, group, extensions, collection_mint_amount: 1 })
}

} // verus!
