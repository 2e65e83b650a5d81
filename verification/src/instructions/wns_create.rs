//! Redeeming a community-scoped payment receipt by creating an issuer
//! backed by the external registry's collection group.
//!
//! The receipt must bind exactly this redemption: community kind, receiver
//! equal to the creating authority and its token account, the payment
//! asset, and the amount equal to the new issuer's price. On success the
//! issuer record is created and validated, the payment moves to the fee
//! payer, and the receipt is consumed in the same transition.

use vstd::prelude::*;
use crate::addresses::{
    associated_token_address, ata_seeds, check_for_wns_accounts, community_seeds,
    fetch_community_id, spec_ata_program_id, spec_derived_address, spec_wns_accounts_check,
};
use crate::errors::TokenGatorMinterError;
use crate::instructions::prepare::TransferPlan;
use crate::pubkey::Pubkey;
use crate::state::minter::Minter;
use crate::state::minter_config::{
    MinterApplicationConfig, MinterConfig, MinterInterestConfig, MinterMetadataConfig,
    MinterTransferFeeConfig, PaymentConfig,
};
use crate::state::receipt::{spec_receipt_at, Receipt, ReceiptBook, ReceiptType};

verus! {

/// A payment policy as handed in by the caller; the expiry is computed,
/// not chosen.
#[derive(Clone, Copy, Debug, PartialEq, Eq, Structural)]
pub struct PaymentConfigArgs {
    pub amount: u16,
    pub price: u64,
    pub mint: Pubkey,
    pub days: u8,
}

/// Arguments for creating a collection-backed issuer.
#[derive(Clone, Debug)]
pub struct CreateMinterWNSArgs {
    pub community: String,
    pub name: String,
    pub description: String,
    pub image_url: String,
    pub payment_config: PaymentConfigArgs,
    pub application_config: MinterApplicationConfig,
    pub metadata_config: MinterMetadataConfig,
    pub interest_config: Option<MinterInterestConfig>,
    pub transfer_fee_config: Option<MinterTransferFeeConfig>,
}

/// The collection group the environment must create for the issuer.
#[derive(Clone, Debug)]
pub struct GroupCreatePlan {
    pub name: String,
    pub symbol: String,
    pub uri: String,
    pub max_size: u32,
}

/// What the transition produces on success: the validated issuer record,
/// the payment transfer, the collection group to create, the extra
/// metadata to attach, and where the receipt's reserve is refunded.
#[derive(Clone, Debug)]
pub struct CreateMinterWNSOutcome {
    pub minter: Minter,
    pub payment_transfer: TransferPlan,
    pub group_plan: GroupCreatePlan,
    pub receipt_refund_to: Pubkey,
}

/// The display-field checks the built record must pass, in validation
/// order: name shape, description length, image URL shape and length. The
/// authority-count ceiling cannot fail here: the record starts with one.
pub open spec fn spec_display_fields_error(
    name: Seq<char>,
    description: Seq<char>,
    image_url: Seq<char>,
) -> Result<(), TokenGatorMinterError> {
    if !crate::validation::spec_is_valid_username(vstd::utf8::encode_utf8(name)) {
        Err(TokenGatorMinterError::InvalidMinterName)
    } else if !(vstd::utf8::encode_utf8(description).len() > 10 && vstd::utf8::encode_utf8(
        description,
    ).len() <= crate::constants::MAX_DESCRIPTION_SIZE) {
        Err(TokenGatorMinterError::InvalidMinterDescription)
    } else if !crate::validation::spec_is_valid_url(vstd::utf8::encode_utf8(image_url)) {
        Err(TokenGatorMinterError::InvalidMinterImageURL)
    } else if !(vstd::utf8::encode_utf8(image_url).len() > 0 && vstd::utf8::encode_utf8(
        image_url,
    ).len() <= crate::constants::MAX_IMAGE_URL_SIZE) {
        Err(TokenGatorMinterError::InvalidMinterImageURL)
    } else {
        Ok(())
    }
}

/// The outcome `create` must return, checked in this order: the receipt is
/// live and binds this redemption (community kind, receiver and its token
/// account, payment asset, amount), the fee payer is not the authority,
/// the community identity derives, the fee payer's and issuer's token
/// accounts are the expected ones, the registry accounts derive, and the
/// built record validates.
pub open spec fn spec_create_wns_outcome(
    book: Seq<Receipt>,
    args: CreateMinterWNSArgs,
    bump: u8,
    receipt_sender: Pubkey,
    receipt_receiver: Pubkey,
    receipt_mint: Pubkey,
    authority: Pubkey,
    authority_token_account: Pubkey,
    fee_payer: Pubkey,
    fee_payer_token_account: Pubkey,
    payment_mint_key: Pubkey,
    minter_key: Pubkey,
    minter_token_account: Pubkey,
    mint_key: Pubkey,
    group_key: Pubkey,
    manager_key: Pubkey,
    wns_program: Pubkey,
    token_program: Pubkey,
    program_id: Pubkey,
    now: i64,
) -> Result<(), TokenGatorMinterError> {
    let rec = spec_receipt_at(book, receipt_sender, receipt_receiver, receipt_mint);
    let community = spec_derived_address(community_seeds(args.community@), program_id);
    if !crate::state::receipt::contains_triple_seq(
        book,
        receipt_sender,
        receipt_receiver,
        receipt_mint,
    ) {
        Err(TokenGatorMinterError::ReceiptNotFound)
    } else if !(rec.payment_type is Community) {
        Err(TokenGatorMinterError::InvalidReceipt)
    } else if rec.receiver != authority {
        Err(TokenGatorMinterError::InvalidAuthority)
    } else if rec.receiver_token_account != authority_token_account {
        Err(TokenGatorMinterError::InvalidAuthority)
    } else if rec.payment_mint != payment_mint_key {
        Err(TokenGatorMinterError::InvalidMint)
    } else if rec.payment_amount != args.payment_config.price {
        Err(TokenGatorMinterError::InvalidReceipt)
    } else if fee_payer == authority {
        Err(TokenGatorMinterError::InvalidFeePayer)
    } else if community is None {
        Err(TokenGatorMinterError::InvalidSeeds)
    } else if spec_derived_address(
        ata_seeds(fee_payer, payment_mint_key, token_program),
        spec_ata_program_id(),
    ) != Some(fee_payer_token_account) {
        Err(TokenGatorMinterError::InvalidFeePayerTokenAccount)
    } else if spec_derived_address(
        ata_seeds(minter_key, mint_key, token_program),
        spec_ata_program_id(),
    ) != Some(minter_token_account) {
        Err(TokenGatorMinterError::InvalidMinterTokenAccount)
    } else if spec_wns_accounts_check(
        wns_program,
        mint_key,
        group_key,
        manager_key,
        None,
        None,
    ) is Err {
        spec_wns_accounts_check(wns_program, mint_key, group_key, manager_key, None, None)
    } else if spec_display_fields_error(args.name@, args.description@, args.image_url@) is Err {
        spec_display_fields_error(args.name@, args.description@, args.image_url@)
    } else {
        Ok(())
    }
}

/// Redeems a community-scoped receipt: validates the strict binding,
/// builds and validates the issuer record, consumes the receipt, and
/// returns what the environment must create and transfer.
///
/// The whole transition is atomic: on any failure nothing has changed.
pub fn create(
    book: &mut ReceiptBook,
    bump: u8,
    receipt_sender: &Pubkey,
    receipt_receiver: &Pubkey,
    receipt_mint: &Pubkey,
    authority: &Pubkey,
    authority_token_account: &Pubkey,
    fee_payer: &Pubkey,
    fee_payer_token_account: &Pubkey,
    payment_mint_key: &Pubkey,
    minter_key: &Pubkey,
    minter_token_account: &Pubkey,
    mint_key: &Pubkey,
    group_key: &Pubkey,
    manager_key: &Pubkey,
    wns_program: &Pubkey,
    token_program: &Pubkey,
    program_id: &Pubkey,
    now: i64,
    args: CreateMinterWNSArgs,
) -> (r: Result<CreateMinterWNSOutcome, TokenGatorMinterError>)
    requires
        old(book).wf(),
        now + 22032000 <= i64::MAX,
    ensures
        final(book).wf(),
        match r {
            Ok(_) => spec_create_wns_outcome(
                old(book).receipts@,
                args,
                bump,
                *receipt_sender,
                *receipt_receiver,
                *receipt_mint,
                *authority,
                *authority_token_account,
                *fee_payer,
                *fee_payer_token_account,
                *payment_mint_key,
                *minter_key,
                *minter_token_account,
                *mint_key,
                *group_key,
                *manager_key,
                *wns_program,
                *token_program,
                *program_id,
                now,
            ) is Ok,
            Err(e) => Err::<(), _>(e) == spec_create_wns_outcome(
                old(book).receipts@,
                args,
                bump,
                *receipt_sender,
                *receipt_receiver,
                *receipt_mint,
                *authority,
                *authority_token_account,
                *fee_payer,
                *fee_payer_token_account,
                *payment_mint_key,
                *minter_key,
                *minter_token_account,
                *mint_key,
                *group_key,
                *manager_key,
                *wns_program,
                *token_program,
                *program_id,
                now,
            ),
        },
        r is Err ==> *final(book) == *old(book),
        r is Ok ==> {
            &&& !final(book).spec_contains_triple(
                *receipt_sender,
                *receipt_receiver,
                *receipt_mint,
            )
            &&& exists|k: int| 0 <= k < old(book).receipts@.len() && final(book).receipts@ == old(
                book,
            ).receipts@.remove(k)
            &&& match r {
                Ok(outcome) => {
                    &&& outcome.minter.wf()
                    &&& (args.application_config.identities@.len()
                        <= crate::constants::MAX_VECTOR_SIZE as int && (
                    match args.metadata_config.metadata {
                        Some(m) => m@.len() <= crate::constants::MAX_VECTOR_SIZE as int,
                        None => true,
                    })) ==> outcome.minter.bounded_lists()
                    &&& outcome.minter.bump == bump
                    &&& Some(outcome.minter.community_id) == spec_derived_address(
                        community_seeds(args.community@),
                        *program_id,
                    )
                    &&& outcome.minter.group == *group_key
                    &&& outcome.minter.name@ == args.name@
                    &&& outcome.minter.description@ == args.description@
                    &&& outcome.minter.image_url@ == args.image_url@
                    &&& outcome.minter.fee_payer == *fee_payer
                    &&& outcome.minter.authorities@ == seq![*authority]
                    &&& outcome.minter.payment_config.amount == args.payment_config.amount
                    &&& outcome.minter.payment_config.price == args.payment_config.price
                    &&& outcome.minter.payment_config.mint == args.payment_config.mint
                    &&& outcome.minter.payment_config.days == args.payment_config.days
                    &&& outcome.minter.payment_config.expires_at as int == now + 86400 * (
                    args.payment_config.days as int)
                    &&& outcome.minter.minter_config.mint == *mint_key
                    &&& outcome.minter.minter_config.application_config.identities@
                        == args.application_config.identities@
                    &&& outcome.minter.minter_config.application_config.payment_config
                        == (PaymentConfig {
                        expires_at: 0,
                        ..args.application_config.payment_config
                    })
                    &&& outcome.minter.minter_config.metadata_config.name@
                        == args.metadata_config.name@
                    &&& outcome.minter.minter_config.interest_config == args.interest_config
                    &&& outcome.minter.minter_config.transfer_fee_config
                        == args.transfer_fee_config
                    &&& outcome.payment_transfer == (TransferPlan {
                        mint: *payment_mint_key,
                        from: *authority_token_account,
                        to: *fee_payer_token_account,
                        authority: *authority,
                        amount: args.payment_config.price,
                    })
                    &&& outcome.group_plan.name@ == args.metadata_config.name@
                    &&& outcome.group_plan.symbol@ == args.metadata_config.symbol@
                    &&& outcome.group_plan.uri@ == args.metadata_config.uri@
                    &&& outcome.group_plan.max_size == 100
                    &&& outcome.receipt_refund_to == *fee_payer
                },
                Err(_) => false,
            }
        },
{
    let rec = match book.lookup(receipt_sender, receipt_receiver, receipt_mint) {
        Some(rec) => rec,
        None => {
            return Err(TokenGatorMinterError::ReceiptNotFound);
        },
    };
    if !(matches!(rec.payment_type, ReceiptType::Community)) {
        return Err(TokenGatorMinterError::InvalidReceipt);
    }
    if rec.receiver != *authority {
        return Err(TokenGatorMinterError::InvalidAuthority);
    }
    if rec.receiver_token_account != *authority_token_account {
        return Err(TokenGatorMinterError::InvalidAuthority);
    }
    if rec.payment_mint != *payment_mint_key {
        return Err(TokenGatorMinterError::InvalidMint);
    }
    if rec.payment_amount != args.payment_config.price {
        return Err(TokenGatorMinterError::InvalidReceipt);
    }
    if *fee_payer == *authority {
        return Err(TokenGatorMinterError::InvalidFeePayer);
    }

    let community_id = match fetch_community_id(args.community.as_str(), program_id) {
        Some(pk) => pk,
        None => {
            return Err(TokenGatorMinterError::InvalidSeeds);
        },
    };

    let fee_payer_token_account_matches = match associated_token_address(
        fee_payer,
        payment_mint_key,
        token_program,
    ) {
        Some(pk) => pk == *fee_payer_token_account,
        None => false,
    };
    if !fee_payer_token_account_matches {
        return Err(TokenGatorMinterError::InvalidFeePayerTokenAccount);
    }

    let minter_token_account_matches = match associated_token_address(
        minter_key,
        mint_key,
        token_program,
    ) {
        Some(pk) => pk == *minter_token_account,
        None => false,
    };
    if !minter_token_account_matches {
        return Err(TokenGatorMinterError::InvalidMinterTokenAccount);
    }

    match check_for_wns_accounts(wns_program, mint_key, group_key, manager_key, &None, &None) {
        Ok(()) => {},
        Err(e) => {
            return Err(e);
        },
    }

    // Issuer-level expiry starts now; member-level expiry stays at the
    // not-yet-activated sentinel 0.
    let expires_at = now + 60 * 60 * 24 * (args.payment_config.days as i64);
    let payment_config = PaymentConfig {
        price: args.payment_config.price,
        amount: args.payment_config.amount,
        mint: args.payment_config.mint,
        days: args.payment_config.days,
        expires_at,
    };
    let application_payment_config = PaymentConfig {
        price: args.application_config.payment_config.price,
        amount: args.application_config.payment_config.amount,
        mint: args.application_config.payment_config.mint,
        days: args.application_config.payment_config.days,
        expires_at: 0,
    };

    let group_plan = GroupCreatePlan {
        name: args.metadata_config.name.clone(),
        symbol: args.metadata_config.symbol.clone(),
        uri: args.metadata_config.uri.clone(),
        max_size: 100,
    };

    let mut authorities: Vec<Pubkey> = Vec::new();
    authorities.push(*authority);

    let minter = Minter {
        bump,
        community_id,
        group: *group_key,
        name: args.name,
        description: args.description,
        image_url: args.image_url,
        fee_payer: *fee_payer,
        authorities,
        payment_config,
        minter_config: MinterConfig {
            mint: *mint_key,
            application_config: MinterApplicationConfig {
                identities: args.application_config.identities,
                payment_config: application_payment_config,
            },
            metadata_config: args.metadata_config,
            interest_config: args.interest_config,
            transfer_fee_config: args.transfer_fee_config,
        },
    };

    proof {
        assert(minter.authorities@.len() == 1);
    }
    match minter.validate() {
        Ok(()) => {},
        Err(e) => {
            return Err(e);
        },
    }

    match book.take(receipt_sender, receipt_receiver, receipt_mint) {
        Some(_) => {},
        None => {
            proof {
                assert(false);
            }
            return Err(TokenGatorMinterError::ReceiptNotFound);
        },
    }

    proof {
        assert(minter.authorities@ =~= seq![*authority]);
    }

    Ok(
        CreateMinterWNSOutcome {
            minter,
            payment_transfer: TransferPlan {
                mint: *payment_mint_key,
                from: *authority_token_account,
                to: *fee_payer_token_account,
                authority: *authority,
                amount: args.payment_config.price,
            },
            group_plan,
            receipt_refund_to: *fee_payer,
        },
    )
}

} // verus!
