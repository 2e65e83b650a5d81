//! Redeeming a user-scoped payment receipt by minting a membership.
//!
//! The receipt must bind exactly this redemption: user kind, receiver
//! equal to the redeeming authority, sender equal to the member receiving
//! the credential, and amount equal to the issuer's application price. On
//! success the issuer's application expiry moves to `now` plus its
//! configured validity, and the receipt is consumed in the same
//! transition.

use vstd::prelude::*;
use crate::addresses::{
    associated_token_address, ata_seeds, check_for_wns_accounts, spec_ata_program_id,
    spec_derived_address, spec_wns_accounts_check,
};
use crate::errors::TokenGatorMinterError;
use crate::instructions::remove::spec_token_extensions_program_id;
use crate::pubkey::Pubkey;
use crate::state::group_extensions::Group;
use crate::state::minter::Minter;
use crate::state::minter_config::{spec_metadata_view, MetadataPair};
use crate::state::receipt::{spec_receipt_at, ReceiptBook, ReceiptType};

verus! {

/// Arguments for minting a membership credential.
#[derive(Clone, Debug)]
pub struct MintMinterWNSArgs {
    pub name: String,
    pub symbol: String,
    pub uri: String,
    pub metadata: Option<Vec<MetadataPair>>,
}

/// What the environment must do on success: create the member asset with
/// these display fields under the issuer's permanent delegation, attach
/// the extra metadata (if any) together with the issue and expiry stamps,
/// add the member to the collection, and refund the receipt's reserve.
#[derive(Clone, Debug)]
pub struct MembershipMintPlan {
    pub member_name: String,
    pub member_symbol: String,
    pub member_uri: String,
    pub permanent_delegate: Pubkey,
    pub extra_metadata: Option<Vec<MetadataPair>>,
    pub issued_at: i64,
    pub expires_at: i64,
    pub receipt_refund_to: Pubkey,
}

/// The two records agree on everything but the application payment
/// policy's expiry.
pub open spec fn same_but_application_expiry(a: Minter, b: Minter) -> bool {
    &&& a.bump == b.bump
    &&& a.community_id == b.community_id
    &&& a.group == b.group
    &&& a.name@ == b.name@
    &&& a.description@ == b.description@
    &&& a.image_url@ == b.image_url@
    &&& a.fee_payer == b.fee_payer
    &&& a.authorities@ == b.authorities@
    &&& a.payment_config == b.payment_config
    &&& a.minter_config.mint == b.minter_config.mint
    &&& a.minter_config.application_config.identities@
        == b.minter_config.application_config.identities@
    &&& a.minter_config.application_config.payment_config.amount
        == b.minter_config.application_config.payment_config.amount
    &&& a.minter_config.application_config.payment_config.price
        == b.minter_config.application_config.payment_config.price
    &&& a.minter_config.application_config.payment_config.mint
        == b.minter_config.application_config.payment_config.mint
    &&& a.minter_config.application_config.payment_config.days
        == b.minter_config.application_config.payment_config.days
    &&& a.minter_config.metadata_config.name@ == b.minter_config.metadata_config.name@
    &&& a.minter_config.metadata_config.symbol@ == b.minter_config.metadata_config.symbol@
    &&& a.minter_config.metadata_config.uri@ == b.minter_config.metadata_config.uri@
    &&& spec_metadata_view(&a.minter_config.metadata_config.metadata) == spec_metadata_view(
        &b.minter_config.metadata_config.metadata,
    )
    &&& a.minter_config.interest_config == b.minter_config.interest_config
    &&& a.minter_config.transfer_fee_config == b.minter_config.transfer_fee_config
}

/// The outcome `mint` must return, checked in this order: the receipt is
/// live and binds this redemption (user kind, receiver, sender, amount),
/// the caller gate on the issuer, the token program, the receiver's token
/// account, and the external registry's derived accounts.
pub open spec fn spec_mint_outcome(
    book: Seq<crate::state::receipt::Receipt>,
    minter: Minter,
    receipt_sender: Pubkey,
    receipt_receiver: Pubkey,
    receipt_mint: Pubkey,
    authority: Pubkey,
    receiver: Pubkey,
    fee_payer: Pubkey,
    receiver_token_account: Pubkey,
    mint_key: Pubkey,
    group: Group,
    group_key: Pubkey,
    manager_key: Pubkey,
    member_key: Pubkey,
    wns_program: Pubkey,
    token_program: Pubkey,
) -> Result<(), TokenGatorMinterError> {
    let rec = spec_receipt_at(book, receipt_sender, receipt_receiver, receipt_mint);
    if !crate::state::receipt::contains_triple_seq(
        book,
        receipt_sender,
        receipt_receiver,
        receipt_mint,
    ) {
        Err(TokenGatorMinterError::ReceiptNotFound)
    } else if !(rec.payment_type is User) {
        Err(TokenGatorMinterError::InvalidReceipt)
    } else if rec.receiver != authority {
        Err(TokenGatorMinterError::InvalidAuthority)
    } else if rec.sender != receiver {
        Err(TokenGatorMinterError::InvalidReceiver)
    } else if rec.payment_amount
        != minter.minter_config.application_config.payment_config.price {
        Err(TokenGatorMinterError::InvalidReceipt)
    } else if minter.fee_payer != fee_payer {
        Err(TokenGatorMinterError::UnAuthorized)
    } else if !minter.authorities@.contains(authority) {
        Err(TokenGatorMinterError::UnAuthorized)
    } else if token_program != spec_token_extensions_program_id() {
        Err(TokenGatorMinterError::InvalidTokenProgram)
    } else if spec_derived_address(
        ata_seeds(receiver, mint_key, token_program),
        spec_ata_program_id(),
    ) != Some(receiver_token_account) {
        Err(TokenGatorMinterError::InvalidAuthorityTokenAccount)
    } else if spec_wns_accounts_check(
        wns_program,
        group.mint,
        group_key,
        manager_key,
        Some(mint_key),
        Some(member_key),
    ) is Err {
        spec_wns_accounts_check(
            wns_program,
            group.mint,
            group_key,
            manager_key,
            Some(mint_key),
            Some(member_key),
        )
    } else {
        Ok(())
    }
}

/// Redeems a user-scoped receipt: validates the strict binding, moves the
/// issuer's application expiry to `now + days * 86400`, consumes the
/// receipt, and returns the membership the environment must mint.
///
/// The whole transition is atomic: on any failure nothing has changed.
pub fn mint(
    book: &mut ReceiptBook,
    minter: &mut Minter,
    receipt_sender: &Pubkey,
    receipt_receiver: &Pubkey,
    receipt_mint: &Pubkey,
    authority: &Pubkey,
    receiver: &Pubkey,
    fee_payer: &Pubkey,
    receiver_token_account: &Pubkey,
    mint_key: &Pubkey,
    group: &Group,
    group_key: &Pubkey,
    manager_key: &Pubkey,
    member_key: &Pubkey,
    minter_key: &Pubkey,
    wns_program: &Pubkey,
    token_program: &Pubkey,
    now: i64,
    args: MintMinterWNSArgs,
) -> (r: Result<MembershipMintPlan, TokenGatorMinterError>)
    requires
        old(book).wf(),
        old(minter).wf(),
        now + 22032000 <= i64::MAX,
    ensures
        final(book).wf(),
        match r {
            Ok(_) => spec_mint_outcome(
                old(book).receipts@,
                *old(minter),
                *receipt_sender,
                *receipt_receiver,
                *receipt_mint,
                *authority,
                *receiver,
                *fee_payer,
                *receiver_token_account,
                *mint_key,
                *group,
                *group_key,
                *manager_key,
                *member_key,
                *wns_program,
                *token_program,
            ) is Ok,
            Err(e) => Err::<(), _>(e) == spec_mint_outcome(
                old(book).receipts@,
                *old(minter),
                *receipt_sender,
                *receipt_receiver,
                *receipt_mint,
                *authority,
                *receiver,
                *fee_payer,
                *receiver_token_account,
                *mint_key,
                *group,
                *group_key,
                *manager_key,
                *member_key,
                *wns_program,
                *token_program,
            ),
        },
        r is Err ==> *final(book) == *old(book) && *final(minter) == *old(minter),
        r is Ok ==> {
            &&& final(minter).wf()
            &&& same_but_application_expiry(*final(minter), *old(minter))
            &&& final(minter).minter_config.application_config.payment_config.expires_at as int
                == now + 86400 * (
                old(minter).minter_config.application_config.payment_config.days as int)
            &&& !final(book).spec_contains_triple(
                *receipt_sender,
                *receipt_receiver,
                *receipt_mint,
            )
            &&& exists|k: int| 0 <= k < old(book).receipts@.len() && final(book).receipts@ == old(
                book,
            ).receipts@.remove(k)
            &&& match r {
                Ok(plan) => {
                    &&& plan.member_name@ == args.name@
                    &&& plan.member_symbol@ == args.symbol@
                    &&& plan.member_uri@ == args.uri@
                    &&& plan.permanent_delegate == *minter_key
                    &&& spec_metadata_view(&plan.extra_metadata) == spec_metadata_view(
                        &args.metadata,
                    )
                    &&& plan.issued_at == now
                    &&& plan.expires_at as int == now + 86400 * (
                    old(minter).minter_config.application_config.payment_config.days as int)
                    &&& plan.receipt_refund_to == *fee_payer
                },
                Err(_) => false,
            }
        },
{
    let rec = match book.lookup(receipt_sender, receipt_receiver, receipt_mint) {
        Some(rec) => rec,
        None => {
            return Err(TokenGatorMinterError::ReceiptNotFound);
        },
    };
    if !(matches!(rec.payment_type, ReceiptType::User)) {
        return Err(TokenGatorMinterError::InvalidReceipt);
    }
    if rec.receiver != *authority {
        return Err(TokenGatorMinterError::InvalidAuthority);
    }
    if rec.sender != *receiver {
        return Err(TokenGatorMinterError::InvalidReceiver);
    }
    if rec.payment_amount != minter.minter_config.application_config.payment_config.price {
        return Err(TokenGatorMinterError::InvalidReceipt);
    }
    if minter.fee_payer != *fee_payer {
        return Err(TokenGatorMinterError::UnAuthorized);
    }
    if !minter.check_for_authority(authority) {
        return Err(TokenGatorMinterError::UnAuthorized);
    }
    let token_extensions = Pubkey::new(
        0x06ddf6e1ee758fde,
        0x18425dbce46ccdda,
        0xb61afc4d83b90d27,
        0xfebdf928d8a18bfc,
    );
    if *token_program != token_extensions {
        return Err(TokenGatorMinterError::InvalidTokenProgram);
    }

    let receiver_token_account_matches = match associated_token_address(
        receiver,
        mint_key,
        token_program,
    ) {
        Some(pk) => pk == *receiver_token_account,
        None => false,
    };
    if !receiver_token_account_matches {
        return Err(TokenGatorMinterError::InvalidAuthorityTokenAccount);
    }

    match check_for_wns_accounts(
        wns_program,
        &group.mint,
        group_key,
        manager_key,
        &Some(*mint_key),
        &Some(*member_key),
    ) {
        Ok(()) => {},
        Err(e) => {
            return Err(e);
        },
    }

    // Membership validity: issued now, expiring after the configured days.
    let days = minter.minter_config.application_config.payment_config.days;
    let issued_at = now;
    let expires_at = now + 60 * 60 * 24 * (days as i64);

    minter.minter_config.application_config.payment_config.expires_at = expires_at;

    match minter.validate() {
        Ok(()) => {},
        Err(e) => {
            proof {
                assert(false);
            }
            return Err(e);
        },
    }

    // Consume the receipt: the record is gone after this transition.
    match book.take(receipt_sender, receipt_receiver, receipt_mint) {
        Some(_) => {},
        None => {
            proof {
                assert(false);
            }
            return Err(TokenGatorMinterError::ReceiptNotFound);
        },
    }

    Ok(
        MembershipMintPlan {
            member_name: args.name,
            member_symbol: args.symbol,
            member_uri: args.uri,
            permanent_delegate: *minter_key,
            extra_metadata: args.metadata,
            issued_at,
            expires_at,
            receipt_refund_to: *fee_payer,
        },
    )
}

} // verus!
