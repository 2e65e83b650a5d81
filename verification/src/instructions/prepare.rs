//! Preparing a payment: funds move from the sender's holding to the
//! receiver's holding in the same transition that writes the receipt.

use vstd::prelude::*;
use crate::errors::TokenGatorMinterError;
use crate::pubkey::Pubkey;
use crate::state::receipt::{Receipt, ReceiptBook, ReceiptType};

verus! {

/// Arguments for preparing a payment.
#[derive(Clone, Copy, Debug)]
pub struct PrepareForPaymentArgs {
    pub payment_amount: u64,
    pub payment_type: ReceiptType,
}

/// The value movement the environment must perform atomically with the
/// transition that produced it.
#[derive(Clone, Copy, Debug, PartialEq, Eq, Structural)]
pub struct TransferPlan {
    pub mint: Pubkey,
    pub from: Pubkey,
    pub to: Pubkey,
    pub authority: Pubkey,
    pub amount: u64,
}

/// The receipt `prepare` writes for these inputs.
pub open spec fn spec_prepared_receipt(
    bump: u8,
    sender: Pubkey,
    receiver: Pubkey,
    sender_token_account: Pubkey,
    receiver_token_account: Pubkey,
    payment_mint: Pubkey,
    now: i64,
    args: PrepareForPaymentArgs,
) -> Receipt {
    Receipt {
        bump,
        payment_type: args.payment_type,
        created_at: now,
        payment_amount: args.payment_amount,
        sender,
        receiver,
        sender_token_account,
        receiver_token_account,
        payment_mint,
    }
}

/// Escrows a payment: writes a receipt bound to (sender, receiver, asset)
/// and returns the transfer the environment performs in the same step.
/// Fails, changing nothing, when a receipt for the triple is already live.
pub fn prepare(
    book: &mut ReceiptBook,
    bump: u8,
    sender: &Pubkey,
    receiver: &Pubkey,
    sender_token_account: &Pubkey,
    receiver_token_account: &Pubkey,
    payment_mint: &Pubkey,
    now: i64,
    args: PrepareForPaymentArgs,
) -> (r: Result<TransferPlan, TokenGatorMinterError>)
    requires
        old(book).wf(),
    ensures
        final(book).wf(),
        old(book).spec_contains_triple(*sender, *receiver, *payment_mint) ==> (r == Err::<
            TransferPlan,
            _,
        >(TokenGatorMinterError::ReceiptAlreadyExists) && *final(book) == *old(book)),
        !old(book).spec_contains_triple(*sender, *receiver, *payment_mint) ==> {
            &&& r == Ok::<_, TokenGatorMinterError>(
                TransferPlan {
                    mint: *payment_mint,
                    from: *sender_token_account,
                    to: *receiver_token_account,
                    authority: *sender,
                    amount: args.payment_amount,
                },
            )
            &&& final(book).receipts@ == old(book).receipts@.push(
                spec_prepared_receipt(
                    bump,
                    *sender,
                    *receiver,
                    *sender_token_account,
                    *receiver_token_account,
                    *payment_mint,
                    now,
                    args,
                ),
            )
            &&& final(book).spec_contains_triple(*sender, *receiver, *payment_mint)
        },
{
    let receipt = Receipt {
        bump,
        payment_type: args.payment_type,
        created_at: now,
        payment_amount: args.payment_amount,
        sender: *sender,
        receiver: *receiver,
        sender_token_account: *sender_token_account,
        receiver_token_account: *receiver_token_account,
        payment_mint: *payment_mint,
    };
    if !book.put(receipt) {
        return Err(TokenGatorMinterError::ReceiptAlreadyExists);
    }
    proof {
        let t = book.receipts@;
        assert(t[t.len() - 1] == receipt);
    }
    Ok(
        TransferPlan {
            mint: *payment_mint,
            from: *sender_token_account,
            to: *receiver_token_account,
            authority: *sender,
            amount: args.payment_amount,
        },
    )
}

} // verus!
