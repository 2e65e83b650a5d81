//! The stable, named failures a transition can end in.
//!
//! Every failure rejects the whole transition; nothing is partially
//! committed. Authorization failures and state mismatches must be fixed by
//! the caller; resource failures can be retried with more funds.

use vstd::prelude::*;

verus! {

#[derive(Clone, Copy, Debug, PartialEq, Eq, Structural)]
pub enum TokenGatorMinterError {
    /// Account not owned by program.
    InvalidAccountOwner,
    /// Invalid fee payer.
    InvalidFeePayer,
    /// Account unauthorized to perform this action.
    UnAuthorized,
    /// Authority already exists.
    AuthorityAlreadyExists,
    /// Authority does not exist.
    AuthorityNonExistant,
    /// Cannot remove last remaining authority.
    CannotRemoveSoloAuthority,
    /// Invalid minter token account.
    InvalidMinterTokenAccount,
    /// Invalid authority token account.
    InvalidAuthorityTokenAccount,
    /// Invalid fee payer token account.
    InvalidFeePayerTokenAccount,
    /// Invalid membership group account.
    InvalidWNSGroup,
    /// Invalid membership member account.
    InvalidWNSMember,
    /// Invalid membership manager account.
    InvalidWNSManager,
    /// Invalid minter name.
    InvalidMinterName,
    /// Invalid minter description.
    InvalidMinterDescription,
    /// Invalid image URL.
    InvalidMinterImageURL,
    /// Array reached max size.
    MaxSizeReached,
    /// Invalid mint account passed.
    InvalidMint,
    /// Token extensions program required.
    InvalidTokenProgram,
    /// Cannot remove minter of non-zero supply.
    CannotRemoveNonZeroSupplyMinter,
    /// Payment receipt does not match the redemption.
    InvalidReceipt,
    /// Receipt receiver does not match the redeeming authority.
    InvalidAuthority,
    /// Receipt sender does not match the membership receiver.
    InvalidReceiver,
    /// No receipt exists for the given (sender, receiver, mint) triple.
    ReceiptNotFound,
    /// A receipt already exists for the given (sender, receiver, mint) triple.
    ReceiptAlreadyExists,
    /// The rent payer cannot cover the reserve needed to grow storage.
    InsufficientFunds,
    /// No derived address exists for the given seeds.
    InvalidSeeds,
}

impl TokenGatorMinterError {
    /// The message `message` returns for each failure.
    pub open spec fn spec_message(self) -> Seq<char> {
        match self {
            TokenGatorMinterError::InvalidAccountOwner => "Account not owned by program"@,
            TokenGatorMinterError::InvalidFeePayer => "Invalid Fee payer"@,
            TokenGatorMinterError::UnAuthorized => {
                "Account unauthorized to perform this action"@
            },
            TokenGatorMinterError::AuthorityAlreadyExists => "Authority already exists"@,
            TokenGatorMinterError::AuthorityNonExistant => "Authority does not exist"@,
            TokenGatorMinterError::CannotRemoveSoloAuthority => {
                "Cannot remove last remaining authority"@
            },
            TokenGatorMinterError::InvalidMinterTokenAccount => "Invalid minter token account"@,
            TokenGatorMinterError::InvalidAuthorityTokenAccount => {
                "Invalid authority token account"@
            },
            TokenGatorMinterError::InvalidFeePayerTokenAccount => {
                "Invalid fee payer token account"@
            },
            TokenGatorMinterError::InvalidWNSGroup => "Invalid WNS group account"@,
            TokenGatorMinterError::InvalidWNSMember => "Invalid WNS member account"@,
            TokenGatorMinterError::InvalidWNSManager => "Invalid WNS manager account"@,
            TokenGatorMinterError::InvalidMinterName => "Invalid minter name"@,
            TokenGatorMinterError::InvalidMinterDescription => "Invalid minter description"@,
            TokenGatorMinterError::InvalidMinterImageURL => "Invalid Image Url"@,
            TokenGatorMinterError::MaxSizeReached => "Array reached max size"@,
            TokenGatorMinterError::InvalidMint => "Invalid mint account passed"@,
            TokenGatorMinterError::InvalidTokenProgram => "Token extensions program required"@,
            TokenGatorMinterError::CannotRemoveNonZeroSupplyMinter => {
                "Cannot remove minter of non-zero supply"@
            },
            TokenGatorMinterError::InvalidReceipt => "Invalid receipt"@,
            TokenGatorMinterError::InvalidAuthority => "Invalid authority"@,
            TokenGatorMinterError::InvalidReceiver => "Invalid receiver"@,
            TokenGatorMinterError::ReceiptNotFound => "Receipt not found"@,
            TokenGatorMinterError::ReceiptAlreadyExists => "Receipt already exists"@,
            TokenGatorMinterError::InsufficientFunds => {
                "Insufficient funds to grow account storage"@
            },
            TokenGatorMinterError::InvalidSeeds => "No derived address exists for the seeds"@,
        }
    }

    /// The static message describing which invariant failed.
    pub fn message(&self) -> (r: &'static str)
        ensures
            r@ == self.spec_message(),
    {
        match self {
            TokenGatorMinterError::InvalidAccountOwner => "Account not owned by program",
            TokenGatorMinterError::InvalidFeePayer => "Invalid Fee payer",
            TokenGatorMinterError::UnAuthorized => {
                "Account unauthorized to perform this action"
            },
            TokenGatorMinterError::AuthorityAlreadyExists => "Authority already exists",
            TokenGatorMinterError::AuthorityNonExistant => "Authority does not exist",
            TokenGatorMinterError::CannotRemoveSoloAuthority => {
                "Cannot remove last remaining authority"
            },
            TokenGatorMinterError::InvalidMinterTokenAccount => "Invalid minter token account",
            TokenGatorMinterError::InvalidAuthorityTokenAccount => {
                "Invalid authority token account"
            },
            TokenGatorMinterError::InvalidFeePayerTokenAccount => {
                "Invalid fee payer token account"
            },
            TokenGatorMinterError::InvalidWNSGroup => "Invalid WNS group account",
            TokenGatorMinterError::InvalidWNSMember => "Invalid WNS member account",
            TokenGatorMinterError::InvalidWNSManager => "Invalid WNS manager account",
            TokenGatorMinterError::InvalidMinterName => "Invalid minter name",
            TokenGatorMinterError::InvalidMinterDescription => "Invalid minter description",
            TokenGatorMinterError::InvalidMinterImageURL => "Invalid Image Url",
            TokenGatorMinterError::MaxSizeReached => "Array reached max size",
            TokenGatorMinterError::InvalidMint => "Invalid mint account passed",
            TokenGatorMinterError::InvalidTokenProgram => "Token extensions program required",
            TokenGatorMinterError::CannotRemoveNonZeroSupplyMinter => {
                "Cannot remove minter of non-zero supply"
            },
            TokenGatorMinterError::InvalidReceipt => "Invalid receipt",
            TokenGatorMinterError::InvalidAuthority => "Invalid authority",
            TokenGatorMinterError::InvalidReceiver => "Invalid receiver",
            TokenGatorMinterError::ReceiptNotFound => "Receipt not found",
            TokenGatorMinterError::ReceiptAlreadyExists => "Receipt already exists",
            TokenGatorMinterError::InsufficientFunds => {
                "Insufficient funds to grow account storage"
            },
            TokenGatorMinterError::InvalidSeeds => "No derived address exists for the seeds",
        }
    }
}

} // verus!
