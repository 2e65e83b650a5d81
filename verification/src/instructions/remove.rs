//! Retiring an issuer: allowed only while its bound asset has no
//! circulating supply; the asset account and the issuer record are then
//! closed and their reserves refunded to the fee payer.

use vstd::prelude::*;
use crate::authority_set::sorted_pubkeys;
use crate::errors::TokenGatorMinterError;
use crate::pubkey::Pubkey;
use crate::state::minter::Minter;

verus! {

/// The token-extensions program under which every bound asset lives.
pub open spec fn spec_token_extensions_program_id() -> Pubkey {
    Pubkey {
        w0: 0x06ddf6e1ee758fde,
        w1: 0x18425dbce46ccdda,
        w2: 0xb61afc4d83b90d27,
        w3: 0xfebdf928d8a18bfc,
    }
}

/// The accounts the environment must close, in order: first the bound
/// asset, then the issuer record, both refunding the fee payer.
#[derive(Clone, Copy, Debug, PartialEq, Eq, Structural)]
pub struct ClosePlan {
    pub close_mint_to: Pubkey,
    pub close_minter_to: Pubkey,
}

/// The outcome `remove` must return, checked in this order: the issuer's
/// designated fee payer, the acting authority, the bound asset, its zero
/// supply, and the token program.
pub open spec fn spec_remove_outcome(
    minter: Minter,
    mint_key: Pubkey,
    mint_supply: u64,
    authority: Pubkey,
    fee_payer: Pubkey,
    token_program: Pubkey,
) -> Result<(), TokenGatorMinterError> {
    if minter.fee_payer != fee_payer {
        Err(TokenGatorMinterError::UnAuthorized)
    } else if !minter.authorities@.contains(authority) {
        Err(TokenGatorMinterError::UnAuthorized)
    } else if minter.minter_config.mint != mint_key {
        Err(TokenGatorMinterError::InvalidMint)
    } else if mint_supply != 0 {
        Err(TokenGatorMinterError::CannotRemoveNonZeroSupplyMinter)
    } else if token_program != spec_token_extensions_program_id() {
        Err(TokenGatorMinterError::InvalidTokenProgram)
    } else {
        Ok(())
    }
}

/// Retires the issuer: checks the caller gate, the bound asset and its
/// zero supply, and returns the pair of account closures the environment
/// performs. The issuer record itself is destroyed by the environment;
/// nothing here mutates it.
pub fn remove(
    minter: &Minter,
    mint_key: &Pubkey,
    mint_supply: u64,
    authority: &Pubkey,
    fee_payer: &Pubkey,
    token_program: &Pubkey,
) -> (r: Result<ClosePlan, TokenGatorMinterError>)
    requires
        sorted_pubkeys(minter.authorities@),
    ensures
        match r {
            Ok(plan) => {
                &&& spec_remove_outcome(
                    *minter,
                    *mint_key,
                    mint_supply,
                    *authority,
                    *fee_payer,
                    *token_program,
                ) is Ok
                &&& plan == (ClosePlan { close_mint_to: *fee_payer, close_minter_to: *fee_payer })
            },
            Err(e) => Err::<(), _>(e) == spec_remove_outcome(
                *minter,
                *mint_key,
                mint_supply,
                *authority,
                *fee_payer,
                *token_program,
            ),
        },
        r is Ok <==> spec_remove_outcome(
            *minter,
            *mint_key,
            mint_supply,
            *authority,
            *fee_payer,
            *token_program,
        ) is Ok,
{
    if minter.fee_payer != *fee_payer {
        return Err(TokenGatorMinterError::UnAuthorized);
    }
    if !minter.check_for_authority(authority) {
        return Err(TokenGatorMinterError::UnAuthorized);
    }
    if minter.minter_config.mint != *mint_key {
        return Err(TokenGatorMinterError::InvalidMint);
    }
    if mint_supply != 0 {
        return Err(TokenGatorMinterError::CannotRemoveNonZeroSupplyMinter);
    }
    let token_extensions = Pubkey::new(
        0x06ddf6e1ee758fde,
        0x18425dbce46ccdda,
        0xb61afc4d83b90d27,
        0xfebdf928d8a18bfc,
    );
    if *token_program != token_extensions {
        return Err(TokenGatorMinterError::InvalidTokenProgram);
    }
    Ok(ClosePlan { close_mint_to: *fee_payer, close_minter_to: *fee_payer })
}

} // verus!
