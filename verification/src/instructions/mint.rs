//! Minting one whole collection token of the issuer's bound asset to the
//! acting authority.

use vstd::prelude::*;
use crate::authority_set::sorted_pubkeys;
use crate::errors::TokenGatorMinterError;
use crate::instructions::remove::spec_token_extensions_program_id;
use crate::pubkey::Pubkey;
use crate::state::minter::Minter;

verus! {

/// Ten to the `n`th power.
pub open spec fn spec_pow10(n: nat) -> nat
    decreases n,
{
    if n == 0 {
        1
    } else {
        10 * spec_pow10((n - 1) as nat)
    }
}

/// Ten to any power is at least one.
proof fn lemma_pow10_pos(n: nat)
    ensures
        spec_pow10(n) >= 1,
    decreases n,
{
    if n > 0 {
        lemma_pow10_pos((n - 1) as nat);
    }
}

/// Powers of ten grow with the exponent.
proof fn lemma_pow10_le(a: nat, b: nat)
    requires
        a <= b,
    ensures
        spec_pow10(a) <= spec_pow10(b),
    decreases b,
{
    if a < b {
        lemma_pow10_le(a, (b - 1) as nat);
        lemma_pow10_pos((b - 1) as nat);
    }
}

/// One whole token in base units: `10^decimals`.
pub fn pow10_u64(n: u8) -> (r: u64)
    requires
        n <= 19,
    ensures
        r == spec_pow10(n as nat),
{
    proof {
        reveal_with_fuel(spec_pow10, 21);
        assert(spec_pow10(18nat) == 1_000_000_000_000_000_000);
    }
    let mut i: u8 = 0;
    let mut product: u64 = 1;
    while i < n
        invariant
            i <= n <= 19,
            product == spec_pow10(i as nat),
            spec_pow10(18nat) == 1_000_000_000_000_000_000,
        decreases n - i,
    {
        proof {
            lemma_pow10_le(i as nat, 18nat);
        }
        product = product * 10;
        i = i + 1;
    }
    product
}

/// What the environment must mint: one whole token to the authority's
/// token account, under the issuer's signature.
#[derive(Clone, Copy, Debug, PartialEq, Eq, Structural)]
pub struct CollectionMintPlan {
    pub to: Pubkey,
    pub amount: u64,
}

/// The outcome `mint` must return, checked in this order: the issuer's
/// designated fee payer, the acting authority, the bound asset, and the
/// token program.
pub open spec fn spec_mint_collection_outcome(
    minter: Minter,
    mint_key: Pubkey,
    authority: Pubkey,
    fee_payer: Pubkey,
    token_program: Pubkey,
) -> Result<(), TokenGatorMinterError> {
    if minter.fee_payer != fee_payer {
        Err(TokenGatorMinterError::UnAuthorized)
    } else if !minter.authorities@.contains(authority) {
        Err(TokenGatorMinterError::UnAuthorized)
    } else if minter.minter_config.mint != mint_key {
        Err(TokenGatorMinterError::InvalidMint)
    } else if token_program != spec_token_extensions_program_id() {
        Err(TokenGatorMinterError::InvalidTokenProgram)
    } else {
        Ok(())
    }
}

/// Mints one whole collection token — `10^decimals` base units — of the
/// bound asset to the authority's token account.
pub fn mint(
    minter: &Minter,
    mint_key: &Pubkey,
    mint_decimals: u8,
    authority: &Pubkey,
    authority_token_account: &Pubkey,
    fee_payer: &Pubkey,
    token_program: &Pubkey,
) -> (r: Result<CollectionMintPlan, TokenGatorMinterError>)
    requires
        sorted_pubkeys(minter.authorities@),
        mint_decimals <= 19,
    ensures
        match r {
            Ok(plan) => {
                &&& spec_mint_collection_outcome(
                    *minter,
                    *mint_key,
                    *authority,
                    *fee_payer,
                    *token_program,
                ) is Ok
                &&& plan.to == *authority_token_account
                &&& plan.amount == spec_pow10(mint_decimals as nat)
            },
            Err(e) => Err::<(), _>(e) == spec_mint_collection_outcome(
                *minter,
                *mint_key,
                *authority,
                *fee_payer,
                *token_program,
            ),
        },
        r is Ok <==> spec_mint_collection_outcome(
            *minter,
            *mint_key,
            *authority,
            *fee_payer,
            *token_program,
        ) is Ok,
{
    if minter.fee_payer != *fee_payer {
        return Err(TokenGatorMinterError::UnAuthorized);
    }
    if !minter.check_for_authority(authority) {
        return Err(TokenGatorMinterError::UnAuthorized);
    }
    if minter.minter_config.mint != *mint_key {
        return Err(TokenGatorMinterError::InvalidMint);
    }
    let token_extensions = Pubkey::new(
        0x06ddf6e1ee758fde,
        0x18425dbce46ccdda,
        0xb61afc4d83b90d27,
        0xfebdf928d8a18bfc,
    );
    if *token_program != token_extensions {
        return Err(TokenGatorMinterError::InvalidTokenProgram);
    }

    let amount_with_decimals = pow10_u64(mint_decimals);
    Ok(CollectionMintPlan { to: *authority_token_account, amount: amount_with_decimals })
}

} // verus!
