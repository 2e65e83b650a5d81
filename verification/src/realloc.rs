//! The shared storage-growth protocol: grow a record's backing storage to a
//! newly computed size, topping up its reserve balance first, and never
//! shrink.
//!
//! The reserve floor for the grown size (`rent_exempt_minimum`) is decided
//! by the environment; the caller reads it there and hands it in, and the
//! contract holds for every value of it.

use vstd::prelude::*;
use crate::errors::TokenGatorMinterError;
use crate::pubkey::Pubkey;

verus! {

/// What the environment keeps per record: who owns the storage, how many
/// bytes it spans, and the reserve balance that keeps it alive.
#[derive(Clone, Copy, Debug, PartialEq, Eq, Structural)]
pub struct AccountStorage {
    pub owner: Pubkey,
    pub data_len: usize,
    pub lamports: u64,
}

/// How much must move into the reserve to reach `minimum`.
pub open spec fn spec_top_up(current: u64, minimum: u64) -> int {
    if minimum > current {
        minimum - current
    } else {
        0
    }
}

/// Grows `account`'s storage to `new_account_size`.
///
/// Fails with `InvalidAccountOwner` when the storage is not owned by this
/// program. Succeeds without touching anything when the storage is already
/// large enough — storage never shrinks. Otherwise moves the missing
/// reserve from `rent_payer_lamports` and grows the storage; fails with
/// `InsufficientFunds`, changing nothing, when the payer cannot cover the
/// difference.
pub fn realloc_account(
    account: &mut AccountStorage,
    new_account_size: usize,
    rent_payer_lamports: &mut u64,
    rent_exempt_minimum: u64,
    program_id: &Pubkey,
) -> (r: Result<(), TokenGatorMinterError>)
    ensures
        r is Ok <==> (old(account).owner == *program_id && (old(account).data_len
            >= new_account_size || *old(rent_payer_lamports) >= spec_top_up(
            old(account).lamports,
            rent_exempt_minimum,
        ))),
        match r {
            Ok(()) => {
                &&& final(account).owner == old(account).owner
                &&& final(account).data_len >= old(account).data_len
                &&& final(account).data_len >= new_account_size
                &&& if old(account).data_len >= new_account_size {
                    &&& *final(account) == *old(account)
                    &&& *final(rent_payer_lamports) == *old(rent_payer_lamports)
                } else {
                    &&& final(account).data_len == new_account_size
                    &&& final(account).lamports == if rent_exempt_minimum > old(
                        account,
                    ).lamports {
                        rent_exempt_minimum
                    } else {
                        old(account).lamports
                    }
                    &&& *final(rent_payer_lamports) == *old(rent_payer_lamports) - spec_top_up(
                        old(account).lamports,
                        rent_exempt_minimum,
                    )
                }
            },
            Err(e) => {
                &&& *final(account) == *old(account)
                &&& *final(rent_payer_lamports) == *old(rent_payer_lamports)
                &&& (e == TokenGatorMinterError::InvalidAccountOwner <==> old(account).owner
                    != *program_id)
                &&& (e == TokenGatorMinterError::InvalidAccountOwner || e
                    == TokenGatorMinterError::InsufficientFunds)
            },
        },
{
    if account.owner != *program_id {
        return Err(TokenGatorMinterError::InvalidAccountOwner);
    }

    let current_account_size = account.data_len;
    if current_account_size >= new_account_size {
        return Ok(());
    }

    let current_lamports = account.lamports;
    let lamports_diff = if rent_exempt_minimum > current_lamports {
        rent_exempt_minimum - current_lamports
    } else {
        0
    };
    if lamports_diff > 0 {
        if *rent_payer_lamports < lamports_diff {
            return Err(TokenGatorMinterError::InsufficientFunds);
        }
        *rent_payer_lamports = *rent_payer_lamports - lamports_diff;
        account.lamports = account.lamports + lamports_diff;
    }

    account.data_len = new_account_size;
    Ok(())
}

} // verus!
