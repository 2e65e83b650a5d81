//! Delegating and revoking issuer authorities.
//!
//! Only a caller already in the authority set may add or remove one, the
//! fee payer must be the issuer's designated payer and must differ from
//! the acting authority, and the set can never be emptied. Adding grows
//! the record's storage through the reallocation protocol; removing never
//! shrinks it.

use vstd::prelude::*;
use crate::authority_set::{
    binary_search_pubkeys, lemma_sorted_insert, lemma_sorted_remove, sorted_pubkeys,
};
use crate::constants::MAX_VECTOR_SIZE;
use crate::errors::TokenGatorMinterError;
use crate::pubkey::Pubkey;
use crate::realloc::{realloc_account, spec_top_up, AccountStorage};
use crate::state::minter::Minter;
use crate::state::minter_config::spec_metadata_view;

verus! {

/// Arguments for delegating to a new authority.
#[derive(Clone, Copy, Debug)]
pub struct AddPresetAuthorityArgs {
    pub new_authority: Pubkey,
}

/// Arguments for revoking an authority.
#[derive(Clone, Copy, Debug)]
pub struct RemovePresetAuthorityArgs {
    pub authority_to_remove: Pubkey,
}

/// The two records agree on everything but the authority list.
pub open spec fn same_but_authorities(a: Minter, b: Minter) -> bool {
    &&& a.bump == b.bump
    &&& a.community_id == b.community_id
    &&& a.group == b.group
    &&& a.name@ == b.name@
    &&& a.description@ == b.description@
    &&& a.image_url@ == b.image_url@
    &&& a.fee_payer == b.fee_payer
    &&& a.payment_config == b.payment_config
    &&& a.minter_config == b.minter_config
}

/// The caller is gated: the fee payer is the issuer's designated payer,
/// the acting authority is already delegated, and the fee payer is not
/// sponsoring itself.
pub open spec fn spec_gate_error(minter: Minter, authority: Pubkey, fee_payer: Pubkey) -> Option<
    TokenGatorMinterError,
> {
    if minter.fee_payer != fee_payer {
        Some(TokenGatorMinterError::UnAuthorized)
    } else if !minter.authorities@.contains(authority) {
        Some(TokenGatorMinterError::UnAuthorized)
    } else if fee_payer == authority {
        Some(TokenGatorMinterError::InvalidFeePayer)
    } else {
        None
    }
}

/// The byte size of `minter`'s record with `n` authorities.
pub open spec fn spec_minter_size_with(minter: Minter, n: int) -> int {
    Minter::spec_size(
        n,
        minter.minter_config.application_config.identities@,
        spec_metadata_view(&minter.minter_config.metadata_config.metadata),
    )
}

/// The outcome `add_authority` must return, checked in this order: the
/// caller gate, the duplicate check, the storage owner, the reserve funds
/// for the grown record, and the authority-count ceiling.
pub open spec fn spec_add_authority_outcome(
    minter: Minter,
    storage: AccountStorage,
    payer_lamports: u64,
    authority: Pubkey,
    fee_payer: Pubkey,
    new_authority: Pubkey,
    rent_exempt_minimum: u64,
    program_id: Pubkey,
) -> Result<(), TokenGatorMinterError> {
    let new_size = spec_minter_size_with(minter, minter.authorities@.len() as int + 1);
    if spec_gate_error(minter, authority, fee_payer) is Some {
        Err(spec_gate_error(minter, authority, fee_payer).unwrap())
    } else if minter.authorities@.contains(new_authority) {
        Err(TokenGatorMinterError::AuthorityAlreadyExists)
    } else if storage.owner != program_id {
        Err(TokenGatorMinterError::InvalidAccountOwner)
    } else if storage.data_len < new_size && payer_lamports < spec_top_up(
        storage.lamports,
        rent_exempt_minimum,
    ) {
        Err(TokenGatorMinterError::InsufficientFunds)
    } else if minter.authorities@.len() as int + 1 > MAX_VECTOR_SIZE as int {
        Err(TokenGatorMinterError::MaxSizeReached)
    } else {
        Ok(())
    }
}

/// A copy of the authority list.
fn copy_pubkeys(v: &Vec<Pubkey>) -> (r: Vec<Pubkey>)
    ensures
        r@ == v@,
{
    let mut out: Vec<Pubkey> = Vec::new();
    let mut i: usize = 0;
    while i < v.len()
        invariant
            i <= v@.len(),
            out@ == v@.subrange(0, i as int),
        decreases v@.len() - i,
    {
        out.push(v[i]);
        proof {
            assert(out@ =~= v@.subrange(0, i + 1));
        }
        i = i + 1;
    }
    proof {
        assert(out@ =~= v@);
    }
    out
}

/// Delegates to a new authority: inserts it at its sorted position, grows
/// the record's storage to the new size, and re-validates.
///
/// The whole transition is atomic: on any failure nothing has changed.
pub fn add_authority(
    minter: &mut Minter,
    storage: &mut AccountStorage,
    rent_payer_lamports: &mut u64,
    authority: &Pubkey,
    fee_payer: &Pubkey,
    rent_exempt_minimum: u64,
    program_id: &Pubkey,
    args: AddPresetAuthorityArgs,
) -> (r: Result<(), TokenGatorMinterError>)
    requires
        old(minter).wf(),
        old(minter).bounded_lists(),
    ensures
        r == spec_add_authority_outcome(
            *old(minter),
            *old(storage),
            *old(rent_payer_lamports),
            *authority,
            *fee_payer,
            args.new_authority,
            rent_exempt_minimum,
            *program_id,
        ),
        r is Err ==> *final(minter) == *old(minter) && *final(storage) == *old(storage)
            && *final(rent_payer_lamports) == *old(rent_payer_lamports),
        r is Ok ==> {
            &&& final(minter).wf()
            &&& final(minter).bounded_lists()
            &&& same_but_authorities(*final(minter), *old(minter))
            &&& final(minter).authorities@.len() == old(minter).authorities@.len() + 1
            &&& final(minter).authorities@.contains(args.new_authority)
            &&& sorted_pubkeys(final(minter).authorities@)
            &&& forall|p: Pubkey| old(minter).authorities@.contains(p)
                ==> final(minter).authorities@.contains(p)
            &&& forall|p: Pubkey| final(minter).authorities@.contains(p) ==> (p
                == args.new_authority || old(minter).authorities@.contains(p))
            &&& exists|i: int| 0 <= i <= old(minter).authorities@.len()
                && final(minter).authorities@ == old(minter).authorities@.insert(
                    i,
                    args.new_authority,
                )
            &&& final(storage).owner == old(storage).owner
            &&& final(storage).data_len >= old(storage).data_len
            &&& final(storage).data_len >= spec_minter_size_with(
                *old(minter),
                old(minter).authorities@.len() as int + 1,
            )
            &&& *final(rent_payer_lamports) <= *old(rent_payer_lamports)
        },
{
    // Caller gate.
    if minter.fee_payer != *fee_payer {
        return Err(TokenGatorMinterError::UnAuthorized);
    }
    if !minter.check_for_authority(authority) {
        return Err(TokenGatorMinterError::UnAuthorized);
    }
    if *fee_payer == *authority {
        return Err(TokenGatorMinterError::InvalidFeePayer);
    }

    // Insert position; the new authority must not already be delegated.
    let new_authority_index = match binary_search_pubkeys(&minter.authorities, &args.new_authority) {
        Ok(_) => {
            return Err(TokenGatorMinterError::AuthorityAlreadyExists);
        },
        Err(i) => i,
    };

    let mut new_authorities = copy_pubkeys(&minter.authorities);
    new_authorities.insert(new_authority_index, args.new_authority);
    proof {
        lemma_sorted_insert(
            old(minter).authorities@,
            new_authority_index as int,
            args.new_authority,
        );
    }

    // The grown size, computed by the same formula as at creation time.
    let new_preset_size = Minter::size(
        new_authorities.as_slice(),
        &minter.minter_config.application_config,
        &minter.minter_config.metadata_config,
    );

    // The reallocation protocol's failure conditions, checked before
    // anything is mutated so that failure changes nothing.
    if storage.owner != *program_id {
        return Err(TokenGatorMinterError::InvalidAccountOwner);
    }
    if storage.data_len < new_preset_size {
        let current_lamports = storage.lamports;
        let needed = if rent_exempt_minimum > current_lamports {
            rent_exempt_minimum - current_lamports
        } else {
            0
        };
        if *rent_payer_lamports < needed {
            return Err(TokenGatorMinterError::InsufficientFunds);
        }
    }

    // The only validation check that a grown set can newly fail.
    if new_authorities.len() > MAX_VECTOR_SIZE as usize {
        return Err(TokenGatorMinterError::MaxSizeReached);
    }

    // Commit: swap in the grown set, then grow the storage.
    minter.authorities = new_authorities;
    match realloc_account(
        storage,
        new_preset_size,
        rent_payer_lamports,
        rent_exempt_minimum,
        program_id,
    ) {
        Ok(()) => {},
        Err(e) => {
            proof {
                assert(false);
            }
            return Err(e);
        },
    }

    // Re-run the validation, as every mutate-then-persist path must.
    match minter.validate() {
        Ok(()) => {},
        Err(e) => {
            proof {
                assert(false);
            }
            return Err(e);
        },
    }

    proof {
        let s = old(minter).authorities@;
        let t = minter.authorities@;
        let i = new_authority_index as int;
        assert(t == s.insert(i, args.new_authority));
        assert forall|p: Pubkey| s.contains(p) implies t.contains(p) by {
            let k = choose|k: int| 0 <= k < s.len() && s[k] == p;
            if k < i {
                assert(t[k] == p);
            } else {
                assert(t[k + 1] == p);
            }
        }
        assert forall|p: Pubkey| t.contains(p) implies (p == args.new_authority || s.contains(
            p,
        )) by {
            let k = choose|k: int| 0 <= k < t.len() && t[k] == p;
            if k < i {
                assert(s[k] == p);
            } else if k > i {
                assert(s[k - 1] == p);
            }
        }
    }

    Ok(())
}

/// The outcome `remove_authority` must return, checked in this order: the
/// caller gate, the last-authority guard, and membership of the authority
/// to remove.
pub open spec fn spec_remove_authority_outcome(
    minter: Minter,
    authority: Pubkey,
    fee_payer: Pubkey,
    authority_to_remove: Pubkey,
) -> Result<(), TokenGatorMinterError> {
    if spec_gate_error(minter, authority, fee_payer) is Some {
        Err(spec_gate_error(minter, authority, fee_payer).unwrap())
    } else if minter.authorities@.len() <= 1 {
        Err(TokenGatorMinterError::CannotRemoveSoloAuthority)
    } else if !minter.authorities@.contains(authority_to_remove) {
        Err(TokenGatorMinterError::AuthorityNonExistant)
    } else {
        Ok(())
    }
}

/// Revokes an authority. The set must keep at least one member, so
/// removing the last one fails and changes nothing; storage is never
/// shrunk.
pub fn remove_authority(
    minter: &mut Minter,
    authority: &Pubkey,
    fee_payer: &Pubkey,
    args: RemovePresetAuthorityArgs,
) -> (r: Result<(), TokenGatorMinterError>)
    requires
        old(minter).wf(),
    ensures
        r == spec_remove_authority_outcome(
            *old(minter),
            *authority,
            *fee_payer,
            args.authority_to_remove,
        ),
        r is Err ==> *final(minter) == *old(minter),
        r is Ok ==> {
            &&& final(minter).wf()
            &&& same_but_authorities(*final(minter), *old(minter))
            &&& final(minter).authorities@.len() == old(minter).authorities@.len() - 1
            &&& !final(minter).authorities@.contains(args.authority_to_remove)
            &&& sorted_pubkeys(final(minter).authorities@)
            &&& forall|p: Pubkey| final(minter).authorities@.contains(p)
                ==> old(minter).authorities@.contains(p)
            &&& forall|p: Pubkey| old(minter).authorities@.contains(p) && p
                != args.authority_to_remove ==> final(minter).authorities@.contains(p)
            &&& exists|i: int| 0 <= i < old(minter).authorities@.len()
                && old(minter).authorities@[i] == args.authority_to_remove
                && final(minter).authorities@ == old(minter).authorities@.remove(i)
        },
{
    // Caller gate.
    if minter.fee_payer != *fee_payer {
        return Err(TokenGatorMinterError::UnAuthorized);
    }
    if !minter.check_for_authority(authority) {
        return Err(TokenGatorMinterError::UnAuthorized);
    }
    if *fee_payer == *authority {
        return Err(TokenGatorMinterError::InvalidFeePayer);
    }

    // Never empty the set.
    if !(minter.authorities.len() > 1) {
        return Err(TokenGatorMinterError::CannotRemoveSoloAuthority);
    }

    let authority_to_remove_index = match binary_search_pubkeys(
        &minter.authorities,
        &args.authority_to_remove,
    ) {
        Ok(i) => i,
        Err(_) => {
            return Err(TokenGatorMinterError::AuthorityNonExistant);
        },
    };

    proof {
        lemma_sorted_remove(old(minter).authorities@, authority_to_remove_index as int);
        assert(old(minter).authorities@[authority_to_remove_index as int]
            == args.authority_to_remove);
    }
    minter.authorities.remove(authority_to_remove_index);
    proof {
        assert forall|p: Pubkey|
            old(minter).authorities@.contains(p) && p != args.authority_to_remove implies
            minter.authorities@.contains(p) by {
            let k = choose|k: int| 0 <= k < old(minter).authorities@.len() && old(
                minter,
            ).authorities@[k] == p;
            if k < authority_to_remove_index as int {
                assert(minter.authorities@[k] == p);
            } else {
                assert(minter.authorities@[k - 1] == p);
            }
        }
        assert forall|p: Pubkey| minter.authorities@.contains(p) implies old(
            minter,
        ).authorities@.contains(p) by {
            let k = choose|k: int| 0 <= k < minter.authorities@.len() && minter.authorities@[k]
                == p;
            if k < authority_to_remove_index as int {
                assert(old(minter).authorities@[k] == p);
            } else {
                assert(old(minter).authorities@[k + 1] == p);
            }
        }
    }

    match minter.validate() {
        Ok(()) => {},
        Err(e) => {
            proof {
                assert(false);
            }
            return Err(e);
        },
    }

    Ok(())
}

} // verus!
