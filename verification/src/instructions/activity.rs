//! Creating an activity ledger and appending entries to it.
//!
//! A ledger is bound to an issuer and one of its memberships; entries are
//! only ever appended, and each append grows the record's storage through
//! the reallocation protocol.

use vstd::prelude::*;
use crate::errors::TokenGatorMinterError;
use crate::pubkey::Pubkey;
use crate::realloc::{realloc_account, spec_top_up, AccountStorage};
use crate::state::activity::{Activity, Entry};
use crate::state::group_extensions::{Group, GroupMember};
use crate::state::minter::Minter;

verus! {

/// Arguments for creating an activity ledger.
#[derive(Clone, Debug)]
pub struct CreateActivityArgs {
    pub label: String,
    pub start_date: Option<i64>,
    pub end_date: Option<i64>,
}

/// Arguments for appending one ledger entry.
#[derive(Clone, Debug)]
pub struct AppendActivityEntryArgs {
    pub timestamp: Option<i64>,
    pub message: String,
    pub url: Option<String>,
    pub points: Option<u8>,
}

/// The outcome `create` must return, checked in this order: the issuer's
/// designated fee payer, the issuer's group linkage, the group's update
/// authority, and the member's group and asset linkage.
pub open spec fn spec_create_activity_outcome(
    minter: Minter,
    minter_key: Pubkey,
    group: Group,
    group_key: Pubkey,
    member: GroupMember,
    mint_key: Pubkey,
    fee_payer: Pubkey,
) -> Result<(), TokenGatorMinterError> {
    if minter.fee_payer != fee_payer {
        Err(TokenGatorMinterError::InvalidFeePayer)
    } else if minter.group != group_key {
        Err(TokenGatorMinterError::InvalidWNSGroup)
    } else if group.update_authority != minter_key {
        Err(TokenGatorMinterError::UnAuthorized)
    } else if member.group != group_key {
        Err(TokenGatorMinterError::InvalidWNSGroup)
    } else if member.mint != mint_key {
        Err(TokenGatorMinterError::InvalidWNSMember)
    } else {
        Ok(())
    }
}

/// The ledger's start date: the given one, or the clock now.
pub open spec fn spec_activity_start(args_start: Option<i64>, now: i64) -> i64 {
    match args_start {
        Some(s) => s,
        None => now,
    }
}

/// Creates an empty activity ledger bound to the issuer's membership.
///
/// The end date defaults from the start-date argument as well: when a
/// start date is given, it doubles as the end date; only when none is
/// given does the end date fall 30 days after the start.
pub fn create(
    minter: &Minter,
    minter_key: &Pubkey,
    group: &Group,
    group_key: &Pubkey,
    member: &GroupMember,
    mint_key: &Pubkey,
    member_key: &Pubkey,
    fee_payer: &Pubkey,
    bump: u8,
    now: i64,
    args: CreateActivityArgs,
) -> (r: Result<Activity, TokenGatorMinterError>)
    requires
        spec_activity_start(args.start_date, now) + 2592000 <= i64::MAX,
    ensures
        match r {
            Ok(activity) => {
                &&& spec_create_activity_outcome(
                    *minter,
                    *minter_key,
                    *group,
                    *group_key,
                    *member,
                    *mint_key,
                    *fee_payer,
                ) is Ok
                &&& activity.bump == bump
                &&& activity.label@ == args.label@
                &&& activity.start_date == spec_activity_start(args.start_date, now)
                &&& activity.end_date as int == match args.start_date {
                    Some(s) => s as int,
                    None => spec_activity_start(args.start_date, now) + 2592000,
                }
                &&& activity.fee_payer == *fee_payer
                &&& activity.minter == *minter_key
                &&& activity.member == *member_key
                &&& activity.mint == *mint_key
                &&& activity.entries@.len() == 0
            },
            Err(e) => Err::<(), _>(e) == spec_create_activity_outcome(
                *minter,
                *minter_key,
                *group,
                *group_key,
                *member,
                *mint_key,
                *fee_payer,
            ),
        },
        r is Ok <==> spec_create_activity_outcome(
            *minter,
            *minter_key,
            *group,
            *group_key,
            *member,
            *mint_key,
            *fee_payer,
        ) is Ok,
{
    if minter.fee_payer != *fee_payer {
        return Err(TokenGatorMinterError::InvalidFeePayer);
    }
    if minter.group != *group_key {
        return Err(TokenGatorMinterError::InvalidWNSGroup);
    }
    if group.update_authority != *minter_key {
        return Err(TokenGatorMinterError::UnAuthorized);
    }
    if member.group != *group_key {
        return Err(TokenGatorMinterError::InvalidWNSGroup);
    }
    if member.mint != *mint_key {
        return Err(TokenGatorMinterError::InvalidWNSMember);
    }

    let start_date = match args.start_date {
        Some(s) => s,
        None => now,
    };
    let end_date = match args.start_date {
        Some(s) => s,
        None => start_date + 2592000,
    };

    Ok(
        Activity {
            bump,
            label: args.label,
            start_date,
            end_date,
            fee_payer: *fee_payer,
            minter: *minter_key,
            member: *member_key,
            mint: *mint_key,
            entries: Vec::new(),
        },
    )
}

/// The entry `append` writes for these arguments.
pub open spec fn spec_appended_entry(args: AppendActivityEntryArgs, now: i64) -> Entry {
    Entry {
        timestamp: match args.timestamp {
            Some(t) => t,
            None => now,
        },
        message: args.message,
        url: args.url,
        points: match args.points {
            Some(p) => p as u64,
            None => 0,
        },
    }
}

/// The outcome `append` must return, checked in this order: the ledger's
/// designated fee payer, the storage owner, and the reserve funds for the
/// grown record.
pub open spec fn spec_append_outcome(
    activity: Activity,
    storage: AccountStorage,
    payer_lamports: u64,
    fee_payer: Pubkey,
    rent_exempt_minimum: u64,
    program_id: Pubkey,
) -> Result<(), TokenGatorMinterError> {
    let new_size = Activity::spec_size(activity.entries@.len() as int + 1);
    if activity.fee_payer != fee_payer {
        Err(TokenGatorMinterError::InvalidFeePayer)
    } else if storage.owner != program_id {
        Err(TokenGatorMinterError::InvalidAccountOwner)
    } else if storage.data_len < new_size && payer_lamports < spec_top_up(
        storage.lamports,
        rent_exempt_minimum,
    ) {
        Err(TokenGatorMinterError::InsufficientFunds)
    } else {
        Ok(())
    }
}

/// Appends one entry: pushes it, recomputes the ledger's size, and grows
/// the storage. Entries are never removed or reordered.
///
/// The whole transition is atomic: on any failure nothing has changed.
pub fn append(
    activity: &mut Activity,
    storage: &mut AccountStorage,
    rent_payer_lamports: &mut u64,
    fee_payer: &Pubkey,
    rent_exempt_minimum: u64,
    program_id: &Pubkey,
    now: i64,
    args: AppendActivityEntryArgs,
) -> (r: Result<(), TokenGatorMinterError>)
    requires
        old(activity).entries@.len() < 0x0080_0000,
    ensures
        r == spec_append_outcome(
            *old(activity),
            *old(storage),
            *old(rent_payer_lamports),
            *fee_payer,
            rent_exempt_minimum,
            *program_id,
        ),
        r is Err ==> *final(activity) == *old(activity) && *final(storage) == *old(storage)
            && *final(rent_payer_lamports) == *old(rent_payer_lamports),
        r is Ok ==> {
            &&& final(activity).entries@ == old(activity).entries@.push(
                spec_appended_entry(args, now),
            )
            &&& final(activity).bump == old(activity).bump
            &&& final(activity).label@ == old(activity).label@
            &&& final(activity).start_date == old(activity).start_date
            &&& final(activity).end_date == old(activity).end_date
            &&& final(activity).fee_payer == old(activity).fee_payer
            &&& final(activity).minter == old(activity).minter
            &&& final(activity).member == old(activity).member
            &&& final(activity).mint == old(activity).mint
            &&& final(storage).owner == old(storage).owner
            &&& final(storage).data_len >= old(storage).data_len
            &&& final(storage).data_len >= Activity::spec_size(
                old(activity).entries@.len() as int + 1,
            )
            &&& *final(rent_payer_lamports) <= *old(rent_payer_lamports)
        },
{
    if activity.fee_payer != *fee_payer {
        return Err(TokenGatorMinterError::InvalidFeePayer);
    }

    let timestamp = match args.timestamp {
        Some(t) => t,
        None => now,
    };
    let points: u64 = match args.points {
        Some(p) => p as u64,
        None => 0,
    };
    let entry = Entry { timestamp, message: args.message, url: args.url, points };

    // The grown size: the shared size formula, one entry further.
    let new_activity_size = Activity::size(activity.entries.as_slice()) + Entry::size();
    proof {
        let n = activity.entries@.len() as int;
        assert(Entry::spec_size() == 317);
        assert((n + 1) * 317 == n * 317 + 317) by (nonlinear_arith);
        assert(Activity::spec_size(n) + Entry::spec_size() == Activity::spec_size(n + 1));
        assert(new_activity_size == Activity::spec_size(n + 1));
        assert(Activity::spec_size(n) <= Activity::spec_size(0x0080_0000 - 1));
    }

    // The reallocation protocol's failure conditions, checked before
    // anything is mutated so that failure changes nothing.
    if storage.owner != *program_id {
        return Err(TokenGatorMinterError::InvalidAccountOwner);
    }
    if storage.data_len < new_activity_size {
        let current_lamports = storage.lamports;
        let needed = if rent_exempt_minimum > current_lamports {
            rent_exempt_minimum - current_lamports
        } else {
            0
        };
        if *rent_payer_lamports < needed {
            return Err(TokenGatorMinterError::InsufficientFunds);
        }
    }

    // Commit: append the entry, then grow the storage.
    activity.entries.push(entry);
    match realloc_account(
        storage,
        new_activity_size,
        rent_payer_lamports,
        rent_exempt_minimum,
        program_id,
    ) {
        Ok(()) => {},
        Err(e) => {
            proof {
                assert(false);
            }
            return Err(e);
        },
    }

    match activity.validate() {
        Ok(()) => {},
        Err(e) => {
            proof {
                assert(false);
            }
            return Err(e);
        },
    }

    Ok(())
}

} // verus!
