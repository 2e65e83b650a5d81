//! Updating a member's display metadata.
//!
//! The registry has no in-place update, so a field changes by removing the
//! old value and attaching the new one, in that order, under the issuer's
//! signing authority.

use vstd::prelude::*;
use crate::errors::TokenGatorMinterError;
use crate::pubkey::Pubkey;
use crate::state::group_extensions::{Group, GroupMember};
use crate::state::minter::Minter;

verus! {

/// Arguments for the reserved member-metadata update.
#[derive(Clone, Debug)]
pub struct UpdateMemberMetadataArgs {
    pub label: String,
    pub start_date: Option<i64>,
    pub end_date: Option<i64>,
}

/// Arguments for updating one metadata field of a member.
#[derive(Clone, Debug)]
pub struct UpdateMemberMetadataWNSArgs {
    pub field: String,
    pub new_value: String,
}

/// The two metadata operations the environment performs in order: remove
/// the field with an empty value, attach the field with the new value.
#[derive(Clone, Debug)]
pub struct MetadataUpdatePlan {
    pub remove_field: String,
    pub remove_value: String,
    pub add_field: String,
    pub add_value: String,
}

/// Reserved transition: accepts every request and changes nothing until
/// member extensions land.
pub fn update(args: UpdateMemberMetadataArgs) -> (r: Result<(), TokenGatorMinterError>)
    ensures
        r is Ok,
{
    Ok(())
}

/// The outcome `update_member_metadata_wns` must return, checked in this
/// order: the issuer's designated fee payer, the issuer's group linkage,
/// the group's update authority, and the member's group and asset linkage.
pub open spec fn spec_update_wns_outcome(
    minter: Minter,
    minter_key: Pubkey,
    group: Group,
    group_key: Pubkey,
    member: GroupMember,
    mint_key: Pubkey,
    fee_payer: Pubkey,
) -> Result<(), TokenGatorMinterError> {
    if minter.fee_payer != fee_payer {
        Err(TokenGatorMinterError::InvalidFeePayer)
    } else if minter.group != group_key {
        Err(TokenGatorMinterError::InvalidWNSGroup)
    } else if group.update_authority != minter_key {
        Err(TokenGatorMinterError::UnAuthorized)
    } else if member.group != group_key {
        Err(TokenGatorMinterError::InvalidWNSGroup)
    } else if member.mint != mint_key {
        Err(TokenGatorMinterError::InvalidWNSMember)
    } else {
        Ok(())
    }
}

/// Replaces one metadata field on a member's asset: the old value is
/// removed (with an empty value) and the new one attached.
pub fn update_member_metadata_wns(
    minter: &Minter,
    minter_key: &Pubkey,
    group: &Group,
    group_key: &Pubkey,
    member: &GroupMember,
    mint_key: &Pubkey,
    fee_payer: &Pubkey,
    args: UpdateMemberMetadataWNSArgs,
) -> (r: Result<MetadataUpdatePlan, TokenGatorMinterError>)
    ensures
        match r {
            Ok(plan) => {
                &&& spec_update_wns_outcome(
                    *minter,
                    *minter_key,
                    *group,
                    *group_key,
                    *member,
                    *mint_key,
                    *fee_payer,
                ) is Ok
                &&& plan.remove_field@ == args.field@
                &&& plan.remove_value@ == Seq::<char>::empty()
                &&& plan.add_field@ == args.field@
                &&& plan.add_value@ == args.new_value@
            },
            Err(e) => Err::<(), _>(e) == spec_update_wns_outcome(
                *minter,
                *minter_key,
                *group,
                *group_key,
                *member,
                *mint_key,
                *fee_payer,
            ),
        },
        r is Ok <==> spec_update_wns_outcome(
            *minter,
            *minter_key,
            *group,
            *group_key,
            *member,
            *mint_key,
            *fee_payer,
        ) is Ok,
{
    if minter.fee_payer != *fee_payer {
        return Err(TokenGatorMinterError::InvalidFeePayer);
    }
    if minter.group != *group_key {
        return Err(TokenGatorMinterError::InvalidWNSGroup);
    }
    if group.update_authority != *minter_key {
        return Err(TokenGatorMinterError::UnAuthorized);
    }
    if member.group != *group_key {
        return Err(TokenGatorMinterError::InvalidWNSGroup);
    }
    if member.mint != *mint_key {
        return Err(TokenGatorMinterError::InvalidWNSMember);
    }

    let remove_field = args.field.clone();
    Ok(
        MetadataUpdatePlan {
            remove_field,
            remove_value: String::new(),
            add_field: args.field,
            add_value: args.new_value,
        },
    )
}

} // verus!
