//! The collection group record kept beside an issuer until the external
//! registry's own group accounts take over.

use vstd::prelude::*;
use crate::pubkey::Pubkey;

verus! {

/// A collection group: who may update it, which asset anchors it, and how
/// full it is.
#[derive(Clone, Copy, Debug, PartialEq, Eq, Structural)]
pub struct Group {
    pub update_authority: Pubkey,
    pub mint: Pubkey,
    pub size: u32,
    pub max_size: u32,
}

impl Group {
    /// Serialized size: marker (8), two addresses, size (4), max size (4).
    pub open spec fn spec_size() -> int {
        (8 + 32 + 32 + 4 + 4) as int
    }

    pub fn size() -> (r: usize)
        ensures
            r == Group::spec_size(),
    {
        8 + 32 + 32 + 4 + 4
    }
}

/// A member record of the external registry: which group it belongs to and
/// which asset it stands for.
#[derive(Clone, Copy, Debug, PartialEq, Eq, Structural)]
pub struct GroupMember {
    pub group: Pubkey,
    pub mint: Pubkey,
}

} // verus!
