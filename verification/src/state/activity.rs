//! The append-only activity ledger bound to an issuer and a membership.

use vstd::prelude::*;
use crate::constants::{
    MAX_ENTRY_MESSAGE_SIZE, MAX_ENTRY_URL_SIZE, MAX_LABEL_SIZE,
};
use crate::errors::TokenGatorMinterError;
use crate::pubkey::Pubkey;

verus! {

/// One timestamped ledger entry.
#[derive(Clone, Debug)]
pub struct Entry {
    pub timestamp: i64,
    pub message: String,
    pub url: Option<String>,
    pub points: u64,
}

impl Entry {
    /// Serialized size: timestamp (8), message at its ceiling, option tag
    /// plus URL at its ceiling, points (8).
    pub open spec fn spec_size() -> int {
        8 + MAX_ENTRY_MESSAGE_SIZE + 1 + MAX_ENTRY_URL_SIZE + 8
    }

    pub fn size() -> (r: usize)
        ensures
            r == Entry::spec_size(),
    {
        8 + MAX_ENTRY_MESSAGE_SIZE + 1 + MAX_ENTRY_URL_SIZE + 8
    }

    /// Validation hook; currently accepts every entry.
    pub fn validate(&self) -> (r: Result<(), TokenGatorMinterError>)
        ensures
            r is Ok,
    {
        Ok(())
    }
}

/// An append-only list of entries keyed by (bound asset, label). The
/// identity fields never change; only the entry list grows.
#[derive(Clone, Debug)]
pub struct Activity {
    pub bump: u8,
    pub label: String,
    pub start_date: i64,
    pub end_date: i64,
    pub fee_payer: Pubkey,
    pub minter: Pubkey,
    pub member: Pubkey,
    pub mint: Pubkey,
    pub entries: Vec<Entry>,
}

impl Activity {
    /// Serialized size of a ledger with `n_entries` entries: fixed fields
    /// and the label ceiling, plus `4 + n * 317` for the list, one entry
    /// taking `Entry::spec_size() == 317` bytes.
    pub open spec fn spec_size(n_entries: int) -> int {
        8 + 1 + MAX_LABEL_SIZE + 8 + 8 + 32 + 32 + 32 + 32 + 4 + n_entries * 317
    }

    /// The byte size to allocate or grow to; recomputed on every append.
    pub fn size(entries: &[Entry]) -> (r: usize)
        requires
            entries@.len() <= 0x0080_0000,
        ensures
            r == Activity::spec_size(entries@.len() as int),
    {
        proof {
            assert(Entry::spec_size() == 317);
        }
        // One entry takes Entry::spec_size() == 317 bytes.
        8 + 1 + MAX_LABEL_SIZE + 8 + 8 + 32 + 32 + 32 + 32 + 4 + entries.len() * 317
    }

    /// Runs every entry's validation hook; every hook currently accepts.
    pub fn validate(&self) -> (r: Result<(), TokenGatorMinterError>)
        ensures
            r is Ok,
    {
        let mut i: usize = 0;
        while i < self.entries.len()
            invariant
                i <= self.entries@.len(),
            decreases self.entries@.len() - i,
        {
            match self.entries[i].validate() {
                Ok(()) => {},
                Err(e) => {
                    return Err(e);
                },
            }
            i = i + 1;
        }
        Ok(())
    }
}

/// The ledger's byte size is monotone in its entry count: entries are never
/// removed, so the size to keep alive never goes down.
pub proof fn lemma_activity_size_monotone(n1: int, n2: int)
    requires
        0 <= n1 <= n2,
    ensures
        Activity::spec_size(n1) <= Activity::spec_size(n2),
{
    assert(n1 * Entry::spec_size() <= n2 * Entry::spec_size()) by {
        assert(Entry::spec_size() == 317);
        assert(n1 * 317 <= n2 * 317) by (nonlinear_arith)
            requires 0 <= n1 <= n2;
    }
}

} // verus!
