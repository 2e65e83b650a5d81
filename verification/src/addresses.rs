//! Deterministic address derivation.
//!
//! Every record's identity and every expected-account check recomputes a
//! derived address from explicit seeds and compares for equality. The
//! derivation itself is done by the runtime crate behind one trusted
//! wrapper; everything around it is verified against the derivation's
//! name, `derive_of`.

use vstd::prelude::*;
use vstd::string::StrSliceExecFns;
use vstd::utf8::encode_utf8;
use crate::errors::TokenGatorMinterError;
use crate::pubkey::Pubkey;

verus! {

/// What address derivation returns for given seeds and program id: a
/// function of its arguments alone.
pub uninterp spec fn derive_of(seeds: Seq<Seq<u8>>, program_id: Pubkey) -> Option<(Pubkey, u8)>;

/// Relies on `Pubkey::try_find_program_address` of the runtime crate: the
/// derived address and bump are deterministic in the seeds and program id,
/// and the call returns `None` when no bump seed yields a valid address.
#[verifier::external_body]
fn derive_address(seeds: &Vec<Vec<u8>>, program_id: &Pubkey) -> (r: Option<(Pubkey, u8)>)
    ensures
        r == derive_of(seeds.deep_view(), *program_id),
{
    let refs: Vec<&[u8]> = seeds.iter().map(|s| s.as_slice()).collect();
    let pid_bytes: [u8; 32] = program_id.to_bytes().try_into().unwrap();
    let pid = anchor_lang::prelude::Pubkey::new_from_array(pid_bytes);
    let (pk, bump) = anchor_lang::prelude::Pubkey::try_find_program_address(&refs, &pid)?;
    let o = pk.to_bytes();
    let w = |i: usize| u64::from_be_bytes(o[i..i + 8].try_into().unwrap());
    Some((Pubkey { w0: w(0), w1: w(8), w2: w(16), w3: w(24) }, bump))
}

/// The derived address alone, without its bump.
pub open spec fn spec_derived_address(seeds: Seq<Seq<u8>>, program_id: Pubkey) -> Option<
    Pubkey,
> {
    match derive_of(seeds, program_id) {
        Some((pk, bump)) => Some(pk),
        None => None,
    }
}

/// The seeds that identify a community: the program's namespace tag and
/// the community name.
pub open spec fn community_seeds(community: Seq<char>) -> Seq<Seq<u8>> {
    seq![encode_utf8("tokengator_minter"@), encode_utf8(community)]
}

/// The community's derived identity under this program, or `None` in the
/// (statistically impossible) case that no address can be derived.
pub fn fetch_community_id(community: &str, program_id: &Pubkey) -> (r: Option<Pubkey>)
    ensures
        r == spec_derived_address(community_seeds(community@), *program_id),
{
    let mut seeds: Vec<Vec<u8>> = Vec::new();
    seeds.push("tokengator_minter".as_bytes_vec());
    seeds.push(community.as_bytes_vec());
    proof {
        assert(seeds.deep_view() =~~= community_seeds(community@));
    }
    match derive_address(&seeds, program_id) {
        Some((pk, _)) => Some(pk),
        None => None,
    }
}

/// The seeds of a collection group account in the external registry.
pub open spec fn wns_group_seeds(mint: Pubkey) -> Seq<Seq<u8>> {
    seq![encode_utf8("group"@), mint.spec_bytes()]
}

/// The seeds of the external registry's manager account.
pub open spec fn wns_manager_seeds() -> Seq<Seq<u8>> {
    seq![encode_utf8("manager"@)]
}

/// The seeds of a member account in the external registry.
pub open spec fn wns_member_seeds(mint: Pubkey) -> Seq<Seq<u8>> {
    seq![encode_utf8("member"@), mint.spec_bytes()]
}

/// The given key equals the address derived from the seeds.
pub open spec fn spec_key_matches(
    seeds: Seq<Seq<u8>>,
    program_id: Pubkey,
    key: Pubkey,
) -> bool {
    spec_derived_address(seeds, program_id) == Some(key)
}

/// The outcome `check_for_wns_accounts` must return.
pub open spec fn spec_wns_accounts_check(
    wns_program: Pubkey,
    mint_key: Pubkey,
    group_key: Pubkey,
    manager_key: Pubkey,
    member_mint_key: Option<Pubkey>,
    member_key: Option<Pubkey>,
) -> Result<(), TokenGatorMinterError> {
    if !spec_key_matches(wns_group_seeds(mint_key), wns_program, group_key) {
        Err(TokenGatorMinterError::InvalidWNSGroup)
    } else if !spec_key_matches(wns_manager_seeds(), wns_program, manager_key) {
        Err(TokenGatorMinterError::InvalidWNSManager)
    } else {
        match member_key {
            Some(member) => {
                if !spec_key_matches(
                    wns_member_seeds(member_mint_key.unwrap()),
                    wns_program,
                    member,
                ) {
                    Err(TokenGatorMinterError::InvalidWNSManager)
                } else {
                    Ok(())
                }
            },
            None => Ok(()),
        }
    }
}

/// Checks that the given group, manager and (optionally) member accounts
/// are the ones the external registry derives for this asset.
pub fn check_for_wns_accounts(
    wns_program: &Pubkey,
    mint_key: &Pubkey,
    group_key: &Pubkey,
    manager_key: &Pubkey,
    member_mint_key: &Option<Pubkey>,
    member_key: &Option<Pubkey>,
) -> (r: Result<(), TokenGatorMinterError>)
    requires
        member_key is Some ==> member_mint_key is Some,
    ensures
        r == spec_wns_accounts_check(
            *wns_program,
            *mint_key,
            *group_key,
            *manager_key,
            *member_mint_key,
            *member_key,
        ),
{
    let mut group_seeds: Vec<Vec<u8>> = Vec::new();
    group_seeds.push("group".as_bytes_vec());
    group_seeds.push(mint_key.to_bytes());
    proof {
        assert(group_seeds.deep_view() =~~= wns_group_seeds(*mint_key));
    }
    let group_matches = match derive_address(&group_seeds, wns_program) {
        Some((pk, _)) => pk == *group_key,
        None => false,
    };
    if !group_matches {
        return Err(TokenGatorMinterError::InvalidWNSGroup);
    }

    let mut manager_seeds: Vec<Vec<u8>> = Vec::new();
    manager_seeds.push("manager".as_bytes_vec());
    proof {
        assert(manager_seeds.deep_view() =~~= wns_manager_seeds());
    }
    let manager_matches = match derive_address(&manager_seeds, wns_program) {
        Some((pk, _)) => pk == *manager_key,
        None => false,
    };
    if !manager_matches {
        return Err(TokenGatorMinterError::InvalidWNSManager);
    }

    if let Some(member) = member_key {
        let member_mint = member_mint_key.as_ref().unwrap();
        let mut member_seeds: Vec<Vec<u8>> = Vec::new();
        member_seeds.push("member".as_bytes_vec());
        member_seeds.push(member_mint.to_bytes());
        proof {
            assert(member_seeds.deep_view() =~~= wns_member_seeds(*member_mint));
        }
        let member_matches = match derive_address(&member_seeds, wns_program) {
            Some((pk, _)) => pk == *member,
            None => false,
        };
        if !member_matches {
            return Err(TokenGatorMinterError::InvalidWNSManager);
        }
    }

    Ok(())
}

/// The program id of the associated-token registry, whose derivation
/// defines where a wallet's token holdings for an asset live.
pub open spec fn spec_ata_program_id() -> Pubkey {
    Pubkey {
        w0: 0x8c97258f4e2489f1,
        w1: 0xbb3d1029148e0d83,
        w2: 0x0b5a1399daff1084,
        w3: 0x048e7bd8dbe9f859,
    }
}

/// The seeds of a wallet's associated token account for an asset under a
/// token program.
pub open spec fn ata_seeds(wallet: Pubkey, mint: Pubkey, token_program: Pubkey) -> Seq<
    Seq<u8>,
> {
    seq![wallet.spec_bytes(), token_program.spec_bytes(), mint.spec_bytes()]
}

/// The expected associated token account of `wallet` for `mint` under
/// `token_program`, or `None` in the (statistically impossible) case that
/// no address can be derived.
pub fn associated_token_address(wallet: &Pubkey, mint: &Pubkey, token_program: &Pubkey) -> (r:
    Option<Pubkey>)
    ensures
        r == spec_derived_address(
            ata_seeds(*wallet, *mint, *token_program),
            spec_ata_program_id(),
        ),
{
    let ata_program = Pubkey::new(
        0x8c97258f4e2489f1,
        0xbb3d1029148e0d83,
        0x0b5a1399daff1084,
        0x048e7bd8dbe9f859,
    );
    let mut seeds: Vec<Vec<u8>> = Vec::new();
    seeds.push(wallet.to_bytes());
    seeds.push(token_program.to_bytes());
    seeds.push(mint.to_bytes());
    proof {
        assert(seeds.deep_view() =~~= ata_seeds(*wallet, *mint, *token_program));
        assert(ata_program == spec_ata_program_id());
    }
    match derive_address(&seeds, &ata_program) {
        Some((pk, _)) => Some(pk),
        None => None,
    }
}

} // verus!
