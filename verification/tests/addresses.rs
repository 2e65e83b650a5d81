use tokengator::addresses::{
    associated_token_address, check_for_wns_accounts, fetch_community_id,
};
use tokengator::errors::TokenGatorMinterError;
use tokengator::pubkey::Pubkey;

fn pk(n: u64) -> Pubkey {
    Pubkey::new(0, 0, 0, n)
}

fn lk(p: anchor_lang::prelude::Pubkey) -> Pubkey {
    let b = p.to_bytes();
    let w = |i: usize| u64::from_be_bytes(b[i..i + 8].try_into().unwrap());
    Pubkey::new(w(0), w(8), w(16), w(24))
}

fn ak(p: Pubkey) -> anchor_lang::prelude::Pubkey {
    let mut b = [0u8; 32];
    b[0..8].copy_from_slice(&p.w0.to_be_bytes());
    b[8..16].copy_from_slice(&p.w1.to_be_bytes());
    b[16..24].copy_from_slice(&p.w2.to_be_bytes());
    b[24..32].copy_from_slice(&p.w3.to_be_bytes());
    anchor_lang::prelude::Pubkey::new_from_array(b)
}

#[test]
fn community_id_matches_direct_derivation() {
    let program_id = pk(7777);
    let got = fetch_community_id("climbers", &program_id).unwrap();
    let (expected, _) = anchor_lang::prelude::Pubkey::find_program_address(
        &[b"tokengator_minter", b"climbers"],
        &ak(program_id),
    );
    assert_eq!(got, lk(expected));
    // The derivation actually transformed its inputs.
    assert_ne!(got, program_id);
}

#[test]
fn different_communities_derive_different_identities() {
    let program_id = pk(7777);
    let a = fetch_community_id("climbers", &program_id).unwrap();
    let b = fetch_community_id("swimmers", &program_id).unwrap();
    assert_ne!(a, b);
}

#[test]
fn associated_token_address_matches_registry_derivation() {
    let wallet = pk(1);
    let mint = pk(2);
    let token_program = lk(anchor_spl::token_2022::ID);
    let got = associated_token_address(&wallet, &mint, &token_program).unwrap();
    let expected = anchor_spl::associated_token::get_associated_token_address_with_program_id(
        &ak(wallet),
        &ak(mint),
        &anchor_spl::token_2022::ID,
    );
    assert_eq!(got, lk(expected));
}

#[test]
fn wns_accounts_accept_the_derived_keys() {
    let wns = pk(4242);
    let mint = pk(10);
    let member_mint = pk(11);
    let (group, _) =
        anchor_lang::prelude::Pubkey::find_program_address(&[b"group", &ak(mint).to_bytes()], &ak(wns));
    let (manager, _) =
        anchor_lang::prelude::Pubkey::find_program_address(&[b"manager"], &ak(wns));
    let (member, _) = anchor_lang::prelude::Pubkey::find_program_address(
        &[b"member", &ak(member_mint).to_bytes()],
        &ak(wns),
    );
    let r = check_for_wns_accounts(
        &wns,
        &mint,
        &lk(group),
        &lk(manager),
        &Some(member_mint),
        &Some(lk(member)),
    );
    assert!(r.is_ok());
}

#[test]
fn wns_accounts_reject_a_wrong_group() {
    let wns = pk(4242);
    let mint = pk(10);
    let (manager, _) =
        anchor_lang::prelude::Pubkey::find_program_address(&[b"manager"], &ak(wns));
    let r = check_for_wns_accounts(&wns, &mint, &pk(12345), &lk(manager), &None, &None);
    assert_eq!(r.unwrap_err(), TokenGatorMinterError::InvalidWNSGroup);
}

#[test]
fn wns_accounts_reject_a_wrong_manager() {
    let wns = pk(4242);
    let mint = pk(10);
    let (group, _) =
        anchor_lang::prelude::Pubkey::find_program_address(&[b"group", &ak(mint).to_bytes()], &ak(wns));
    let r = check_for_wns_accounts(&wns, &mint, &lk(group), &pk(12345), &None, &None);
    assert_eq!(r.unwrap_err(), TokenGatorMinterError::InvalidWNSManager);
}
