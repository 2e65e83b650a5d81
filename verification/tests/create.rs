use tokengator::errors::TokenGatorMinterError;
use tokengator::instructions::create::{create, CreateMinterArgs, MintExtension};
use tokengator::pubkey::Pubkey;
use tokengator::state::minter_config::{
    IdentityProvider, MinterApplicationConfig, MinterInterestConfig, MinterMetadataConfig,
    MinterTransferFeeConfig, PaymentConfig,
};

fn pk(n: u64) -> Pubkey {
    Pubkey::new(0, 0, 0, n)
}

fn lk(p: anchor_lang::prelude::Pubkey) -> Pubkey {
    let b = p.to_bytes();
    let w = |i: usize| u64::from_be_bytes(b[i..i + 8].try_into().unwrap());
    Pubkey::new(w(0), w(8), w(16), w(24))
}

fn ak(p: Pubkey) -> anchor_lang::prelude::Pubkey {
    let mut b = [0u8; 32];
    b[0..8].copy_from_slice(&p.w0.to_be_bytes());
    b[8..16].copy_from_slice(&p.w1.to_be_bytes());
    b[16..24].copy_from_slice(&p.w2.to_be_bytes());
    b[24..32].copy_from_slice(&p.w3.to_be_bytes());
    anchor_lang::prelude::Pubkey::new_from_array(b)
}

fn ata(wallet: Pubkey, mint: Pubkey, token_program: Pubkey) -> Pubkey {
    lk(anchor_spl::associated_token::get_associated_token_address_with_program_id(
        &ak(wallet),
        &ak(mint),
        &ak(token_program),
    ))
}

fn token_2022() -> Pubkey {
    lk(anchor_spl::token_2022::ID)
}

fn args(name: &str) -> CreateMinterArgs {
    CreateMinterArgs {
        community: String::from("climbers"),
        name: String::from(name),
        description: String::from("a pass for climbers"),
        image_url: String::from("https://example.com/logo.png"),
        payment_config: PaymentConfig {
            amount: 1,
            price: 5000,
            mint: pk(9),
            days: 30,
            expires_at: 7,
        },
        application_config: MinterApplicationConfig {
            identities: vec![IdentityProvider::Discord],
            payment_config: PaymentConfig {
                amount: 1,
                price: 100,
                mint: pk(9),
                days: 7,
                expires_at: 0,
            },
        },
        metadata_config: MinterMetadataConfig {
            name: String::from("Pass"),
            symbol: String::from("PASS"),
            metadata: None,
            uri: String::from("https://example.com/meta.json"),
        },
        interest_config: None,
        transfer_fee_config: None,
    }
}

#[test]
fn create_builds_validated_issuer_and_group() {
    let authority = pk(2);
    let fee_payer = pk(900);
    let minter_key = pk(333);
    let mint_key = pk(10);
    let group_key = pk(12);
    let program_id = pk(7777);
    let minter_token_account = ata(minter_key, mint_key, token_2022());

    let outcome = create(
        254,
        &authority,
        &fee_payer,
        &minter_key,
        &minter_token_account,
        &mint_key,
        &group_key,
        &token_2022(),
        &program_id,
        args("alpha"),
    )
    .unwrap();

    assert_eq!(outcome.minter.name, "alpha");
    assert_eq!(outcome.minter.authorities, vec![authority]);
    assert_eq!(outcome.minter.fee_payer, fee_payer);
    // The payment policy is stored as given, expiry and all.
    assert_eq!(outcome.minter.payment_config.expires_at, 7);
    let (expected_community, _) = anchor_lang::prelude::Pubkey::find_program_address(
        &[b"tokengator_minter", b"climbers"],
        &ak(program_id),
    );
    assert_eq!(outcome.minter.community_id, lk(expected_community));
    assert_eq!(outcome.group.update_authority, minter_key);
    assert_eq!(outcome.group.mint, mint_key);
    assert_eq!(outcome.group.size, 0);
    assert_eq!(outcome.group.max_size, 100);
    assert_eq!(outcome.collection_mint_amount, 1);
    assert_eq!(
        outcome.extensions,
        vec![
            MintExtension::MintCloseAuthority,
            MintExtension::NonTransferable,
            MintExtension::MetadataPointer,
            MintExtension::GroupPointer,
        ]
    );
}

#[test]
fn create_adds_extensions_for_optional_policies() {
    let minter_key = pk(333);
    let mint_key = pk(10);
    let minter_token_account = ata(minter_key, mint_key, token_2022());
    let mut a = args("alpha");
    a.transfer_fee_config = Some(MinterTransferFeeConfig {
        transfer_fee_basis_points: 50,
        max_fee_rate: 10,
    });
    a.interest_config = Some(MinterInterestConfig { rate: 3 });
    let outcome = create(
        254,
        &pk(2),
        &pk(900),
        &minter_key,
        &minter_token_account,
        &mint_key,
        &pk(12),
        &token_2022(),
        &pk(7777),
        a,
    )
    .unwrap();
    assert_eq!(
        outcome.extensions,
        vec![
            MintExtension::MintCloseAuthority,
            MintExtension::NonTransferable,
            MintExtension::MetadataPointer,
            MintExtension::GroupPointer,
            MintExtension::TransferFeeConfig,
            MintExtension::InterestBearingConfig,
        ]
    );
}

#[test]
fn create_rejects_self_sponsoring_fee_payer() {
    let r = create(
        254,
        &pk(2),
        &pk(2),
        &pk(333),
        &pk(44),
        &pk(10),
        &pk(12),
        &token_2022(),
        &pk(7777),
        args("alpha"),
    );
    assert_eq!(r.unwrap_err(), TokenGatorMinterError::InvalidFeePayer);
}

#[test]
fn create_rejects_short_name() {
    let minter_key = pk(333);
    let mint_key = pk(10);
    let minter_token_account = ata(minter_key, mint_key, token_2022());
    let r = create(
        254,
        &pk(2),
        &pk(900),
        &minter_key,
        &minter_token_account,
        &mint_key,
        &pk(12),
        &token_2022(),
        &pk(7777),
        args("ab"),
    );
    assert_eq!(r.unwrap_err(), TokenGatorMinterError::InvalidMinterName);
}

#[test]
fn create_rejects_unexpected_token_account() {
    let r = create(
        254,
        &pk(2),
        &pk(900),
        &pk(333),
        &pk(4444),
        &pk(10),
        &pk(12),
        &token_2022(),
        &pk(7777),
        args("alpha"),
    );
    assert_eq!(r.unwrap_err(), TokenGatorMinterError::InvalidMinterTokenAccount);
}

#[test]
fn pubkey_order_agrees_with_address_byte_order() {
    let samples = [
        Pubkey::new(0, 0, 0, 0),
        Pubkey::new(0, 0, 0, 1),
        Pubkey::new(0, 0, 1, 0),
        Pubkey::new(5, 4, 3, 2),
        Pubkey::new(5, 4, 3, 9),
        Pubkey::new(u64::MAX, 0, 0, 0),
        lk(anchor_spl::token_2022::ID),
        lk(anchor_spl::associated_token::ID),
    ];
    for a in samples.iter() {
        for b in samples.iter() {
            assert_eq!(a.lt(b), ak(*a).to_bytes() < ak(*b).to_bytes());
        }
    }
}
