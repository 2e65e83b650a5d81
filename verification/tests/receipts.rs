use tokengator::errors::TokenGatorMinterError;
use tokengator::instructions::prepare::{prepare, PrepareForPaymentArgs};
use tokengator::instructions::wns_create;
use tokengator::instructions::wns_mint::{mint, MintMinterWNSArgs};
use tokengator::pubkey::Pubkey;
use tokengator::state::group_extensions::Group;
use tokengator::state::minter::Minter;
use tokengator::state::minter_config::{
    IdentityProvider, MinterApplicationConfig, MinterConfig, MinterMetadataConfig, PaymentConfig,
};
use tokengator::state::receipt::{ReceiptBook, ReceiptType};

fn pk(n: u64) -> Pubkey {
    Pubkey::new(0, 0, 0, n)
}

/// The library's view of a runtime address: four big-endian limbs.
fn lk(p: anchor_lang::prelude::Pubkey) -> Pubkey {
    let b = p.to_bytes();
    let w = |i: usize| u64::from_be_bytes(b[i..i + 8].try_into().unwrap());
    Pubkey::new(w(0), w(8), w(16), w(24))
}

fn ak(p: Pubkey) -> anchor_lang::prelude::Pubkey {
    let mut b = [0u8; 32];
    b[0..8].copy_from_slice(&p.w0.to_be_bytes());
    b[8..16].copy_from_slice(&p.w1.to_be_bytes());
    b[16..24].copy_from_slice(&p.w2.to_be_bytes());
    b[24..32].copy_from_slice(&p.w3.to_be_bytes());
    anchor_lang::prelude::Pubkey::new_from_array(b)
}

fn derive(seeds: &[&[u8]], program: Pubkey) -> Pubkey {
    let (a, _) = anchor_lang::prelude::Pubkey::find_program_address(seeds, &ak(program));
    lk(a)
}

fn ata(wallet: Pubkey, mint: Pubkey, token_program: Pubkey) -> Pubkey {
    lk(anchor_spl::associated_token::get_associated_token_address_with_program_id(
        &ak(wallet),
        &ak(mint),
        &ak(token_program),
    ))
}

fn token_2022() -> Pubkey {
    lk(anchor_spl::token_2022::ID)
}

const FEE_PAYER: u64 = 900;

fn minter_with_price(price: u64, days: u8) -> Minter {
    let payment = PaymentConfig { amount: 1, price: 5000, mint: pk(9), days: 7, expires_at: 0 };
    let application_payment = PaymentConfig {
        amount: 1,
        price,
        mint: pk(9),
        days,
        expires_at: 0,
    };
    Minter {
        bump: 254,
        community_id: pk(11),
        group: pk(12),
        name: String::from("alpha"),
        description: String::from("a pass for climbers"),
        image_url: String::from("https://example.com/logo.png"),
        fee_payer: pk(FEE_PAYER),
        authorities: vec![pk(2)],
        payment_config: payment,
        minter_config: MinterConfig {
            mint: pk(10),
            application_config: MinterApplicationConfig {
                identities: vec![IdentityProvider::Discord],
                payment_config: application_payment,
            },
            metadata_config: MinterMetadataConfig {
                name: String::from("Pass"),
                symbol: String::from("PASS"),
                metadata: None,
                uri: String::from("https://example.com/meta.json"),
            },
            interest_config: None,
            transfer_fee_config: None,
        },
    }
}

#[test]
fn prepare_writes_receipt_and_transfer() {
    let mut book = ReceiptBook::new();
    let r = prepare(
        &mut book,
        255,
        &pk(1),
        &pk(2),
        &pk(31),
        &pk(32),
        &pk(9),
        1_000_000,
        PrepareForPaymentArgs { payment_amount: 1000, payment_type: ReceiptType::User },
    );
    let plan = r.unwrap();
    assert_eq!(plan.amount, 1000);
    assert_eq!(plan.from, pk(31));
    assert_eq!(plan.to, pk(32));
    assert_eq!(plan.authority, pk(1));
    let rec = book.lookup(&pk(1), &pk(2), &pk(9)).unwrap();
    assert_eq!(rec.created_at, 1_000_000);
    assert_eq!(rec.payment_amount, 1000);
    assert_eq!(rec.bump, 255);
}

#[test]
fn prepare_twice_for_same_triple_fails() {
    let mut book = ReceiptBook::new();
    let args = PrepareForPaymentArgs { payment_amount: 1000, payment_type: ReceiptType::User };
    assert!(prepare(&mut book, 255, &pk(1), &pk(2), &pk(31), &pk(32), &pk(9), 0, args).is_ok());
    let again = prepare(&mut book, 255, &pk(1), &pk(2), &pk(31), &pk(32), &pk(9), 5, args);
    assert_eq!(again.unwrap_err(), TokenGatorMinterError::ReceiptAlreadyExists);
}

struct WnsFixture {
    wns_program: Pubkey,
    group: Group,
    group_key: Pubkey,
    manager_key: Pubkey,
    member_mint: Pubkey,
    member_key: Pubkey,
}

fn wns_fixture() -> WnsFixture {
    let wns_program = pk(4242);
    let collection_mint = pk(10);
    let member_mint = pk(600);
    let group_key = derive(&[b"group", &ak(collection_mint).to_bytes()], wns_program);
    let manager_key = derive(&[b"manager"], wns_program);
    let member_key = derive(&[b"member", &ak(member_mint).to_bytes()], wns_program);
    WnsFixture {
        wns_program,
        group: Group {
            update_authority: pk(777),
            mint: collection_mint,
            size: 1,
            max_size: 100,
        },
        group_key,
        manager_key,
        member_mint,
        member_key,
    }
}

#[allow(clippy::too_many_arguments)]
fn redeem_user(
    book: &mut ReceiptBook,
    minter: &mut Minter,
    sender: Pubkey,
    receiver_of_membership: Pubkey,
    authority: Pubkey,
    payment_mint: Pubkey,
    now: i64,
) -> Result<tokengator::instructions::wns_mint::MembershipMintPlan, TokenGatorMinterError> {
    let f = wns_fixture();
    let rta = ata(receiver_of_membership, f.member_mint, token_2022());
    mint(
        book,
        minter,
        &sender,
        &authority,
        &payment_mint,
        &authority,
        &receiver_of_membership,
        &pk(FEE_PAYER),
        &rta,
        &f.member_mint,
        &f.group,
        &f.group_key,
        &f.manager_key,
        &f.member_key,
        &pk(555),
        &f.wns_program,
        &token_2022(),
        now,
        MintMinterWNSArgs {
            name: String::from("Member Pass"),
            symbol: String::from("MPASS"),
            uri: String::from("https://example.com/member.json"),
            metadata: None,
        },
    )
}

#[test]
fn redeem_user_sets_expiry_and_consumes_receipt() {
    let mut book = ReceiptBook::new();
    let mut minter = minter_with_price(1000, 30);
    let sender = pk(1);
    let authority = pk(2);
    let payment_mint = pk(9);
    let now: i64 = 1_000_000;

    prepare(
        &mut book,
        255,
        &sender,
        &authority,
        &pk(31),
        &pk(32),
        &payment_mint,
        now,
        PrepareForPaymentArgs { payment_amount: 1000, payment_type: ReceiptType::User },
    )
    .unwrap();

    let plan = redeem_user(
        &mut book, &mut minter, sender, sender, authority, payment_mint, now,
    )
    .unwrap();
    assert_eq!(
        minter.minter_config.application_config.payment_config.expires_at,
        now + 30 * 86400
    );
    assert_eq!(plan.expires_at, now + 30 * 86400);
    assert_eq!(plan.issued_at, now);
    assert_eq!(plan.permanent_delegate, pk(555));
    assert_eq!(plan.receipt_refund_to, pk(FEE_PAYER));

    // The record is gone: redeeming the same triple again finds nothing.
    let again = redeem_user(
        &mut book, &mut minter, sender, sender, authority, payment_mint, now,
    );
    assert_eq!(again.unwrap_err(), TokenGatorMinterError::ReceiptNotFound);
}

#[test]
fn redeem_user_rejects_community_receipt() {
    let mut book = ReceiptBook::new();
    let mut minter = minter_with_price(1000, 30);
    prepare(
        &mut book,
        255,
        &pk(1),
        &pk(2),
        &pk(31),
        &pk(32),
        &pk(9),
        0,
        PrepareForPaymentArgs { payment_amount: 1000, payment_type: ReceiptType::Community },
    )
    .unwrap();
    let r = redeem_user(&mut book, &mut minter, pk(1), pk(1), pk(2), pk(9), 0);
    assert_eq!(r.unwrap_err(), TokenGatorMinterError::InvalidReceipt);
    // Failure leaves the receipt live.
    assert!(book.lookup(&pk(1), &pk(2), &pk(9)).is_some());
}

#[test]
fn redeem_user_rejects_wrong_amount() {
    let mut book = ReceiptBook::new();
    let mut minter = minter_with_price(2000, 30);
    prepare(
        &mut book,
        255,
        &pk(1),
        &pk(2),
        &pk(31),
        &pk(32),
        &pk(9),
        0,
        PrepareForPaymentArgs { payment_amount: 1000, payment_type: ReceiptType::User },
    )
    .unwrap();
    let r = redeem_user(&mut book, &mut minter, pk(1), pk(1), pk(2), pk(9), 0);
    assert_eq!(r.unwrap_err(), TokenGatorMinterError::InvalidReceipt);
}

#[test]
fn redeem_user_rejects_wrong_membership_receiver() {
    let mut book = ReceiptBook::new();
    let mut minter = minter_with_price(1000, 30);
    prepare(
        &mut book,
        255,
        &pk(1),
        &pk(2),
        &pk(31),
        &pk(32),
        &pk(9),
        0,
        PrepareForPaymentArgs { payment_amount: 1000, payment_type: ReceiptType::User },
    )
    .unwrap();
    // The membership must go to the payer (the receipt's sender).
    let r = redeem_user(&mut book, &mut minter, pk(1), pk(3), pk(2), pk(9), 0);
    assert_eq!(r.unwrap_err(), TokenGatorMinterError::InvalidReceiver);
}

fn create_wns_args(price: u64) -> wns_create::CreateMinterWNSArgs {
    wns_create::CreateMinterWNSArgs {
        community: String::from("climbers"),
        name: String::from("alpha"),
        description: String::from("a pass for climbers"),
        image_url: String::from("https://example.com/logo.png"),
        payment_config: wns_create::PaymentConfigArgs {
            amount: 1,
            price,
            mint: pk(9),
            days: 30,
        },
        application_config: MinterApplicationConfig {
            identities: vec![IdentityProvider::Discord],
            payment_config: PaymentConfig {
                amount: 1,
                price: 100,
                mint: pk(9),
                days: 7,
                expires_at: 99,
            },
        },
        metadata_config: MinterMetadataConfig {
            name: String::from("Pass"),
            symbol: String::from("PASS"),
            metadata: None,
            uri: String::from("https://example.com/meta.json"),
        },
        interest_config: None,
        transfer_fee_config: None,
    }
}

#[test]
fn redeem_community_creates_issuer_and_consumes_receipt() {
    let mut book = ReceiptBook::new();
    let authority = pk(2);
    let fee_payer = pk(FEE_PAYER);
    let payment_mint = pk(9);
    let sender = pk(1);
    let authority_token_account = pk(32);
    let now: i64 = 2_000_000;
    let program_id = pk(7777);
    let minter_key = pk(333);
    let mint_key = pk(10);
    let wns_program = pk(4242);

    prepare(
        &mut book,
        255,
        &sender,
        &authority,
        &pk(31),
        &authority_token_account,
        &payment_mint,
        now,
        PrepareForPaymentArgs { payment_amount: 5000, payment_type: ReceiptType::Community },
    )
    .unwrap();

    let fee_payer_token_account = ata(fee_payer, payment_mint, token_2022());
    let minter_token_account = ata(minter_key, mint_key, token_2022());
    let group_key = derive(&[b"group", &ak(mint_key).to_bytes()], wns_program);
    let manager_key = derive(&[b"manager"], wns_program);

    let outcome = wns_create::create(
        &mut book,
        254,
        &sender,
        &authority,
        &payment_mint,
        &authority,
        &authority_token_account,
        &fee_payer,
        &fee_payer_token_account,
        &payment_mint,
        &minter_key,
        &minter_token_account,
        &mint_key,
        &group_key,
        &manager_key,
        &wns_program,
        &token_2022(),
        &program_id,
        now,
        create_wns_args(5000),
    )
    .unwrap();

    // The issuer-level expiry starts now; the member-level expiry is the
    // not-yet-activated sentinel.
    assert_eq!(outcome.minter.payment_config.expires_at, now + 30 * 86400);
    assert_eq!(
        outcome.minter.minter_config.application_config.payment_config.expires_at,
        0
    );
    assert_eq!(outcome.minter.authorities, vec![authority]);
    assert_eq!(outcome.payment_transfer.amount, 5000);
    assert_eq!(outcome.payment_transfer.from, authority_token_account);
    assert_eq!(outcome.payment_transfer.to, fee_payer_token_account);
    assert_eq!(outcome.group_plan.max_size, 100);
    assert_eq!(outcome.receipt_refund_to, fee_payer);
    // The derived community identity matches a direct derivation.
    let expected_community = derive(
        &[b"tokengator_minter", b"climbers"],
        program_id,
    );
    assert_eq!(outcome.minter.community_id, expected_community);

    // The receipt is gone.
    assert!(book.lookup(&sender, &authority, &payment_mint).is_none());
}

#[test]
fn redeem_community_rejects_wrong_payment_mint() {
    let mut book = ReceiptBook::new();
    let now: i64 = 0;
    prepare(
        &mut book,
        255,
        &pk(1),
        &pk(2),
        &pk(31),
        &pk(32),
        &pk(9),
        now,
        PrepareForPaymentArgs { payment_amount: 5000, payment_type: ReceiptType::Community },
    )
    .unwrap();
    let r = wns_create::create(
        &mut book,
        254,
        &pk(1),
        &pk(2),
        &pk(9),
        &pk(2),
        &pk(32),
        &pk(FEE_PAYER),
        &pk(40),
        &pk(99),  // given payment mint differs from the receipt's
        &pk(333),
        &pk(41),
        &pk(10),
        &pk(42),
        &pk(43),
        &pk(4242),
        &token_2022(),
        &pk(7777),
        now,
        create_wns_args(5000),
    );
    assert_eq!(r.unwrap_err(), TokenGatorMinterError::InvalidMint);
}

#[allow(clippy::too_many_arguments)]
fn redeem_user_with(
    book: &mut ReceiptBook,
    minter: &mut Minter,
    authority: Pubkey,
    fee_payer: Pubkey,
    rta_override: Option<Pubkey>,
    group_key_override: Option<Pubkey>,
) -> Result<tokengator::instructions::wns_mint::MembershipMintPlan, TokenGatorMinterError> {
    let f = wns_fixture();
    let rta = rta_override.unwrap_or_else(|| ata(pk(1), f.member_mint, token_2022()));
    let group_key = group_key_override.unwrap_or(f.group_key);
    mint(
        book,
        minter,
        &pk(1),
        &pk(2),
        &pk(9),
        &authority,
        &pk(1),
        &fee_payer,
        &rta,
        &f.member_mint,
        &f.group,
        &group_key,
        &f.manager_key,
        &f.member_key,
        &pk(555),
        &f.wns_program,
        &token_2022(),
        0,
        MintMinterWNSArgs {
            name: String::from("Member Pass"),
            symbol: String::from("MPASS"),
            uri: String::from("https://example.com/member.json"),
            metadata: None,
        },
    )
}

fn prepared_book() -> ReceiptBook {
    let mut book = ReceiptBook::new();
    prepare(
        &mut book,
        255,
        &pk(1),
        &pk(2),
        &pk(31),
        &pk(32),
        &pk(9),
        0,
        PrepareForPaymentArgs { payment_amount: 1000, payment_type: ReceiptType::User },
    )
    .unwrap();
    book
}

#[test]
fn redeem_user_rejects_wrong_redeeming_authority() {
    let mut book = prepared_book();
    let mut minter = minter_with_price(1000, 30);
    minter.authorities = vec![pk(3)];
    let r = redeem_user_with(&mut book, &mut minter, pk(3), pk(FEE_PAYER), None, None);
    assert_eq!(r.unwrap_err(), TokenGatorMinterError::InvalidAuthority);
}

#[test]
fn redeem_user_rejects_foreign_fee_payer() {
    let mut book = prepared_book();
    let mut minter = minter_with_price(1000, 30);
    let r = redeem_user_with(&mut book, &mut minter, pk(2), pk(901), None, None);
    assert_eq!(r.unwrap_err(), TokenGatorMinterError::UnAuthorized);
}

#[test]
fn redeem_user_rejects_unexpected_receiver_token_account() {
    let mut book = prepared_book();
    let mut minter = minter_with_price(1000, 30);
    let r = redeem_user_with(
        &mut book,
        &mut minter,
        pk(2),
        pk(FEE_PAYER),
        Some(pk(987654)),
        None,
    );
    assert_eq!(r.unwrap_err(), TokenGatorMinterError::InvalidAuthorityTokenAccount);
}

#[test]
fn redeem_user_rejects_wrong_collection_group() {
    let mut book = prepared_book();
    let mut minter = minter_with_price(1000, 30);
    let r = redeem_user_with(
        &mut book,
        &mut minter,
        pk(2),
        pk(FEE_PAYER),
        None,
        Some(pk(987654)),
    );
    assert_eq!(r.unwrap_err(), TokenGatorMinterError::InvalidWNSGroup);
}

#[test]
fn redeem_community_rejects_unexpected_fee_payer_token_account() {
    let mut book = ReceiptBook::new();
    prepare(
        &mut book,
        255,
        &pk(1),
        &pk(2),
        &pk(31),
        &pk(32),
        &pk(9),
        0,
        PrepareForPaymentArgs { payment_amount: 5000, payment_type: ReceiptType::Community },
    )
    .unwrap();
    let r = wns_create::create(
        &mut book,
        254,
        &pk(1),
        &pk(2),
        &pk(9),
        &pk(2),
        &pk(32),
        &pk(FEE_PAYER),
        &pk(987654),
        &pk(9),
        &pk(333),
        &pk(41),
        &pk(10),
        &pk(42),
        &pk(43),
        &pk(4242),
        &token_2022(),
        &pk(7777),
        0,
        create_wns_args(5000),
    );
    assert_eq!(r.unwrap_err(), TokenGatorMinterError::InvalidFeePayerTokenAccount);
}
