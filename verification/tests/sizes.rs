use tokengator::pubkey::Pubkey;
use tokengator::state::minter_config::MetadataPair;
use tokengator::state::activity::{Activity, Entry};
use tokengator::state::group_extensions::Group;
use tokengator::state::minter::Minter;
use tokengator::state::minter_config::{
    IdentityProvider, MinterApplicationConfig, MinterConfig, MinterInterestConfig,
    MinterMetadataConfig, MinterTransferFeeConfig, PaymentConfig,
};
use tokengator::state::receipt::Receipt;

fn pk(n: u64) -> Pubkey {
    Pubkey::new(0, 0, 0, n)
}

fn payment_config() -> PaymentConfig {
    PaymentConfig { amount: 1, price: 1000, mint: pk(9), days: 30, expires_at: 0 }
}

fn application_config() -> MinterApplicationConfig {
    MinterApplicationConfig {
        identities: vec![IdentityProvider::Discord, IdentityProvider::GitHub],
        payment_config: payment_config(),
    }
}

fn metadata_config_none() -> MinterMetadataConfig {
    MinterMetadataConfig {
        name: String::from("Pass"),
        symbol: String::from("PASS"),
        metadata: None,
        uri: String::from("https://example.com/meta.json"),
    }
}

#[test]
fn fixed_record_sizes() {
    assert_eq!(PaymentConfig::size(), 43);
    assert_eq!(MinterInterestConfig::size(), 2);
    assert_eq!(MinterTransferFeeConfig::size(), 10);
    assert_eq!(Receipt::size(), 187);
    assert_eq!(Group::size(), 80);
    assert_eq!(Entry::size(), 317);
}

#[test]
fn application_config_size_counts_identities() {
    let app = application_config();
    assert_eq!(MinterApplicationConfig::size(app.identities.as_slice()), 4 + 2 * 2 + 43);
}

#[test]
fn metadata_config_size_counts_pairs() {
    assert_eq!(MinterMetadataConfig::size(&None), 50 + 10 + 1 + 4 + 100);
    let pairs = vec![
        MetadataPair { key: String::from("tier"), value: String::from("gold") },
        MetadataPair { key: String::from("kind"), value: String::from("pass") },
    ];
    assert_eq!(MinterMetadataConfig::size(&Some(pairs)), 50 + 10 + 1 + 4 + 60 + 100);
}

#[test]
fn minter_size_exact_value() {
    let authorities = vec![pk(1)];
    let size = Minter::size(
        authorities.as_slice(),
        &application_config(),
        &metadata_config_none(),
    );
    // 8+1+32+32+50+200+100+32 + (4+32) + 8 + 43
    //   + (32 + 51 + 165 + 1+2 + 1+10)
    assert_eq!(size, 804);
}

#[test]
fn minter_size_grows_by_exactly_32_per_authority() {
    let app = application_config();
    let meta = metadata_config_none();
    for n in [0usize, 1, 2, 17] {
        let before: Vec<Pubkey> = (0..n).map(|i| pk(i as u64)).collect();
        let mut after = before.clone();
        after.push(pk(1000));
        let size_before = Minter::size(before.as_slice(), &app, &meta);
        let size_after = Minter::size(after.as_slice(), &app, &meta);
        assert_eq!(size_before + 32, size_after);
    }
}

#[test]
fn minter_config_size_exact_value() {
    let size = MinterConfig::size(&application_config(), &metadata_config_none());
    assert_eq!(size, 32 + 51 + 165 + 3 + 11);
}

fn entry(ts: i64) -> Entry {
    Entry { timestamp: ts, message: String::from("went climbing"), url: None, points: 3 }
}

#[test]
fn activity_size_exact_and_monotone() {
    let none: Vec<Entry> = Vec::new();
    let one = vec![entry(1)];
    let three = vec![entry(1), entry(2), entry(3)];
    let s0 = Activity::size(none.as_slice());
    let s1 = Activity::size(one.as_slice());
    let s3 = Activity::size(three.as_slice());
    assert_eq!(s0, 207);
    assert_eq!(s1, 207 + 317);
    assert_eq!(s3, 207 + 3 * 317);
    assert!(s0 <= s1 && s1 <= s3);
}
