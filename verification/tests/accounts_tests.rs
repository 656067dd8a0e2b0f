use opengov_cli::accounts::{decode_account, parse_accounts, record_account, AccountError, ParsedAccounts};
use opengov_cli::network::Network;
use sp_core::crypto::{AccountId32, Ss58AddressFormat, Ss58Codec};

const ALICE: [u8; 32] = [
    0xd4, 0x35, 0x93, 0xc7, 0x15, 0xfd, 0xd3, 0x1c, 0x61, 0x14, 0x1a, 0xbd, 0x04, 0xa9, 0x9f, 0xd6,
    0x82, 0x2c, 0x85, 0x58, 0x85, 0x4c, 0xcd, 0xe3, 0x9a, 0x56, 0x84, 0xe7, 0xa5, 0x6d, 0xa2, 0x7d,
];

fn address(key: [u8; 32], prefix: u16) -> String {
    AccountId32::new(key).to_ss58check_with_version(Ss58AddressFormat::custom(prefix))
}

fn inputs(items: &[&str]) -> Vec<String> {
    items.iter().map(|s| s.to_string()).collect()
}

#[test]
fn reads_the_generic_substrate_address_of_alice() {
    let parsed = parse_accounts(
        &inputs(&["5GrwvaEF5zXb26Fz9rcQpDWS57CtERHpNehXCPcNoHGKutQY"]),
        &Network::KusamaPeople,
    );
    assert!(parsed.failure.is_none());
    assert_eq!(parsed.accounts, vec![ALICE]);
    assert_eq!(parsed.warnings.len(), 1);
    assert_eq!(parsed.warnings[0].prefix, 42);
    assert_eq!(parsed.warnings[0].input, "5GrwvaEF5zXb26Fz9rcQpDWS57CtERHpNehXCPcNoHGKutQY");
}

#[test]
fn addresses_with_the_network_prefix_give_no_warning() {
    let polkadot = address([7u8; 32], 0);
    let kusama = address([8u8; 32], 2);
    let parsed = parse_accounts(&inputs(&[&polkadot]), &Network::PolkadotPeople);
    assert!(parsed.failure.is_none());
    assert_eq!(parsed.accounts, vec![[7u8; 32]]);
    assert!(parsed.warnings.is_empty());
    let parsed = parse_accounts(&inputs(&[&kusama, &polkadot]), &Network::KusamaCoretime);
    assert!(parsed.failure.is_none());
    assert_eq!(parsed.accounts, vec![[8u8; 32], [7u8; 32]]);
    assert_eq!(parsed.warnings.len(), 1);
    assert_eq!(parsed.warnings[0].prefix, 0);
    assert_eq!(parsed.warnings[0].input, polkadot);
}

#[test]
fn reads_hex_public_keys_after_trimming() {
    let hex = format!("  0x{}\n", "ab".repeat(32));
    let parsed = parse_accounts(&inputs(&[&hex, &format!("0x{}", "CD".repeat(32))]), &Network::PolkadotAssetHub);
    assert!(parsed.failure.is_none());
    assert_eq!(parsed.accounts, vec![[0xab; 32], [0xcd; 32]]);
    assert!(parsed.warnings.is_empty());
}

#[test]
fn refuses_invalid_hex() {
    let parsed = parse_accounts(&inputs(&[" 0xzz "]), &Network::PolkadotAssetHub);
    assert!(parsed.accounts.is_empty());
    match parsed.failure {
        Some(AccountError::InvalidHex { input }) => assert_eq!(input, "0xzz"),
        other => panic!("unexpected {other:?}"),
    }
}

#[test]
fn refuses_hex_of_the_wrong_length() {
    let short = format!("0x{}", "00".repeat(31));
    let parsed = parse_accounts(&inputs(&[&short]), &Network::PolkadotAssetHub);
    match parsed.failure {
        Some(AccountError::WrongLength { input }) => assert_eq!(input, short),
        other => panic!("unexpected {other:?}"),
    }
}

#[test]
fn refuses_invalid_ss58() {
    let parsed = parse_accounts(&inputs(&["not-an-address"]), &Network::PolkadotAssetHub);
    match parsed.failure {
        Some(AccountError::InvalidSs58 { input, reason }) => {
            assert_eq!(input, "not-an-address");
            assert!(!reason.is_empty());
        },
        other => panic!("unexpected {other:?}"),
    }
    let mut bad = "5GrwvaEF5zXb26Fz9rcQpDWS57CtERHpNehXCPcNoHGKutQY".to_string();
    bad.pop();
    bad.push('Z');
    let parsed = parse_accounts(&inputs(&[&bad]), &Network::PolkadotAssetHub);
    assert!(matches!(parsed.failure, Some(AccountError::InvalidSs58 { .. })));
}

#[test]
fn refuses_an_account_listed_twice_in_any_form() {
    let hex = format!("0x{}", hex_of(&ALICE));
    let parsed = parse_accounts(
        &inputs(&["5GrwvaEF5zXb26Fz9rcQpDWS57CtERHpNehXCPcNoHGKutQY", &hex, "also-bad"]),
        &Network::PolkadotAssetHub,
    );
    assert_eq!(parsed.accounts, vec![ALICE]);
    match parsed.failure {
        Some(AccountError::Duplicate { input }) => assert_eq!(input, hex),
        other => panic!("unexpected {other:?}"),
    }
}

#[test]
fn stops_at_the_first_refused_input() {
    let generic = address([1u8; 32], 42);
    let parsed = parse_accounts(&inputs(&["0x00", &generic]), &Network::PolkadotAssetHub);
    assert!(parsed.accounts.is_empty());
    assert!(parsed.warnings.is_empty());
    assert!(matches!(parsed.failure, Some(AccountError::WrongLength { .. })));
}

#[test]
fn no_inputs_give_no_accounts() {
    let parsed = parse_accounts(&Vec::new(), &Network::PolkadotAssetHub);
    assert!(parsed.accounts.is_empty());
    assert!(parsed.failure.is_none());
}

fn hex_of(bytes: &[u8]) -> String {
    bytes.iter().map(|b| format!("{b:02x}")).collect()
}

#[test]
fn records_new_accounts_and_refuses_repeats() {
    let mut parsed = ParsedAccounts { accounts: Vec::new(), warnings: Vec::new(), failure: None };
    record_account(&mut parsed, "first", [1u8; 32], Some(42), 0);
    record_account(&mut parsed, "second", [2u8; 32], Some(0), 0);
    record_account(&mut parsed, "third", [3u8; 32], None, 0);
    assert_eq!(parsed.accounts, vec![[1u8; 32], [2u8; 32], [3u8; 32]]);
    assert_eq!(parsed.warnings.len(), 1);
    assert_eq!(parsed.warnings[0].input, "first");
    assert_eq!(parsed.warnings[0].prefix, 42);
    record_account(&mut parsed, "again", [2u8; 32], None, 0);
    assert!(matches!(&parsed.failure, Some(AccountError::Duplicate { input }) if input == "again"));
    record_account(&mut parsed, "later", [4u8; 32], None, 0);
    assert_eq!(parsed.accounts.len(), 3);
}

#[test]
fn decodes_single_accounts() {
    let hex = format!("0x{}", hex_of(&ALICE));
    assert!(matches!(decode_account(&hex), Ok((a, None)) if a == ALICE));
    assert!(matches!(
        decode_account("5GrwvaEF5zXb26Fz9rcQpDWS57CtERHpNehXCPcNoHGKutQY"),
        Ok((a, Some(42))) if a == ALICE
    ));
    assert!(matches!(decode_account("0x"), Err(AccountError::WrongLength { .. })));
    assert!(matches!(decode_account(""), Err(AccountError::InvalidSs58 { .. })));
}

#[test]
fn a_repeated_address_is_warned_about_before_it_is_refused() {
    let hex = format!("0x{}", hex_of(&ALICE));
    let parsed = parse_accounts(
        &inputs(&[&hex, "5GrwvaEF5zXb26Fz9rcQpDWS57CtERHpNehXCPcNoHGKutQY"]),
        &Network::PolkadotAssetHub,
    );
    assert_eq!(parsed.accounts, vec![ALICE]);
    assert_eq!(parsed.warnings.len(), 1);
    assert_eq!(parsed.warnings[0].prefix, 42);
    assert!(matches!(&parsed.failure, Some(AccountError::Duplicate { input }) if input == "5GrwvaEF5zXb26Fz9rcQpDWS57CtERHpNehXCPcNoHGKutQY"));

    let mut parsed = ParsedAccounts { accounts: vec![[9u8; 32]], warnings: Vec::new(), failure: None };
    record_account(&mut parsed, "again", [9u8; 32], Some(2), 0);
    assert_eq!(parsed.warnings.len(), 1);
    assert_eq!(parsed.warnings[0].prefix, 2);
    assert!(matches!(parsed.failure, Some(AccountError::Duplicate { .. })));
}

#[test]
fn invalid_ss58_carries_sp_core_error_text() {
    match decode_account("not-an-address") {
        Err(AccountError::InvalidSs58 { reason, .. }) => {
            let expected = match AccountId32::from_ss58check_with_version("not-an-address") {
                Err(e) => format!("{e:?}"),
                Ok(_) => panic!("should not decode"),
            };
            assert_eq!(reason, expected);
        },
        other => panic!("unexpected {other:?}"),
    }
}
