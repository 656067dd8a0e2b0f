use opengov_cli::network::Network;
use opengov_cli::on_chain::{assess_accounts, serves_target, Finding};

#[test]
fn node_must_serve_the_target_para() {
    assert!(serves_target(&Network::PolkadotPeople, 1004));
    assert!(!serves_target(&Network::PolkadotPeople, 1000));
    assert!(serves_target(&Network::KusamaAssetHub, 1000));
}

#[test]
fn all_good_accounts_pass() {
    let res = assess_accounts(&vec![[1u8; 32], [2u8; 32]], &vec![true, true], &vec![[3u8; 32]], Some(5));
    assert!(res.findings.is_empty());
    assert_eq!(res.resulting, 3);
}

#[test]
fn reports_each_failure_in_account_order() {
    let res = assess_accounts(
        &vec![[1u8; 32], [2u8; 32], [3u8; 32]],
        &vec![false, true, false],
        &vec![[2u8; 32], [3u8; 32]],
        Some(10),
    );
    assert_eq!(
        res.findings,
        vec![
            Finding::NoSessionKeys { account: 0 },
            Finding::AlreadyInvulnerable { account: 1 },
            Finding::NoSessionKeys { account: 2 },
            Finding::AlreadyInvulnerable { account: 2 },
        ]
    );
    assert_eq!(res.resulting, 5);
}

#[test]
fn the_set_must_fit_the_maximum() {
    let res = assess_accounts(&vec![[1u8; 32], [2u8; 32]], &vec![true, true], &vec![[3u8; 32]], Some(2));
    assert_eq!(res.findings, vec![Finding::ExceedsMaxInvulnerables]);
    let res = assess_accounts(&vec![[1u8; 32], [2u8; 32]], &vec![true, true], &vec![[3u8; 32]], Some(3));
    assert!(res.findings.is_empty());
    let res = assess_accounts(&vec![[1u8; 32]], &vec![true], &vec![], Some(0));
    assert_eq!(res.findings, vec![Finding::ExceedsMaxInvulnerables]);
}

#[test]
fn an_unknown_maximum_fails_the_checks() {
    let res = assess_accounts(&vec![[1u8; 32]], &vec![true], &vec![], None);
    assert_eq!(res.findings, vec![Finding::MaxInvulnerablesUnknown]);
    let res = assess_accounts(&vec![[1u8; 32]], &vec![false], &vec![[1u8; 32]], None);
    assert_eq!(
        res.findings,
        vec![
            Finding::NoSessionKeys { account: 0 },
            Finding::AlreadyInvulnerable { account: 0 },
            Finding::MaxInvulnerablesUnknown,
        ]
    );
}
