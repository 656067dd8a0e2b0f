use opengov_cli::network::{parse_network, ss58_prefix, Network, NetworkError, Relay};

#[test]
fn parses_every_supported_chain_name() {
    let cases = [
        ("asset-hub-polkadot", Network::PolkadotAssetHub),
        ("polkadot-asset-hub", Network::PolkadotAssetHub),
        ("bridge-hub-polkadot", Network::PolkadotBridgeHub),
        ("polkadot-bridge-hub", Network::PolkadotBridgeHub),
        ("collectives-polkadot", Network::PolkadotCollectives),
        ("polkadot-collectives", Network::PolkadotCollectives),
        ("people-polkadot", Network::PolkadotPeople),
        ("polkadot-people", Network::PolkadotPeople),
        ("coretime-polkadot", Network::PolkadotCoretime),
        ("polkadot-coretime", Network::PolkadotCoretime),
        ("bulletin-polkadot", Network::PolkadotBulletin),
        ("polkadot-bulletin", Network::PolkadotBulletin),
        ("asset-hub-kusama", Network::KusamaAssetHub),
        ("kusama-asset-hub", Network::KusamaAssetHub),
        ("bridge-hub-kusama", Network::KusamaBridgeHub),
        ("kusama-bridge-hub", Network::KusamaBridgeHub),
        ("people-kusama", Network::KusamaPeople),
        ("kusama-people", Network::KusamaPeople),
        ("coretime-kusama", Network::KusamaCoretime),
        ("kusama-coretime", Network::KusamaCoretime),
    ];
    for (name, network) in cases {
        assert_eq!(parse_network(name), Ok(network), "{name}");
    }
}

#[test]
fn chain_names_ignore_ascii_case() {
    assert_eq!(parse_network("Bulletin-Polkadot"), Ok(Network::PolkadotBulletin));
    assert_eq!(parse_network("BRIDGE-HUB-KUSAMA"), Ok(Network::KusamaBridgeHub));
    assert_eq!(parse_network("Kusama"), Err(NetworkError::RelayChain));
}

#[test]
fn refuses_encointer_relay_chains_and_unknown_names() {
    assert_eq!(parse_network("encointer-kusama"), Err(NetworkError::EncointerUnsupported));
    assert_eq!(parse_network("kusama-encointer"), Err(NetworkError::EncointerUnsupported));
    assert_eq!(parse_network("polkadot"), Err(NetworkError::RelayChain));
    assert_eq!(parse_network("kusama"), Err(NetworkError::RelayChain));
    assert_eq!(parse_network("asset-hub-westend"), Err(NetworkError::Unknown));
    assert_eq!(parse_network(""), Err(NetworkError::Unknown));
    assert_eq!(parse_network(" people-kusama"), Err(NetworkError::Unknown));
}

#[test]
fn ss58_prefixes_follow_the_ecosystem() {
    assert_eq!(ss58_prefix(&Network::Polkadot), 0);
    assert_eq!(ss58_prefix(&Network::PolkadotBulletin), 0);
    assert_eq!(ss58_prefix(&Network::PolkadotAssetHub), 0);
    assert_eq!(ss58_prefix(&Network::Kusama), 2);
    assert_eq!(ss58_prefix(&Network::KusamaEncointer), 2);
    assert_eq!(ss58_prefix(&Network::KusamaCoretime), 2);
}

#[test]
fn para_ids_of_system_chains() {
    assert_eq!(Network::Polkadot.get_para_id(), None);
    assert_eq!(Network::Kusama.get_para_id(), None);
    assert_eq!(Network::PolkadotAssetHub.get_para_id(), Some(1000));
    assert_eq!(Network::KusamaAssetHub.get_para_id(), Some(1000));
    assert_eq!(Network::PolkadotCollectives.get_para_id(), Some(1001));
    assert_eq!(Network::KusamaEncointer.get_para_id(), Some(1001));
    assert_eq!(Network::PolkadotBridgeHub.get_para_id(), Some(1002));
    assert_eq!(Network::KusamaBridgeHub.get_para_id(), Some(1002));
    assert_eq!(Network::PolkadotPeople.get_para_id(), Some(1004));
    assert_eq!(Network::KusamaPeople.get_para_id(), Some(1004));
    assert_eq!(Network::PolkadotCoretime.get_para_id(), Some(1005));
    assert_eq!(Network::KusamaCoretime.get_para_id(), Some(1005));
}

#[test]
fn every_parsed_network_supports_collator_selection() {
    for name in ["people-polkadot", "asset-hub-kusama", "bulletin-polkadot", "coretime-kusama"] {
        let network = parse_network(name).unwrap();
        assert!(network.supports_collator_selection());
        assert!(network.get_para_id().is_some());
    }
    assert!(!Network::KusamaEncointer.supports_collator_selection());
    assert!(!Network::Polkadot.supports_collator_selection());
}

#[test]
fn relay_of_networks() {
    assert_eq!(Network::KusamaPeople.relay(), Relay::Kusama);
    assert_eq!(Network::PolkadotCollectives.relay(), Relay::Polkadot);
    assert_eq!(Network::Kusama.relay(), Relay::Kusama);
}

#[test]
fn the_ss58_prefix_follows_the_ecosystem_in_the_name() {
    for name in [
        "asset-hub-kusama", "Kusama-Asset-Hub", "bridge-hub-kusama", "kusama-bridge-hub",
        "people-kusama", "kusama-people", "coretime-kusama", "KUSAMA-CORETIME",
    ] {
        assert!(name.to_ascii_lowercase().contains("kusama"));
        assert_eq!(ss58_prefix(&parse_network(name).unwrap()), 2, "{name}");
    }
    for name in [
        "asset-hub-polkadot", "polkadot-asset-hub", "bridge-hub-polkadot", "polkadot-bridge-hub",
        "collectives-polkadot", "polkadot-collectives", "people-polkadot", "polkadot-people",
        "coretime-polkadot", "polkadot-coretime", "Bulletin-Polkadot", "polkadot-bulletin",
    ] {
        assert!(!name.to_ascii_lowercase().contains("kusama"));
        assert_eq!(ss58_prefix(&parse_network(name).unwrap()), 0, "{name}");
    }
}
