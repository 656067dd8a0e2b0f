//! The chains the tool knows about, and the facts it keeps about each of them.

use vstd::prelude::*;
use crate::text::{ascii_lowercase, to_ascii_lowercase};

verus! {

/// A relay chain or one of its system parachains.
#[derive(Clone, Copy, Debug, PartialEq, Eq, Structural)]
pub enum Network {
    Kusama,
    KusamaAssetHub,
    KusamaBridgeHub,
    KusamaCoretime,
    KusamaEncointer,
    KusamaPeople,
    Polkadot,
    PolkadotAssetHub,
    PolkadotBridgeHub,
    PolkadotCollectives,
    PolkadotCoretime,
    PolkadotPeople,
    PolkadotBulletin,
}

/// The two relay chains, each of which hosts the governance of its own ecosystem.
#[derive(Clone, Copy, Debug, PartialEq, Eq, Structural)]
pub enum Relay {
    Polkadot,
    Kusama,
}

/// The relay chain whose ecosystem a network belongs to.
pub open spec fn relay_of(network: Network) -> Relay {
    match network {
        Network::Kusama | Network::KusamaAssetHub | Network::KusamaBridgeHub
        | Network::KusamaCoretime | Network::KusamaEncointer | Network::KusamaPeople => Relay::Kusama,
        _ => Relay::Polkadot,
    }
}

/// The SS58 address prefix of an ecosystem: 0 on Polkadot, 2 on Kusama.
pub open spec fn spec_ss58_prefix(network: Network) -> u16 {
    match relay_of(network) {
        Relay::Polkadot => 0,
        Relay::Kusama => 2,
    }
}

/// The parachain id of a network; `None` for the relay chains themselves.
pub open spec fn spec_para_id(network: Network) -> Option<u32> {
    match network {
        Network::Kusama | Network::Polkadot => None,
        Network::KusamaAssetHub | Network::PolkadotAssetHub => Some(1000),
        Network::KusamaEncointer | Network::PolkadotCollectives => Some(1001),
        Network::KusamaBridgeHub | Network::PolkadotBridgeHub => Some(1002),
        Network::KusamaPeople | Network::PolkadotPeople => Some(1004),
        Network::KusamaCoretime | Network::PolkadotCoretime => Some(1005),
        Network::PolkadotBulletin => Some(1006),
    }
}

/// The SS58 prefix that addresses of the given network are expected to use.
pub fn ss58_prefix(network: &Network) -> (prefix: u16)
    ensures
        prefix == spec_ss58_prefix(*network),
{
    match network {
        Network::Kusama | Network::KusamaAssetHub | Network::KusamaEncointer
        | Network::KusamaBridgeHub | Network::KusamaPeople | Network::KusamaCoretime => 2,
        Network::Polkadot | Network::PolkadotAssetHub | Network::PolkadotCollectives
        | Network::PolkadotBridgeHub | Network::PolkadotPeople | Network::PolkadotCoretime
        | Network::PolkadotBulletin => 0,
    }
}

/// Why a chain name was refused.
#[derive(Clone, Copy, Debug, PartialEq, Eq, Structural)]
pub enum NetworkError {
    /// Encointer's collator set is governed by its own council, not by OpenGov.
    EncointerUnsupported,
    /// Relay chains have no collator selection.
    RelayChain,
    /// The name is none of the supported chains.
    Unknown,
}

/// Whether a network selects its collators with a set that OpenGov's staking admin
/// track may extend.
pub open spec fn supports_collator_selection(network: Network) -> bool {
    !(network is Polkadot || network is Kusama || network is KusamaEncointer)
}

/// The network that a lower-case chain name denotes, if it is a supported one. Each
/// chain can be named with the ecosystem last (`people-kusama`) or first
/// (`kusama-people`).
pub open spec fn network_named(name: Seq<char>) -> Option<Network> {
    if name == "asset-hub-polkadot"@ || name == "polkadot-asset-hub"@ {
        Some(Network::PolkadotAssetHub)
    } else if name == "bridge-hub-polkadot"@ || name == "polkadot-bridge-hub"@ {
        Some(Network::PolkadotBridgeHub)
    } else if name == "collectives-polkadot"@ || name == "polkadot-collectives"@ {
        Some(Network::PolkadotCollectives)
    } else if name == "people-polkadot"@ || name == "polkadot-people"@ {
        Some(Network::PolkadotPeople)
    } else if name == "coretime-polkadot"@ || name == "polkadot-coretime"@ {
        Some(Network::PolkadotCoretime)
    } else if name == "bulletin-polkadot"@ || name == "polkadot-bulletin"@ {
        Some(Network::PolkadotBulletin)
    } else if name == "asset-hub-kusama"@ || name == "kusama-asset-hub"@ {
        Some(Network::KusamaAssetHub)
    } else if name == "bridge-hub-kusama"@ || name == "kusama-bridge-hub"@ {
        Some(Network::KusamaBridgeHub)
    } else if name == "people-kusama"@ || name == "kusama-people"@ {
        Some(Network::KusamaPeople)
    } else if name == "coretime-kusama"@ || name == "kusama-coretime"@ {
        Some(Network::KusamaCoretime)
    } else {
        None
    }
}

/// What the user's chain name selects, compared without regard to ASCII case.
pub open spec fn spec_parse_network(input: Seq<char>) -> Result<Network, NetworkError> {
    let name = ascii_lowercase(input);
    match network_named(name) {
        Some(network) => Ok(network),
        None => if name == "encointer-kusama"@ || name == "kusama-encointer"@ {
            Err(NetworkError::EncointerUnsupported)
        } else if name == "polkadot"@ || name == "kusama"@ {
            Err(NetworkError::RelayChain)
        } else {
            Err(NetworkError::Unknown)
        },
    }
}

fn is_one_of(name: &String, first: &str, second: &str) -> (b: bool)
    ensures
        b == (name@ == first@ || name@ == second@),
{
    let first = first.to_owned();
    let second = second.to_owned();
    *name == first || *name == second
}

/// Maps the user's chain name to a `Network`. Only chains that use collator selection
/// with an update origin that the staking admin track can reach are accepted.
pub fn parse_network(input: &str) -> (res: Result<Network, NetworkError>)
    ensures
        res == spec_parse_network(input@),
{
    let name = to_ascii_lowercase(input);
    if is_one_of(&name, "asset-hub-polkadot", "polkadot-asset-hub") {
        Ok(Network::PolkadotAssetHub)
    } else if is_one_of(&name, "bridge-hub-polkadot", "polkadot-bridge-hub") {
        Ok(Network::PolkadotBridgeHub)
    } else if is_one_of(&name, "collectives-polkadot", "polkadot-collectives") {
        Ok(Network::PolkadotCollectives)
    } else if is_one_of(&name, "people-polkadot", "polkadot-people") {
        Ok(Network::PolkadotPeople)
    } else if is_one_of(&name, "coretime-polkadot", "polkadot-coretime") {
        Ok(Network::PolkadotCoretime)
    } else if is_one_of(&name, "bulletin-polkadot", "polkadot-bulletin") {
        Ok(Network::PolkadotBulletin)
    } else if is_one_of(&name, "asset-hub-kusama", "kusama-asset-hub") {
        Ok(Network::KusamaAssetHub)
    } else if is_one_of(&name, "bridge-hub-kusama", "kusama-bridge-hub") {
        Ok(Network::KusamaBridgeHub)
    } else if is_one_of(&name, "people-kusama", "kusama-people") {
        Ok(Network::KusamaPeople)
    } else if is_one_of(&name, "coretime-kusama", "kusama-coretime") {
        Ok(Network::KusamaCoretime)
    } else if is_one_of(&name, "encointer-kusama", "kusama-encointer") {
        Err(NetworkError::EncointerUnsupported)
    } else if is_one_of(&name, "polkadot", "kusama") {
        Err(NetworkError::RelayChain)
    } else {
        Err(NetworkError::Unknown)
    }
}

impl Network {
    /// The parachain id of the network; `None` for a relay chain.
    pub fn get_para_id(&self) -> (res: Option<u32>)
        ensures
            res == spec_para_id(*self),
    {
        match self {
            Network::Kusama | Network::Polkadot => None,
            Network::KusamaAssetHub | Network::PolkadotAssetHub => Some(1000),
            Network::KusamaEncointer | Network::PolkadotCollectives => Some(1001),
            Network::KusamaBridgeHub | Network::PolkadotBridgeHub => Some(1002),
            Network::KusamaPeople | Network::PolkadotPeople => Some(1004),
            Network::KusamaCoretime | Network::PolkadotCoretime => Some(1005),
            Network::PolkadotBulletin => Some(1006),
        }
    }

    /// Whether OpenGov's staking admin track can extend the network's invulnerable set.
    pub fn supports_collator_selection(&self) -> (b: bool)
        ensures
            b == supports_collator_selection(*self),
    {
        !matches!(self, Network::Polkadot | Network::Kusama | Network::KusamaEncointer)
    }

    /// The relay chain whose ecosystem the network belongs to.
    pub fn relay(&self) -> (r: Relay)
        ensures
            r == relay_of(*self),
    {
        match self {
            Network::Kusama | Network::KusamaAssetHub | Network::KusamaBridgeHub
            | Network::KusamaCoretime | Network::KusamaEncointer | Network::KusamaPeople => {
                Relay::Kusama
            },
            _ => Relay::Polkadot,
        }
    }
}

/// A chain name that parses is one whose invulnerable set the tool can extend, and
/// it is a parachain, so it has a para id.
pub proof fn lemma_parsed_network_is_supported_parachain(input: Seq<char>)
    ensures
        spec_parse_network(input) matches Ok(network) ==> supports_collator_selection(network)
            && spec_para_id(network) is Some,
{
}

/// Chain names are compared without regard to ASCII case.
pub proof fn lemma_parse_network_ignores_ascii_case(input: Seq<char>)
    ensures
        spec_parse_network(ascii_lowercase(input)) == spec_parse_network(input),
{
    let lower = ascii_lowercase(input);
    assert(ascii_lowercase(lower) =~= lower);
}

/// Whether the text contains `kusama`.
pub open spec fn mentions_kusama(s: Seq<char>) -> bool {
    exists|i: int| 0 <= i && i + 6 <= s.len() && #[trigger] s.subrange(i, i + 6) == "kusama"@
}

/// Whether no `k` in the text is followed by `u`.
spec fn no_k_before_u(s: Seq<char>) -> bool {
    forall|i: int| 0 <= i < s.len() - 1 ==> !(#[trigger] s[i] == 'k' && s[i + 1] == 'u')
}

proof fn lemma_no_k_before_u(s: Seq<char>)
    requires
        no_k_before_u(s),
    ensures
        !mentions_kusama(s),
{
    reveal_strlit("kusama");
    if mentions_kusama(s) {
        let i = choose|i: int| 0 <= i && i + 6 <= s.len() && #[trigger] s.subrange(i, i + 6) == "kusama"@;
        assert(s.subrange(i, i + 6)[0] == 'k');
        assert(s.subrange(i, i + 6)[1] == 'u');
        assert(s[i] == 'k' && s[i + 1] == 'u');
    }
}

/// For a chain name that parses, the network uses the Kusama SS58 prefix (2) exactly
/// when the lower-cased name contains `kusama`, and the Polkadot prefix (0) otherwise.
pub proof fn lemma_ss58_prefix_follows_name(input: Seq<char>)
    ensures
        spec_parse_network(input) matches Ok(network) ==> {
            &&& (spec_ss58_prefix(network) == 2 <==> mentions_kusama(ascii_lowercase(input)))
            &&& (spec_ss58_prefix(network) == 0 <==> !mentions_kusama(ascii_lowercase(input)))
        },
{
    let name = ascii_lowercase(input);
    reveal_strlit("kusama");
    reveal_strlit("asset-hub-polkadot");
    reveal_strlit("polkadot-asset-hub");
    reveal_strlit("bridge-hub-polkadot");
    reveal_strlit("polkadot-bridge-hub");
    reveal_strlit("collectives-polkadot");
    reveal_strlit("polkadot-collectives");
    reveal_strlit("people-polkadot");
    reveal_strlit("polkadot-people");
    reveal_strlit("coretime-polkadot");
    reveal_strlit("polkadot-coretime");
    reveal_strlit("bulletin-polkadot");
    reveal_strlit("polkadot-bulletin");
    reveal_strlit("asset-hub-kusama");
    reveal_strlit("kusama-asset-hub");
    reveal_strlit("bridge-hub-kusama");
    reveal_strlit("kusama-bridge-hub");
    reveal_strlit("people-kusama");
    reveal_strlit("kusama-people");
    reveal_strlit("coretime-kusama");
    reveal_strlit("kusama-coretime");
    if let Some(network) = network_named(name) {
        match network {
            Network::KusamaAssetHub => {
                if name == "asset-hub-kusama"@ {
                    assert(name.subrange(10, 10 + 6int) =~= "kusama"@);
                } else {
                    assert(name.subrange(0, 0 + 6int) =~= "kusama"@);
                }
            },
            Network::KusamaBridgeHub => {
                if name == "bridge-hub-kusama"@ {
                    assert(name.subrange(11, 11 + 6int) =~= "kusama"@);
                } else {
                    assert(name.subrange(0, 0 + 6int) =~= "kusama"@);
                }
            },
            Network::KusamaPeople => {
                if name == "people-kusama"@ {
                    assert(name.subrange(7, 7 + 6int) =~= "kusama"@);
                } else {
                    assert(name.subrange(0, 0 + 6int) =~= "kusama"@);
                }
            },
            Network::KusamaCoretime => {
                if name == "coretime-kusama"@ {
                    assert(name.subrange(9, 9 + 6int) =~= "kusama"@);
                } else {
                    assert(name.subrange(0, 0 + 6int) =~= "kusama"@);
                }
            },
            Network::PolkadotAssetHub | Network::PolkadotBridgeHub
            | Network::PolkadotCollectives | Network::PolkadotPeople
            | Network::PolkadotCoretime | Network::PolkadotBulletin => {
                lemma_no_k_before_u(name);
            },
            // `network_named` never names a relay chain or Encointer.
            _ => {},
        }
    }
}

/// Kusama's ecosystem uses SS58 prefix 2 and Polkadot's uses 0.
pub proof fn lemma_ss58_prefix_matches_relay(network: Network)
    ensures
        (relay_of(network) == Relay::Kusama) <==> (spec_ss58_prefix(network) == 2),
        (relay_of(network) == Relay::Polkadot) <==> (spec_ss58_prefix(network) == 0),
{
}

} // verus!
