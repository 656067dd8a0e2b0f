//! Where the proposal is written and how the user is told to submit it.

use vstd::prelude::*;
use crate::network::{relay_of, Network, Relay};
use crate::text::{ascii_lowercase, to_ascii_lowercase};

verus! {

/// The file name used when the user gives none: `./add-invulnerables-<network>.call`,
/// with the network's name as given, in lower case.
pub open spec fn spec_default_output_filename(network_input: Seq<char>) -> Seq<char> {
    "./add-invulnerables-"@ + ascii_lowercase(network_input) + ".call"@
}

/// The file to which the proposal is written: the user's choice, if any, else the
/// default for the network.
pub fn output_filename(user_filename: &Option<String>, network_input: &str) -> (res: String)
    ensures
        match user_filename {
            Some(f) => res@ == f@,
            None => res@ == spec_default_output_filename(network_input@),
        },
{
    match user_filename {
        Some(f) => f.clone(),
        None => {
            let name = to_ascii_lowercase(network_input);
            let mut res = String::new();
            res.append("./add-invulnerables-");
            res.append(name.as_str());
            res.append(".call");
            assert(res@ =~= spec_default_output_filename(network_input@));
            res
        },
    }
}

/// The relay chain named in the referendum submission command: `kusama` for the
/// Kusama ecosystem, `polkadot` otherwise.
pub fn relay_name(network: &Network) -> (res: &'static str)
    ensures
        relay_of(*network) == Relay::Kusama ==> res@ == "kusama"@,
        relay_of(*network) == Relay::Polkadot ==> res@ == "polkadot"@,
{
    match network {
        Network::Kusama | Network::KusamaAssetHub | Network::KusamaEncointer
        | Network::KusamaBridgeHub | Network::KusamaPeople | Network::KusamaCoretime => "kusama",
        _ => "polkadot",
    }
}

} // verus!
