//! The calls that a proposal consists of: the call to run on the target chain, and
//! the call that carries it there from the Asset Hub on which OpenGov votes.

use vstd::prelude::*;
use crate::network::{relay_of, spec_para_id, supports_collator_selection, Network, Relay};

verus! {

/// The BLAKE2b-256 digest of the bytes, as sp-core computes it.
pub uninterp spec fn blake2_256_digest(data: Seq<u8>) -> Seq<u8>;

/// sp-core's `Blake2Hasher::hash`, the 256-bit BLAKE2b digest of the bytes. The digest
/// itself is named `blake2_256_digest`; its value is not written out.
#[verifier::external_body]
fn blake2_256(data: &[u8]) -> (res: [u8; 32])
    ensures
        res@ == blake2_256_digest(data@),
{
    <sp_core::Blake2Hasher as sp_core::Hasher>::hash(data).0
}

/// A call encoded for a given chain, with its hash.
#[derive(Clone, Debug)]
pub struct CallInfo {
    pub network: Network,
    pub encoded: Vec<u8>,
    pub hash: [u8; 32],
}

impl CallInfo {
    /// The call info of an encoded call for the given chain.
    pub fn from_encoded(network: Network, encoded: Vec<u8>) -> (res: CallInfo)
        ensures
            res.network == network,
            res.encoded@ == encoded@,
            res.hash@ == blake2_256_digest(encoded@),
    {
        let hash = blake2_256(encoded.as_slice());
        CallInfo { network, encoded, hash }
    }

    /// An identical copy.
    pub fn duplicate(&self) -> (res: CallInfo)
        ensures
            res.network == self.network,
            res.encoded@ == self.encoded@,
            res.hash@ == self.hash@,
    {
        CallInfo { network: self.network, encoded: self.encoded.clone(), hash: self.hash }
    }
}

/// The call that extends a target chain's invulnerable collators.
#[derive(Clone, Debug)]
pub enum CollatorCall {
    /// `collatorSelection.addInvulnerable(who)`.
    AddInvulnerable { who: [u8; 32] },
    /// `utility.forceBatch` of one `collatorSelection.addInvulnerable` per account, in
    /// order, so that one failing addition does not revert the others.
    ForceBatchAddInvulnerable { who: Vec<[u8; 32]> },
}

/// A collator call together with the chain it is meant for.
#[derive(Clone, Debug)]
pub struct TargetCall {
    pub network: Network,
    pub call: CollatorCall,
}

/// The accounts, in order, that a collator call makes invulnerable.
pub open spec fn added_accounts(call: CollatorCall) -> Seq<Seq<u8>> {
    match call {
        CollatorCall::AddInvulnerable { who } => seq![who@],
        CollatorCall::ForceBatchAddInvulnerable { who } => who@.map_values(|a: [u8; 32]| a@),
    }
}

/// Constructs the call to execute on the target chain: one `addInvulnerable` per
/// account, wrapped in `utility.forceBatch` when there is more than one account.
pub fn build_add_invulnerables_call(network: &Network, accounts: &[[u8; 32]]) -> (res: TargetCall)
    requires
        accounts.len() > 0,
        supports_collator_selection(*network),
    ensures
        res.network == *network,
        added_accounts(res.call) == accounts@.map_values(|a: [u8; 32]| a@),
        res.call is AddInvulnerable <==> accounts.len() == 1,
{
    let call = if accounts.len() == 1 {
        let call = CollatorCall::AddInvulnerable { who: accounts[0] };
        assert(added_accounts(call) =~= accounts@.map_values(|a: [u8; 32]| a@));
        call
    } else {
        CollatorCall::ForceBatchAddInvulnerable { who: vstd::slice::slice_to_vec(accounts) }
    };
    TargetCall { network: *network, call }
}

/// How an XCM `Transact` chooses the origin that dispatches its call.
#[derive(Clone, Copy, Debug, PartialEq, Eq, Structural)]
pub enum OriginKind {
    Native,
    SovereignAccount,
    Superuser,
    Xcm,
}

/// The interior of a location seen from a parachain, one level up at the relay chain.
#[derive(Clone, Copy, Debug, PartialEq, Eq, Structural)]
pub enum Interior {
    /// The relay chain itself.
    Here,
    /// The parachain with this id.
    Parachain(u32),
}

/// An XCM location.
#[derive(Clone, Copy, Debug, PartialEq, Eq, Structural)]
pub struct Location {
    pub parents: u8,
    pub interior: Interior,
}

/// An XCM instruction of the messages built here.
#[derive(Clone, Debug)]
pub enum Instruction {
    /// `UnpaidExecution` with an unlimited weight limit and no origin check.
    UnpaidExecution,
    /// `Transact` of an encoded call with the given origin kind and no fallback weight.
    Transact { origin_kind: OriginKind, call: Vec<u8> },
}

/// `pallet_xcm.send` of a message to a destination.
#[derive(Clone, Debug)]
pub struct XcmSend {
    pub dest: Location,
    pub message: Vec<Instruction>,
}

/// A call to execute on the Asset Hub of one of the relay chains.
#[derive(Clone, Debug)]
pub struct AssetHubCall {
    pub asset_hub: Relay,
    pub send: XcmSend,
}

/// The location, seen from an Asset Hub, at which a call for the network executes.
pub open spec fn spec_destination(network: Network) -> Location {
    match spec_para_id(network) {
        Some(id) => Location { parents: 1, interior: Interior::Parachain(id) },
        None => Location { parents: 1, interior: Interior::Here },
    }
}

/// Whether a send carries the call to the destination, where it is dispatched with
/// the given origin kind, without paying for execution.
pub open spec fn sends_call(send: XcmSend, dest: Location, origin_kind: OriginKind, call: Seq<u8>) -> bool {
    &&& send.dest == dest
    &&& send.message@.len() == 2
    &&& send.message@[0] is UnpaidExecution
    &&& send.message@[1] matches Instruction::Transact { origin_kind: o, call: c } && o == origin_kind
        && c@ == call
}

fn xcm_send(auth: &CallInfo, origin_kind: OriginKind) -> (res: XcmSend)
    ensures
        sends_call(res, spec_destination(auth.network), origin_kind, auth.encoded@),
{
    let dest = match auth.network.get_para_id() {
        Some(para_id) => Location { parents: 1, interior: Interior::Parachain(para_id) },
        None => Location { parents: 1, interior: Interior::Here },
    };
    let message = vec![
        Instruction::UnpaidExecution,
        Instruction::Transact { origin_kind, call: auth.encoded.clone() },
    ];
    XcmSend { dest, message }
}

/// Wraps a call, which includes its intended destination, in XCM instructions to `send`
/// it from Polkadot Asset Hub and have it execute on its destination with the given
/// origin kind: `Superuser` to dispatch as Root, or `Xcm` to dispatch as the origin of
/// the sending referendum track.
pub fn send_from_polkadot_asset_hub(auth: &CallInfo, origin_kind: OriginKind) -> (res: AssetHubCall)
    ensures
        res.asset_hub == Relay::Polkadot,
        sends_call(res.send, spec_destination(auth.network), origin_kind, auth.encoded@),
{
    AssetHubCall { asset_hub: Relay::Polkadot, send: xcm_send(auth, origin_kind) }
}

/// As `send_from_polkadot_asset_hub`, but sending from Kusama Asset Hub.
pub fn send_from_kusama_asset_hub(auth: &CallInfo, origin_kind: OriginKind) -> (res: AssetHubCall)
    ensures
        res.asset_hub == Relay::Kusama,
        sends_call(res.send, spec_destination(auth.network), origin_kind, auth.encoded@),
{
    AssetHubCall { asset_hub: Relay::Kusama, send: xcm_send(auth, origin_kind) }
}

/// Sends the call from Polkadot Asset Hub to its parachain, where it is dispatched with
/// the origin of the sending referendum track rather than as Root.
pub fn send_as_staking_admin_polkadot(target: &CallInfo) -> (res: AssetHubCall)
    requires
        spec_para_id(target.network) is Some,
    ensures
        res.asset_hub == Relay::Polkadot,
        sends_call(res.send, spec_destination(target.network), OriginKind::Xcm, target.encoded@),
{
    send_from_polkadot_asset_hub(target, OriginKind::Xcm)
}

/// As `send_as_staking_admin_polkadot`, but sending from Kusama Asset Hub.
pub fn send_as_staking_admin_kusama(target: &CallInfo) -> (res: AssetHubCall)
    requires
        spec_para_id(target.network) is Some,
    ensures
        res.asset_hub == Relay::Kusama,
        sends_call(res.send, spec_destination(target.network), OriginKind::Xcm, target.encoded@),
{
    send_from_kusama_asset_hub(target, OriginKind::Xcm)
}

/// The proposal to be voted on the governance chain.
#[derive(Clone, Debug)]
pub enum Proposal {
    /// The target call itself, which the Asset Hub executes.
    Direct(CallInfo),
    /// A call of an Asset Hub that carries the target call to its chain.
    FromAssetHub(AssetHubCall),
}

/// Whether a network is the Asset Hub of its ecosystem.
pub open spec fn is_asset_hub(network: Network) -> bool {
    network is PolkadotAssetHub || network is KusamaAssetHub
}

/// Whether the proposal, once enacted on the target's Asset Hub, makes the target
/// call execute on the target chain with the staking admin track's origin.
pub open spec fn proposal_delivers(proposal: Proposal, target: CallInfo) -> bool {
    if is_asset_hub(target.network) {
        proposal matches Proposal::Direct(c) && c.network == target.network
            && c.encoded@ == target.encoded@ && c.hash@ == target.hash@
    } else {
        proposal matches Proposal::FromAssetHub(ah) && ah.asset_hub == relay_of(target.network)
            && sends_call(ah.send, spec_destination(target.network), OriginKind::Xcm, target.encoded@)
            && spec_destination(target.network).interior != Interior::Here
    }
}

/// The Asset Hub of a relay chain's ecosystem.
pub open spec fn asset_hub_of(relay: Relay) -> Network {
    match relay {
        Relay::Polkadot => Network::PolkadotAssetHub,
        Relay::Kusama => Network::KusamaAssetHub,
    }
}

/// The chain on which a proposal executes.
pub open spec fn proposal_network(proposal: Proposal) -> Network {
    match proposal {
        Proposal::Direct(call) => call.network,
        Proposal::FromAssetHub(call) => asset_hub_of(call.asset_hub),
    }
}

/// Wraps the target-chain call into the proposal to be voted on the governance chain,
/// Asset Hub. For Asset Hub itself the proposal is the call; for every other chain it
/// is an XCM `send` to the target with `Transact { origin_kind: Xcm }`.
pub fn wrap_for_governance(target: &CallInfo) -> (res: Proposal)
    requires
        supports_collator_selection(target.network),
    ensures
        proposal_delivers(res, *target),
        proposal_network(res) == asset_hub_of(relay_of(target.network)),
{
    match target.network {
        Network::PolkadotAssetHub | Network::KusamaAssetHub => Proposal::Direct(target.duplicate()),
        Network::PolkadotBridgeHub | Network::PolkadotCollectives | Network::PolkadotPeople
        | Network::PolkadotCoretime | Network::PolkadotBulletin => Proposal::FromAssetHub(
            send_as_staking_admin_polkadot(target),
        ),
        Network::KusamaBridgeHub | Network::KusamaPeople | Network::KusamaCoretime => {
            Proposal::FromAssetHub(send_as_staking_admin_kusama(target))
        },
        // Ruled out by the precondition: these chains have no collator selection to extend.
        Network::Polkadot | Network::Kusama | Network::KusamaEncointer => Proposal::Direct(
            target.duplicate(),
        ),
    }
}

/// A proposal is not wrapped again: every proposal executes on an Asset Hub, and the
/// call that encodes it, wrapped for governance once more, is proposed as it is.
pub proof fn lemma_wrapped_proposal_is_not_wrapped_again(
    target: CallInfo,
    proposal: Proposal,
    proposal_call: CallInfo,
    rewrapped: Proposal,
)
    requires
        supports_collator_selection(target.network),
        proposal_delivers(proposal, target),
        proposal_call.network == proposal_network(proposal),
        proposal_delivers(rewrapped, proposal_call),
    ensures
        is_asset_hub(proposal_call.network),
        supports_collator_selection(proposal_call.network),
        rewrapped matches Proposal::Direct(c) && c.network == proposal_call.network
            && c.encoded@ == proposal_call.encoded@ && c.hash@ == proposal_call.hash@,
{
}

} // verus!
