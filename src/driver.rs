//! The network driver: the gossip and discovery services as one unit, and
//! the decisions of the loop that runs them.
//!
//! The caller performs the actions that the driver returns (starting the
//! discovery service, listening, dialing) and hands back what came of them.

use vstd::prelude::*;
use crate::address::NetworkAddress;
use crate::bytes::Address;
use crate::handler::{BlockHandler, ExecutionPayloadEnvelope};

verus! {

/// The settings of the gossip service: where it listens and how it judges
/// block messages.
#[derive(Clone, Debug)]
pub struct GossipDriver {
    /// The address the service listens on.
    pub addr: NetworkAddress,
    /// The block handler shared by the gossip behaviour and the driver.
    pub handler: BlockHandler,
    /// The gossipsub configuration, if one other than the default was set.
    pub config: Option<libp2p::gossipsub::Config>,
}

/// The settings of the discovery service.
#[derive(Clone, Copy, Debug)]
pub struct DiscoveryDriver {
    /// The local node's address.
    pub address: NetworkAddress,
    /// The chain whose peers are sought.
    pub chain_id: u64,
}

/// The networking stack of the node.
#[derive(Clone, Debug)]
pub struct NetworkDriver {
    pub gossip: GossipDriver,
    pub discovery: DiscoveryDriver,
}

/// How far the driver's start has come.
#[derive(Clone, Copy, Debug, PartialEq, Eq, Structural)]
pub enum StartPhase {
    /// The discovery service is to be started.
    StartDiscovery,
    /// The gossip service is to start listening.
    Listen,
    /// Both services are up: the loop runs.
    Running,
    /// A service could not be started; the loop never runs.
    Failed,
}

/// What the driver's loop is woken by.
#[derive(Clone, Debug)]
pub enum NetworkEvent {
    /// The discovery channel yielded, with a peer or closed (`None`).
    Peer(Option<NetworkAddress>),
    /// A message arrived on a gossip topic.
    Gossip { topic: String, data: Vec<u8> },
}

/// What the caller is to do on an event.
#[derive(Clone, Debug)]
pub enum NetworkAction {
    /// Nothing.
    Idle,
    /// Dial the peer at this address.
    Dial(NetworkAddress),
    /// Hand the validated block to the node's unsafe block channel.
    Forward(ExecutionPayloadEnvelope),
    /// Reject the message: it is dropped and not propagated.
    Reject,
}

impl NetworkDriver {
    pub open spec fn wf(&self) -> bool {
        &&& self.gossip.handler.wf()
        &&& self.gossip.handler.chain_id == self.discovery.chain_id
        &&& self.gossip.addr@ == self.discovery.address@
    }

    /// The phase after `phase` once the action of `phase` has been performed
    /// with outcome `succeeded`: discovery first, then listening, and only
    /// after both the loop; a failure of either ends the start.
    pub fn start_step(phase: StartPhase, succeeded: bool) -> (r: StartPhase)
        ensures
            phase == StartPhase::StartDiscovery ==> r == (if succeeded { StartPhase::Listen } else { StartPhase::Failed }),
            phase == StartPhase::Listen ==> r == (if succeeded { StartPhase::Running } else { StartPhase::Failed }),
            phase == StartPhase::Running ==> r == StartPhase::Running,
            phase == StartPhase::Failed ==> r == StartPhase::Failed,
    {
        match phase {
            StartPhase::StartDiscovery => if succeeded { StartPhase::Listen } else { StartPhase::Failed },
            StartPhase::Listen => if succeeded { StartPhase::Running } else { StartPhase::Failed },
            StartPhase::Running => StartPhase::Running,
            StartPhase::Failed => StartPhase::Failed,
        }
    }

    /// What to do with a peer from the discovery channel: dial it if there
    /// is one, nothing otherwise.
    pub fn dial_opt(peer: Option<NetworkAddress>) -> (r: NetworkAction)
        ensures
            match peer {
                Some(a) => r matches NetworkAction::Dial(b) && b@ == a@,
                None => r is Idle,
            },
    {
        match peer {
            Some(a) => NetworkAction::Dial(a),
            None => NetworkAction::Idle,
        }
    }

    /// Handles a gossip message: a block that the handler accepts is
    /// forwarded, any other message is rejected.
    pub fn handle_message(&self, topic: &String, data: &[u8]) -> (r: NetworkAction)
        ensures
            r is Forward <==> self.gossip.handler.accepts(topic@, data@),
            r is Forward || r is Reject,
            r matches NetworkAction::Forward(e) ==> e.decodes(self.gossip.handler.version_spec(topic@)->Some_0, data@),
    {
        match self.gossip.handler.handle(topic, data) {
            Some(e) => NetworkAction::Forward(e),
            None => NetworkAction::Reject,
        }
    }

    /// The action for one event of the running loop.
    pub fn handle_event(&self, event: &NetworkEvent) -> (r: NetworkAction)
        ensures
            match event {
                NetworkEvent::Peer(Some(a)) => r matches NetworkAction::Dial(b) && b@ == a@,
                NetworkEvent::Peer(None) => r is Idle,
                NetworkEvent::Gossip { topic, data } => {
                    &&& (r is Forward <==> self.gossip.handler.accepts(topic@, data@))
                    &&& (r is Forward || r is Reject)
                },
            },
    {
        match event {
            NetworkEvent::Peer(p) => NetworkDriver::dial_opt(*p),
            NetworkEvent::Gossip { topic, data } => self.handle_message(topic, data.as_slice()),
        }
    }

    /// Applies an update of the unsafe block signer, which every message
    /// handled afterwards is checked against.
    pub fn update_unsafe_block_signer(&mut self, signer: Address)
        requires
            old(self).wf(),
        ensures
            final(self).wf(),
            final(self).gossip.handler.unsafe_block_signer@ == signer@,
            final(self).gossip.handler.chain_id == old(self).gossip.handler.chain_id,
            final(self).gossip.addr@ == old(self).gossip.addr@,
            final(self).discovery@ == old(self).discovery@,
    {
        self.gossip.handler.set_unsafe_block_signer(signer);
    }
}

impl DiscoveryDriver {
    pub open spec fn view(&self) -> ((Seq<u8>, u16), u64) {
        (self.address@, self.chain_id)
    }
}

} // verus!
