//! Assembly of the network driver from its configuration.

use vstd::prelude::*;
use crate::address::{AddressError, NetworkAddress, SocketAddress, network_address_of};
use crate::bytes::Address;
use crate::driver::{DiscoveryDriver, GossipDriver, NetworkDriver};
use crate::handler::BlockHandler;

verus! {

#[verifier::external_type_specification]
#[verifier::external_body]
pub struct ExGossipConfig(libp2p::gossipsub::Config);

/// Collects the configuration of a [`NetworkDriver`].
#[derive(Clone, Debug)]
pub struct NetworkDriverBuilder {
    /// The gossipsub configuration; the default one when not set.
    pub gossip_config: Option<libp2p::gossipsub::Config>,
    /// The chain ID of the network.
    pub chain_id: Option<u64>,
    /// The initial unsafe block signer.
    pub unsafe_block_signer: Option<Address>,
    /// The socket address that the services listen on.
    pub socket: Option<SocketAddress>,
}

/// Why a driver could not be built.
#[derive(Clone, Copy, Debug, PartialEq, Eq, Structural)]
pub enum BuildError {
    MissingUnsafeBlockSigner,
    MissingChainId,
    MissingSocket,
    InvalidSocket(AddressError),
}

/// The description of a missing field.
pub open spec fn missing_field_message(e: BuildError) -> Seq<char> {
    match e {
        BuildError::MissingUnsafeBlockSigner => "unsafe block signer not set"@,
        BuildError::MissingChainId => "chain ID not set"@,
        BuildError::MissingSocket => "socket address not set"@,
        BuildError::InvalidSocket(_) => Seq::empty(),
    }
}

impl BuildError {
    /// A human-readable description of the error, distinct for each missing
    /// field.
    pub fn message(&self) -> (r: String)
        ensures
            !(self is InvalidSocket) ==> r@ == missing_field_message(*self),
    {
        match self {
            BuildError::MissingUnsafeBlockSigner => String::from_str("unsafe block signer not set"),
            BuildError::MissingChainId => String::from_str("chain ID not set"),
            BuildError::MissingSocket => String::from_str("socket address not set"),
            BuildError::InvalidSocket(e) => e.message(),
        }
    }
}

/// The error that building from this configuration gives, if any: the
/// signer is checked first, then the chain ID, then the socket.
pub open spec fn build_error(b: NetworkDriverBuilder) -> Option<BuildError> {
    if b.unsafe_block_signer is None {
        Some(BuildError::MissingUnsafeBlockSigner)
    } else if b.chain_id is None {
        Some(BuildError::MissingChainId)
    } else if b.socket is None {
        Some(BuildError::MissingSocket)
    } else if network_address_of(b.socket->Some_0) is None {
        Some(BuildError::InvalidSocket(AddressError::UnsupportedFamily))
    } else {
        None
    }
}

impl NetworkDriver {
    /// A builder with nothing set.
    pub fn builder() -> (r: NetworkDriverBuilder)
        ensures
            r.chain_id is None,
            r.unsafe_block_signer is None,
            r.socket is None,
    {
        NetworkDriverBuilder::new()
    }
}

/// Each required field, left out alone, makes the build fail with that
/// field's own error, and the three messages differ.
pub proof fn lemma_missing_field_errors(signer: Address, chain_id: u64, socket: SocketAddress)
    ensures
        build_error(NetworkDriverBuilder { gossip_config: None, chain_id: Some(chain_id), unsafe_block_signer: None, socket: Some(socket) })
            == Some(BuildError::MissingUnsafeBlockSigner),
        build_error(NetworkDriverBuilder { gossip_config: None, chain_id: None, unsafe_block_signer: Some(signer), socket: Some(socket) })
            == Some(BuildError::MissingChainId),
        build_error(NetworkDriverBuilder { gossip_config: None, chain_id: Some(chain_id), unsafe_block_signer: Some(signer), socket: None })
            == Some(BuildError::MissingSocket),
        missing_field_message(BuildError::MissingUnsafeBlockSigner) != missing_field_message(BuildError::MissingChainId),
        missing_field_message(BuildError::MissingUnsafeBlockSigner) != missing_field_message(BuildError::MissingSocket),
        missing_field_message(BuildError::MissingChainId) != missing_field_message(BuildError::MissingSocket),
{
    reveal_strlit("unsafe block signer not set");
    reveal_strlit("chain ID not set");
    reveal_strlit("socket address not set");
    assert("unsafe block signer not set"@[0] != "chain ID not set"@[0]);
    assert("unsafe block signer not set"@[0] != "socket address not set"@[0]);
    assert("chain ID not set"@[0] != "socket address not set"@[0]);
}

/// With all three required fields set and an IPv4 socket, the build
/// succeeds.
pub proof fn lemma_complete_configuration_builds(signer: Address, chain_id: u64, ip: [u8; 4], port: u16)
    ensures
        build_error(NetworkDriverBuilder {
            gossip_config: None,
            chain_id: Some(chain_id),
            unsafe_block_signer: Some(signer),
            socket: Some(SocketAddress::V4 { ip, port }),
        }) is None,
{
}

impl NetworkDriverBuilder {
    /// A builder with nothing set.
    pub fn new() -> (r: NetworkDriverBuilder)
        ensures
            r.chain_id is None,
            r.unsafe_block_signer is None,
            r.socket is None,
            r.gossip_config is None,
    {
        NetworkDriverBuilder { gossip_config: None, chain_id: None, unsafe_block_signer: None, socket: None }
    }

    /// Sets the chain ID of the network.
    pub fn with_chain_id(&mut self, chain_id: u64) -> (r: &mut Self)
        ensures
            *r == (NetworkDriverBuilder { chain_id: Some(chain_id), ..*old(self) }),
            *final(self) == *final(r),
    {
        self.chain_id = Some(chain_id);
        self
    }

    /// Sets the initial unsafe block signer.
    pub fn with_unsafe_block_signer(&mut self, unsafe_block_signer: Address) -> (r: &mut Self)
        ensures
            *r == (NetworkDriverBuilder { unsafe_block_signer: Some(unsafe_block_signer), ..*old(self) }),
            *final(self) == *final(r),
    {
        self.unsafe_block_signer = Some(unsafe_block_signer);
        self
    }

    /// Sets the gossipsub configuration. Without it the driver runs the
    /// default one, which callers can also start from and extend.
    pub fn with_gossip_config(&mut self, cfg: libp2p::gossipsub::Config) -> (r: &mut Self)
        ensures
            *r == (NetworkDriverBuilder { gossip_config: Some(cfg), ..*old(self) }),
            *final(self) == *final(r),
    {
        self.gossip_config = Some(cfg);
        self
    }

    /// Sets the socket address that the services listen on.
    pub fn with_socket(&mut self, socket: SocketAddress) -> (r: &mut Self)
        ensures
            *r == (NetworkDriverBuilder { socket: Some(socket), ..*old(self) }),
            *final(self) == *final(r),
    {
        self.socket = Some(socket);
        self
    }

    /// Builds the driver: its handler knows the chain, the signer and the
    /// three block topics of the chain; both services use the listen
    /// address; the gossipsub configuration, if one was set, is moved into
    /// the driver.
    pub fn build(&mut self) -> (r: Result<NetworkDriver, BuildError>)
        ensures
            match build_error(*old(self)) {
                Some(e) => r == Err::<NetworkDriver, BuildError>(e),
                None => r matches Ok(d) && {
                    &&& d.wf()
                    &&& d.gossip.handler.chain_id == old(self).chain_id->Some_0
                    &&& d.gossip.handler.unsafe_block_signer@ == old(self).unsafe_block_signer->Some_0@
                    &&& Some(d.gossip.addr@) == network_address_of(old(self).socket->Some_0)
                    &&& d.gossip.config == old(self).gossip_config
                },
            },
            final(self).chain_id == old(self).chain_id,
            final(self).unsafe_block_signer == old(self).unsafe_block_signer,
            final(self).socket == old(self).socket,
            build_error(*old(self)) is None ==> final(self).gossip_config is None,
            build_error(*old(self)) is Some ==> final(self).gossip_config == old(self).gossip_config,
    {
        let unsafe_block_signer = match self.unsafe_block_signer {
            Some(s) => s,
            None => return Err(BuildError::MissingUnsafeBlockSigner),
        };
        let chain_id = match self.chain_id {
            Some(c) => c,
            None => return Err(BuildError::MissingChainId),
        };
        let socket = match self.socket {
            Some(s) => s,
            None => return Err(BuildError::MissingSocket),
        };
        let addr = match NetworkAddress::try_from_socket(socket) {
            Ok(a) => a,
            Err(e) => return Err(BuildError::InvalidSocket(e)),
        };
        let handler = BlockHandler::new(chain_id, unsafe_block_signer);
        let config = self.gossip_config.take();
        Ok(NetworkDriver {
            gossip: GossipDriver { addr, handler, config },
            discovery: DiscoveryDriver { address: addr, chain_id },
        })
    }
}

} // verus!
