//! Listen addresses of the network stack.

use vstd::prelude::*;
use crate::topic::{append_decimal, decimal};

verus! {

/// A socket address: an IP address of either family and a port.
#[derive(Clone, Copy, Debug)]
pub enum SocketAddress {
    V4 { ip: [u8; 4], port: u16 },
    V6 { ip6: [u8; 16], port6: u16 },
}

/// An IPv4 host and TCP port that the gossip and discovery services use.
#[derive(Clone, Copy, Debug)]
pub struct NetworkAddress {
    pub ip: [u8; 4],
    pub port: u16,
}

/// Why a socket address cannot serve as a network address.
#[derive(Clone, Copy, Debug, PartialEq, Eq, Structural)]
pub enum AddressError {
    /// Only IPv4 addresses are supported.
    UnsupportedFamily,
}

impl AddressError {
    /// A human-readable description of the error.
    pub fn message(&self) -> String {
        String::from_str("IPv6 addresses are not supported")
    }
}

/// The network address that a socket address converts to, if any.
pub open spec fn network_address_of(s: SocketAddress) -> Option<(Seq<u8>, u16)> {
    match s {
        SocketAddress::V4 { ip, port } => Some((ip@, port)),
        SocketAddress::V6 { .. } => None,
    }
}

/// The multiaddress text of an IPv4 host and TCP port:
/// `/ip4/a.b.c.d/tcp/port`.
pub open spec fn multiaddr_spec(ip: Seq<u8>, port: u16) -> Seq<char> {
    "/ip4/"@ + decimal(ip[0] as nat) + "."@ + decimal(ip[1] as nat) + "."@ + decimal(ip[2] as nat)
        + "."@ + decimal(ip[3] as nat) + "/tcp/"@ + decimal(port as nat)
}

impl NetworkAddress {
    pub open spec fn view(&self) -> (Seq<u8>, u16) {
        (self.ip@, self.port)
    }

    /// The transport multiaddress of the host and port, as text.
    pub fn multiaddr(&self) -> (r: String)
        ensures
            r@ == multiaddr_spec(self.ip@, self.port),
    {
        let mut s = String::from_str("/ip4/");
        append_decimal(&mut s, self.ip[0] as u64);
        s.append(".");
        append_decimal(&mut s, self.ip[1] as u64);
        s.append(".");
        append_decimal(&mut s, self.ip[2] as u64);
        s.append(".");
        append_decimal(&mut s, self.ip[3] as u64);
        s.append("/tcp/");
        append_decimal(&mut s, self.port as u64);
        assert(s@ =~= multiaddr_spec(self.ip@, self.port));
        s
    }

    /// Converts a socket address; IPv6 addresses are refused.
    pub fn try_from_socket(socket: SocketAddress) -> (r: Result<NetworkAddress, AddressError>)
        ensures
            match network_address_of(socket) {
                Some(a) => r matches Ok(n) && n@ == a,
                None => r == Err::<NetworkAddress, AddressError>(AddressError::UnsupportedFamily),
            },
    {
        match socket {
            SocketAddress::V4 { ip, port } => Ok(NetworkAddress { ip, port }),
            SocketAddress::V6 { .. } => Err(AddressError::UnsupportedFamily),
        }
    }
}

} // verus!
