//! Node addresses: a node id with a remote address that is complete, port
//! included. A locator may lack the port; a node address never does.

use vstd::prelude::*;
use vstd::std_specs::convert::{FromSpecImpl, TryFromSpecImpl};
use crate::inet::InetAddr;
use crate::locator::NodeLocator;
use crate::node_id::NodeId;
use crate::zmqsocket::{ApiType, SocketAddr};

verus! {

/// A network address with a port.
#[derive(Clone, Copy, Debug, PartialEq, Eq, Hash)]
pub struct InetSocketAddr {
    pub address: InetAddr,
    pub port: u16,
}

impl InetSocketAddr {
    /// The socket address of a network address and a port.
    pub fn new(address: InetAddr, port: u16) -> (r: InetSocketAddr)
        ensures
            r == (InetSocketAddr { address, port }),
    {
        InetSocketAddr { address, port }
    }
}

/// The remote end of a connection, by its transport.
#[derive(Clone, Copy, Debug, PartialEq, Eq, Hash)]
pub enum RemoteAddr {
    /// The native, encrypted connection over TCP.
    Ftcp(InetSocketAddr),
    /// An encrypted message queue over TCP.
    Zmq(SocketAddr),
}

/// A node and the remote address it is reached at.
#[derive(Clone, Copy, Debug, PartialEq, Eq, Hash)]
pub struct NodeAddr {
    pub node_id: NodeId,
    pub remote_addr: RemoteAddr,
}

/// Why a locator is no node address.
#[derive(Clone, Copy, Debug, PartialEq, Eq, Hash, Structural)]
pub enum Error {
    /// The locator's transport has a remote address, but the locator has no
    /// port.
    NoPort,
    /// The locator's transport has no remote address.
    UnsupportedType,
}

impl TryFrom<NodeLocator> for NodeAddr {
    type Error = Error;

    /// The node address of a locator. Only the native connection and the
    /// encrypted queue have one, and only with a port: without it they give
    /// [`Error::NoPort`]. Every other locator gives
    /// [`Error::UnsupportedType`].
    fn try_from(locator: NodeLocator) -> (r: Result<NodeAddr, Error>) {
        match locator {
            NodeLocator::Native(node_id, address, Some(port)) => Ok(
                NodeAddr {
                    node_id,
                    remote_addr: RemoteAddr::Ftcp(InetSocketAddr::new(address, port)),
                },
            ),
            NodeLocator::ZmqTcpEncrypted(node_id, _, ip, Some(port)) => Ok(
                NodeAddr { node_id, remote_addr: RemoteAddr::Zmq(SocketAddr::new(ip, port)) },
            ),
            NodeLocator::Native(_, _, None) | NodeLocator::ZmqTcpEncrypted(_, _, _, None) => Err(
                Error::NoPort,
            ),
            _ => Err(Error::UnsupportedType),
        }
    }
}

impl TryFromSpecImpl<NodeLocator> for NodeAddr {
    open spec fn obeys_try_from_spec() -> bool {
        true
    }

    open spec fn try_from_spec(locator: NodeLocator) -> Result<NodeAddr, Error> {
        match locator {
            NodeLocator::Native(node_id, address, Some(port)) => Ok(
                NodeAddr {
                    node_id,
                    remote_addr: RemoteAddr::Ftcp(InetSocketAddr { address, port }),
                },
            ),
            NodeLocator::ZmqTcpEncrypted(node_id, _, ip, Some(port)) => Ok(
                NodeAddr { node_id, remote_addr: RemoteAddr::Zmq(SocketAddr { ip, port }) },
            ),
            NodeLocator::Native(_, _, None) | NodeLocator::ZmqTcpEncrypted(_, _, _, None) => Err(
                Error::NoPort,
            ),
            _ => Err(Error::UnsupportedType),
        }
    }
}

impl From<NodeAddr> for NodeLocator {
    /// The locator of a node address: the native connection or the encrypted
    /// queue, with the port. The queue gets the connecting role.
    fn from(addr: NodeAddr) -> (r: NodeLocator) {
        match addr.remote_addr {
            RemoteAddr::Ftcp(socket) => NodeLocator::Native(
                addr.node_id,
                socket.address,
                Some(socket.port),
            ),
            RemoteAddr::Zmq(socket) => NodeLocator::ZmqTcpEncrypted(
                addr.node_id,
                ApiType::PeerConnecting,
                socket.ip,
                Some(socket.port),
            ),
        }
    }
}

impl FromSpecImpl<NodeAddr> for NodeLocator {
    open spec fn obeys_from_spec() -> bool {
        true
    }

    open spec fn from_spec(addr: NodeAddr) -> NodeLocator {
        match addr.remote_addr {
            RemoteAddr::Ftcp(socket) => NodeLocator::Native(
                addr.node_id,
                socket.address,
                Some(socket.port),
            ),
            RemoteAddr::Zmq(socket) => NodeLocator::ZmqTcpEncrypted(
                addr.node_id,
                ApiType::PeerConnecting,
                socket.ip,
                Some(socket.port),
            ),
        }
    }
}

} // verus!
