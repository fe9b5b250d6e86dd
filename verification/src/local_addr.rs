//! Local addresses: the places a process of this machine can be reached at.
//! They carry no node id, and only some locators are one.

use vstd::prelude::*;
use vstd::std_specs::convert::TryFromSpecImpl;
use crate::error::ParseError;
use crate::locator::NodeLocator;
use crate::zmqsocket::{SocketAddr, SocketLocator};

verus! {

/// The address of a local endpoint.
#[derive(Clone, PartialEq, Eq, Hash, Debug)]
pub enum LocalAddr {
    /// A message-queue socket.
    Zmq(SocketLocator),
    /// A local socket at the given path.
    Posix(String),
}

impl TryFrom<NodeLocator> for LocalAddr {
    type Error = ParseError;

    /// The local address of a locator. A local socket and a queue at a path
    /// or under a name are one; so is a plain queue over TCP that has a
    /// port. Every other locator gives
    /// [`ParseError::UnsupportedForLocalAddr`].
    fn try_from(value: NodeLocator) -> (r: Result<LocalAddr, ParseError>) {
        match value {
            NodeLocator::Posix(path) => Ok(LocalAddr::Posix(path)),
            NodeLocator::ZmqIpc(path, _) => Ok(LocalAddr::Zmq(SocketLocator::Ipc(path))),
            NodeLocator::ZmqInproc(name, _) => Ok(LocalAddr::Zmq(SocketLocator::Inproc(name))),
            NodeLocator::ZmqTcpUnencrypted(_, ip, Some(port)) => Ok(
                LocalAddr::Zmq(SocketLocator::Tcp(SocketAddr::new(ip, port))),
            ),
            _ => Err(ParseError::UnsupportedForLocalAddr),
        }
    }
}

impl TryFromSpecImpl<NodeLocator> for LocalAddr {
    open spec fn obeys_try_from_spec() -> bool {
        true
    }

    open spec fn try_from_spec(value: NodeLocator) -> Result<LocalAddr, ParseError> {
        match value {
            NodeLocator::Posix(path) => Ok(LocalAddr::Posix(path)),
            NodeLocator::ZmqIpc(path, _) => Ok(LocalAddr::Zmq(SocketLocator::Ipc(path))),
            NodeLocator::ZmqInproc(name, _) => Ok(LocalAddr::Zmq(SocketLocator::Inproc(name))),
            NodeLocator::ZmqTcpUnencrypted(_, ip, Some(port)) => Ok(
                LocalAddr::Zmq(SocketLocator::Tcp(SocketAddr { ip, port })),
            ),
            _ => Err(ParseError::UnsupportedForLocalAddr),
        }
    }
}

} // verus!
