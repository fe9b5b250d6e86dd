//! What a locator says of a message-queue socket: the role of its endpoint
//! and where the socket is.

use vstd::prelude::*;
use crate::inet::IpAddr;
use crate::text::same_text;

verus! {

/// The role of a message-queue endpoint.
#[derive(Clone, Copy, Debug, PartialEq, Eq, Hash, Structural)]
pub enum ApiType {
    /// The end of a peer socket that was bound and listens.
    PeerListening,
    /// The end of a peer socket that connects.
    PeerConnecting,
    /// The client of a request and reply pair.
    Client,
    /// The server of a request and reply pair.
    Server,
    /// The subscriber of a publishing socket.
    Subscribe,
    /// A member of a service bus.
    EsbService,
}

/// The role that a token of a URL stands for, in lower case. `p2p` is read
/// as the connecting end: a text never yields the listening one.
pub open spec fn role_of_token(token: Seq<char>) -> Option<ApiType> {
    if token == "p2p"@ {
        Some(ApiType::PeerConnecting)
    } else if token == "rpc"@ {
        Some(ApiType::Client)
    } else if token == "sub"@ {
        Some(ApiType::Subscribe)
    } else if token == "esb"@ {
        Some(ApiType::EsbService)
    } else {
        None
    }
}

impl ApiType {
    /// The token that a URL shows for this role. The two ends of a peer
    /// socket share one token, and so do client and server.
    pub open spec fn name(self) -> Seq<char> {
        match self {
            ApiType::PeerListening | ApiType::PeerConnecting => "p2p"@,
            ApiType::Client | ApiType::Server => "rpc"@,
            ApiType::Subscribe => "sub"@,
            ApiType::EsbService => "esb"@,
        }
    }

    /// Whether two roles describe one endpoint: they are the same role, or
    /// one is the listening and the other the connecting end of a peer
    /// socket.
    pub open spec fn merges_with(self, other: ApiType) -> bool {
        self == other || (self == ApiType::PeerListening && other == ApiType::PeerConnecting) || (
        self == ApiType::PeerConnecting && other == ApiType::PeerListening)
    }

    /// The token that a URL shows for this role.
    pub fn api_name(&self) -> (r: &'static str)
        ensures
            r@ == self.name(),
    {
        match self {
            ApiType::PeerListening | ApiType::PeerConnecting => "p2p",
            ApiType::Client | ApiType::Server => "rpc",
            ApiType::Subscribe => "sub",
            ApiType::EsbService => "esb",
        }
    }

    /// Reads a role from its token, which is in lower case.
    pub fn from_token(token: &str) -> (r: Option<ApiType>)
        ensures
            r == role_of_token(token@),
    {
        if same_text(token, "p2p") {
            Some(ApiType::PeerConnecting)
        } else if same_text(token, "rpc") {
            Some(ApiType::Client)
        } else if same_text(token, "sub") {
            Some(ApiType::Subscribe)
        } else if same_text(token, "esb") {
            Some(ApiType::EsbService)
        } else {
            None
        }
    }

    /// Whether this role and the other describe one endpoint.
    pub fn same_endpoint(&self, other: &ApiType) -> (r: bool)
        ensures
            r == self.merges_with(*other),
    {
        *self == *other || (*self == ApiType::PeerListening && *other == ApiType::PeerConnecting)
            || (*self == ApiType::PeerConnecting && *other == ApiType::PeerListening)
    }
}

/// An IP address with a port.
#[derive(Clone, Copy, Debug, PartialEq, Eq, Hash)]
pub struct SocketAddr {
    pub ip: IpAddr,
    pub port: u16,
}

impl SocketAddr {
    /// The socket address of an IP address and a port.
    pub fn new(ip: IpAddr, port: u16) -> (r: SocketAddr)
        ensures
            r == (SocketAddr { ip, port }),
    {
        SocketAddr { ip, port }
    }
}

/// Where a message-queue socket is.
#[derive(Clone, PartialEq, Eq, Hash, Debug)]
pub enum SocketLocator {
    /// Inside this process, under a name.
    Inproc(String),
    /// On this machine, at a path of the file system.
    Ipc(String),
    /// On the network.
    Tcp(SocketAddr),
}

} // verus!
