//! The node locator: the address of a node over one of the transports,
//! the parts it is made of and its URL form.

use vstd::prelude::*;
use vstd::string::*;
use crate::inet::{InetAddr, IpAddr};
use crate::node_id::NodeId;
use crate::text::{decimal, decimal_string};
use crate::zmqsocket::ApiType;

verus! {

/// Where and how a node is reached. Each variant belongs to one transport
/// and holds what that transport needs, and nothing else.
///
/// Names are never resolved: an address is a literal.
#[derive(Clone, Debug)]
#[non_exhaustive]
pub enum NodeLocator {
    /// The native, encrypted connection over TCP:
    /// `lnp://<node-id>@<host>[:<port>]`.
    Native(NodeId, InetAddr, Option<u16>),
    /// An encrypted connection over UDP: `lnpu://<node-id>@<ip>[:<port>]`.
    Udp(NodeId, IpAddr, Option<u16>),
    /// A local socket at the given path, without encryption: `lnp:<path>`.
    Posix(String),
    /// A message queue between processes of one machine, at the given path:
    /// `lnpz:<path>?api=<role>`.
    ZmqIpc(String, ApiType),
    /// A message queue between the threads of one process, under the given
    /// name: `lnpz:?api=<role>#<name>`. It has a URL form, but cannot be
    /// read back from it: the queue lives in the context of its process.
    ZmqInproc(String, ApiType),
    /// An encrypted message queue over TCP:
    /// `lnpz://<node-id>@<ip>[:<port>]/?api=<role>`.
    ZmqTcpEncrypted(NodeId, ApiType, IpAddr, Option<u16>),
    /// A plain message queue over TCP: `lnpz://<ip>[:<port>]/?api=<role>`.
    ZmqTcpUnencrypted(ApiType, IpAddr, Option<u16>),
    /// A connection over HTTP: `lnph://<node-id>@<host>[:<port>]`.
    Http(NodeId, InetAddr, Option<u16>),
    /// A connection over a web socket: `lnpws://<node-id>@<host>[:<port>]`.
    Websocket(NodeId, InetAddr, Option<u16>),
    /// A node that is written to, with no connection: `lnpt://<node-id>`.
    Text(NodeId),
}

/// A [`NodeLocator`] with each text as its characters.
pub enum LocatorView {
    Native(NodeId, InetAddr, Option<u16>),
    Udp(NodeId, IpAddr, Option<u16>),
    Posix(Seq<char>),
    ZmqIpc(Seq<char>, ApiType),
    ZmqInproc(Seq<char>, ApiType),
    ZmqTcpEncrypted(NodeId, ApiType, IpAddr, Option<u16>),
    ZmqTcpUnencrypted(ApiType, IpAddr, Option<u16>),
    Http(NodeId, InetAddr, Option<u16>),
    Websocket(NodeId, InetAddr, Option<u16>),
    Text(NodeId),
}

impl View for NodeLocator {
    type V = LocatorView;

    open spec fn view(&self) -> LocatorView {
        match self {
            NodeLocator::Native(id, addr, port) => LocatorView::Native(*id, *addr, *port),
            NodeLocator::Udp(id, ip, port) => LocatorView::Udp(*id, *ip, *port),
            NodeLocator::Posix(path) => LocatorView::Posix(path@),
            NodeLocator::ZmqIpc(path, role) => LocatorView::ZmqIpc(path@, *role),
            NodeLocator::ZmqInproc(name, role) => LocatorView::ZmqInproc(name@, *role),
            NodeLocator::ZmqTcpEncrypted(id, role, ip, port) => LocatorView::ZmqTcpEncrypted(
                *id,
                *role,
                *ip,
                *port,
            ),
            NodeLocator::ZmqTcpUnencrypted(role, ip, port) => LocatorView::ZmqTcpUnencrypted(
                *role,
                *ip,
                *port,
            ),
            NodeLocator::Http(id, addr, port) => LocatorView::Http(*id, *addr, *port),
            NodeLocator::Websocket(id, addr, port) => LocatorView::Websocket(*id, *addr, *port),
            NodeLocator::Text(id) => LocatorView::Text(*id),
        }
    }
}

/// What a URL shows of a port: a colon and the number, or nothing.
pub open spec fn port_text(port: Option<u16>) -> Seq<char> {
    match port {
        Some(port) => ":"@ + decimal(port as nat),
        None => Seq::empty(),
    }
}

impl LocatorView {
    /// The scheme of the locator's URL. It depends on the variant alone.
    pub open spec fn url_scheme(self) -> Seq<char> {
        match self {
            LocatorView::Native(..) | LocatorView::Posix(..) => "lnp"@,
            LocatorView::Udp(..) => "lnpu"@,
            LocatorView::ZmqIpc(..) | LocatorView::ZmqInproc(..) | LocatorView::ZmqTcpEncrypted(
                ..,
            ) | LocatorView::ZmqTcpUnencrypted(..) => "lnpz"@,
            LocatorView::Http(..) => "lnph"@,
            LocatorView::Websocket(..) => "lnpws"@,
            LocatorView::Text(..) => "lnpt"@,
        }
    }

    /// The node id, where the variant holds one.
    pub open spec fn node_id(self) -> Option<NodeId> {
        match self {
            LocatorView::Native(id, _, _) | LocatorView::Udp(id, _, _) | LocatorView::Http(
                id,
                _,
                _,
            ) | LocatorView::Websocket(id, _, _) | LocatorView::ZmqTcpEncrypted(id, _, _, _)
            | LocatorView::Text(id) => Some(id),
            _ => None,
        }
    }

    /// The network address, where the variant holds one; a raw IP address
    /// counts as one.
    pub open spec fn inet_addr(self) -> Option<InetAddr> {
        match self {
            LocatorView::Native(_, addr, _) | LocatorView::Http(_, addr, _)
            | LocatorView::Websocket(_, addr, _) => Some(addr),
            LocatorView::Udp(_, ip, _) | LocatorView::ZmqTcpEncrypted(_, _, ip, _)
            | LocatorView::ZmqTcpUnencrypted(_, ip, _) => Some(ip.inet()),
            _ => None,
        }
    }

    /// Whether the variant has a place for a port.
    pub open spec fn has_port_slot(self) -> bool {
        self is Native || self is Udp || self is ZmqTcpEncrypted || self is ZmqTcpUnencrypted
            || self is Http || self is Websocket
    }

    /// The port, where the variant has a place for one and it is filled.
    pub open spec fn port(self) -> Option<u16> {
        match self {
            LocatorView::Native(_, _, port) | LocatorView::Udp(_, _, port) | LocatorView::Http(
                _,
                _,
                port,
            ) | LocatorView::Websocket(_, _, port) | LocatorView::ZmqTcpEncrypted(_, _, _, port)
            | LocatorView::ZmqTcpUnencrypted(_, _, port) => port,
            _ => None,
        }
    }

    /// The path or name of the socket, where the variant holds one.
    pub open spec fn socket_name(self) -> Option<Seq<char>> {
        match self {
            LocatorView::Posix(name) | LocatorView::ZmqIpc(name, _) | LocatorView::ZmqInproc(
                name,
                _,
            ) => Some(name),
            _ => None,
        }
    }

    /// The queue role, where the variant holds one.
    pub open spec fn api_type(self) -> Option<ApiType> {
        match self {
            LocatorView::ZmqIpc(_, role) | LocatorView::ZmqInproc(_, role)
            | LocatorView::ZmqTcpEncrypted(_, role, _, _) | LocatorView::ZmqTcpUnencrypted(
                role,
                _,
                _,
            ) => Some(role),
            _ => None,
        }
    }

    /// The locator with the given port in its place for one; the locator
    /// itself where the variant has no such place.
    pub open spec fn with_port(self, port: u16) -> LocatorView {
        match self {
            LocatorView::Native(id, addr, _) => LocatorView::Native(id, addr, Some(port)),
            LocatorView::Udp(id, ip, _) => LocatorView::Udp(id, ip, Some(port)),
            LocatorView::ZmqTcpEncrypted(id, role, ip, _) => LocatorView::ZmqTcpEncrypted(
                id,
                role,
                ip,
                Some(port),
            ),
            LocatorView::ZmqTcpUnencrypted(role, ip, _) => LocatorView::ZmqTcpUnencrypted(
                role,
                ip,
                Some(port),
            ),
            LocatorView::Http(id, addr, _) => LocatorView::Http(id, addr, Some(port)),
            LocatorView::Websocket(id, addr, _) => LocatorView::Websocket(id, addr, Some(port)),
            _ => self,
        }
    }

    /// The locator with the given queue role in place of its own; the
    /// locator itself where the variant holds no role.
    pub open spec fn with_role(self, role: ApiType) -> LocatorView {
        match self {
            LocatorView::ZmqIpc(path, _) => LocatorView::ZmqIpc(path, role),
            LocatorView::ZmqInproc(name, _) => LocatorView::ZmqInproc(name, role),
            LocatorView::ZmqTcpEncrypted(id, _, ip, port) => LocatorView::ZmqTcpEncrypted(
                id,
                role,
                ip,
                port,
            ),
            LocatorView::ZmqTcpUnencrypted(_, ip, port) => LocatorView::ZmqTcpUnencrypted(
                role,
                ip,
                port,
            ),
            _ => self,
        }
    }

    /// The locator's URL.
    pub open spec fn url_text(self) -> Seq<char> {
        match self {
            LocatorView::Native(id, addr, port) | LocatorView::Http(id, addr, port)
            | LocatorView::Websocket(id, addr, port) => self.url_scheme() + "://"@ + id.text()
                + "@"@ + addr.text() + port_text(port),
            LocatorView::Udp(id, ip, port) => self.url_scheme() + "://"@ + id.text() + "@"@
                + ip.text() + port_text(port),
            LocatorView::Posix(path) => self.url_scheme() + ":"@ + path,
            LocatorView::ZmqIpc(path, role) => self.url_scheme() + ":"@ + path + "?api="@
                + role.name(),
            LocatorView::ZmqInproc(name, role) => self.url_scheme() + ":?api="@ + role.name()
                + "#"@ + name,
            LocatorView::ZmqTcpEncrypted(id, role, ip, port) => self.url_scheme() + "://"@
                + id.text() + "@"@ + ip.text() + port_text(port) + "/?api="@ + role.name(),
            LocatorView::ZmqTcpUnencrypted(role, ip, port) => self.url_scheme() + "://"@
                + ip.text() + port_text(port) + "/?api="@ + role.name(),
            LocatorView::Text(id) => self.url_scheme() + "://"@ + id.text(),
        }
    }

    /// The locator's short form: the node id, then `@`, the address and the
    /// port, or else the socket's path or name, then the queue role. It
    /// leaves out the scheme, which the surroundings fix.
    pub open spec fn short_text(self) -> Seq<char> {
        let id = match self.node_id() {
            Some(id) => id.text(),
            None => Seq::empty(),
        };
        let place = match self.inet_addr() {
            Some(addr) => "@"@ + addr.text() + port_text(self.port()),
            None => match self.socket_name() {
                Some(name) => name,
                None => Seq::empty(),
            },
        };
        let role = match self.api_type() {
            Some(role) => "?api="@ + role.name(),
            None => Seq::empty(),
        };
        id + place + role
    }

    /// Whether two locators stand for one endpoint: they are of one variant
    /// and agree in every field, where two queue roles agree if they are the
    /// same or are the two ends of a peer socket.
    pub open spec fn same_endpoint(self, other: LocatorView) -> bool {
        match (self, other) {
            (LocatorView::Native(a1, a2, a3), LocatorView::Native(b1, b2, b3)) => a1 == b1 && a2
                == b2 && a3 == b3,
            (LocatorView::Udp(a1, a2, a3), LocatorView::Udp(b1, b2, b3)) => a1 == b1 && a2 == b2
                && a3 == b3,
            (LocatorView::Posix(a1), LocatorView::Posix(b1)) => a1 == b1,
            (LocatorView::ZmqIpc(a1, a2), LocatorView::ZmqIpc(b1, b2)) => a1 == b1
                && a2.merges_with(b2),
            (LocatorView::ZmqInproc(a1, a2), LocatorView::ZmqInproc(b1, b2)) => a1 == b1
                && a2.merges_with(b2),
            (
                LocatorView::ZmqTcpEncrypted(a1, a2, a3, a4),
                LocatorView::ZmqTcpEncrypted(b1, b2, b3, b4),
            ) => a1 == b1 && a2.merges_with(b2) && a3 == b3 && a4 == b4,
            (
                LocatorView::ZmqTcpUnencrypted(a1, a2, a3),
                LocatorView::ZmqTcpUnencrypted(b1, b2, b3),
            ) => a1.merges_with(b1) && a2 == b2 && a3 == b3,
            (LocatorView::Http(a1, a2, a3), LocatorView::Http(b1, b2, b3)) => a1 == b1 && a2 == b2
                && a3 == b3,
            (LocatorView::Websocket(a1, a2, a3), LocatorView::Websocket(b1, b2, b3)) => a1 == b1
                && a2 == b2 && a3 == b3,
            (LocatorView::Text(a1), LocatorView::Text(b1)) => a1 == b1,
            _ => false,
        }
    }
}

/// Writes a colon and the port at the end of a text, where there is a port.
fn push_port(text: &mut String, port: &Option<u16>)
    ensures
        final(text)@ == old(text)@ + port_text(*port),
{
    match port {
        Some(port) => {
            let digits = decimal_string(*port);
            text.append(":");
            text.append(digits.as_str());
        },
        None => {},
    }
}

impl NodeLocator {
    /// The scheme of this locator's URL.
    pub fn url_scheme(&self) -> (r: &'static str)
        ensures
            r@ == self@.url_scheme(),
    {
        match self {
            NodeLocator::Native(..) => "lnp",
            NodeLocator::Udp(..) => "lnpu",
            NodeLocator::Posix(..) => "lnp",
            NodeLocator::ZmqIpc(..) | NodeLocator::ZmqInproc(..) => "lnpz",
            NodeLocator::ZmqTcpEncrypted(..) | NodeLocator::ZmqTcpUnencrypted(..) => "lnpz",
            NodeLocator::Http(..) => "lnph",
            NodeLocator::Websocket(..) => "lnpws",
            NodeLocator::Text(..) => "lnpt",
        }
    }

    /// This locator with the given port, if its variant has a place for a
    /// port; a copy of this locator if it has none.
    pub fn with_port(&self, port: u16) -> (r: NodeLocator)
        ensures
            r@ == self@.with_port(port),
    {
        match self {
            NodeLocator::Native(id, addr, _) => NodeLocator::Native(*id, *addr, Some(port)),
            NodeLocator::Udp(id, ip, _) => NodeLocator::Udp(*id, *ip, Some(port)),
            NodeLocator::Posix(path) => NodeLocator::Posix(path.clone()),
            NodeLocator::ZmqIpc(path, role) => NodeLocator::ZmqIpc(path.clone(), *role),
            NodeLocator::ZmqInproc(name, role) => NodeLocator::ZmqInproc(name.clone(), *role),
            NodeLocator::ZmqTcpEncrypted(id, role, ip, _) => NodeLocator::ZmqTcpEncrypted(
                *id,
                *role,
                *ip,
                Some(port),
            ),
            NodeLocator::ZmqTcpUnencrypted(role, ip, _) => NodeLocator::ZmqTcpUnencrypted(
                *role,
                *ip,
                Some(port),
            ),
            NodeLocator::Http(id, addr, _) => NodeLocator::Http(*id, *addr, Some(port)),
            NodeLocator::Websocket(id, addr, _) => NodeLocator::Websocket(*id, *addr, Some(port)),
            NodeLocator::Text(id) => NodeLocator::Text(*id),
        }
    }

    /// Writes this locator as a URL.
    pub fn to_url_string(&self) -> (r: String)
        ensures
            r@ == self@.url_text(),
    {
        let mut r = self.url_scheme().to_owned();
        match self {
            NodeLocator::Native(id, addr, port) | NodeLocator::Http(id, addr, port)
            | NodeLocator::Websocket(id, addr, port) => {
                r.append("://");
                r.append(id.to_string().as_str());
                r.append("@");
                r.append(addr.to_string().as_str());
                push_port(&mut r, port);
            },
            NodeLocator::Udp(id, ip, port) => {
                r.append("://");
                r.append(id.to_string().as_str());
                r.append("@");
                r.append(ip.to_string().as_str());
                push_port(&mut r, port);
            },
            NodeLocator::Posix(path) => {
                r.append(":");
                r.append(path.as_str());
            },
            NodeLocator::ZmqIpc(path, role) => {
                r.append(":");
                r.append(path.as_str());
                r.append("?api=");
                r.append(role.api_name());
            },
            NodeLocator::ZmqInproc(name, role) => {
                r.append(":?api=");
                r.append(role.api_name());
                r.append("#");
                r.append(name.as_str());
            },
            NodeLocator::ZmqTcpEncrypted(id, role, ip, port) => {
                r.append("://");
                r.append(id.to_string().as_str());
                r.append("@");
                r.append(ip.to_string().as_str());
                push_port(&mut r, port);
                r.append("/?api=");
                r.append(role.api_name());
            },
            NodeLocator::ZmqTcpUnencrypted(role, ip, port) => {
                r.append("://");
                r.append(ip.to_string().as_str());
                push_port(&mut r, port);
                r.append("/?api=");
                r.append(role.api_name());
            },
            NodeLocator::Text(id) => {
                r.append("://");
                r.append(id.to_string().as_str());
            },
        }
        r
    }

    /// Writes this locator in its short form, which leaves out the scheme.
    /// A locator with neither an address nor a socket has no short form.
    pub fn to_short_string(&self) -> (r: String)
        requires
            self@.inet_addr() is Some || self@.socket_name() is Some,
        ensures
            r@ == self@.short_text(),
    {
        let (id, addr, port, name, role) = self.components();
        let mut r = String::new();
        if let Some(id) = id {
            r.append(id.to_string().as_str());
        }
        match (addr, name) {
            (Some(addr), _) => {
                r.append("@");
                r.append(addr.to_string().as_str());
                push_port(&mut r, &port);
            },
            (None, Some(name)) => {
                r.append(name.as_str());
            },
            (None, None) => {},
        }
        if let Some(role) = role {
            r.append("?api=");
            r.append(role.api_name());
        }
        r
    }

    /// The parts of this locator, each where the variant holds it: the node
    /// id, the network address, the port, the path or name of the socket,
    /// and the queue role.
    pub fn components(&self) -> (r: (
        Option<NodeId>,
        Option<InetAddr>,
        Option<u16>,
        Option<String>,
        Option<ApiType>,
    ))
        ensures
            r.0 == self@.node_id(),
            r.1 == self@.inet_addr(),
            r.2 == self@.port(),
            r.3.deep_view() == self@.socket_name(),
            r.4 == self@.api_type(),
    {
        match self {
            NodeLocator::Native(id, addr, port) => (Some(*id), Some(*addr), *port, None, None),
            NodeLocator::Udp(id, ip, port) => (Some(*id), Some(ip.to_inet()), *port, None, None),
            NodeLocator::Posix(path) => (None, None, None, Some(path.clone()), None),
            NodeLocator::ZmqIpc(path, role) => (None, None, None, Some(path.clone()), Some(*role)),
            NodeLocator::ZmqInproc(name, role) => (
                None,
                None,
                None,
                Some(name.clone()),
                Some(*role),
            ),
            NodeLocator::ZmqTcpEncrypted(id, role, ip, port) => (
                Some(*id),
                Some(ip.to_inet()),
                *port,
                None,
                Some(*role),
            ),
            NodeLocator::ZmqTcpUnencrypted(role, ip, port) => (
                None,
                Some(ip.to_inet()),
                *port,
                None,
                Some(*role),
            ),
            NodeLocator::Http(id, addr, port) => (Some(*id), Some(*addr), *port, None, None),
            NodeLocator::Websocket(id, addr, port) => (Some(*id), Some(*addr), *port, None, None),
            NodeLocator::Text(id) => (Some(*id), None, None, None, None),
        }
    }

    /// The node id of this locator, if it has one.
    pub fn node_id(&self) -> (r: Option<NodeId>)
        ensures
            r == self@.node_id(),
    {
        self.components().0
    }

    /// The network address of this locator, if it has one.
    pub fn inet_addr(&self) -> (r: Option<InetAddr>)
        ensures
            r == self@.inet_addr(),
    {
        self.components().1
    }

    /// The port of this locator, if it has one.
    pub fn port(&self) -> (r: Option<u16>)
        ensures
            r == self@.port(),
    {
        self.components().2
    }

    /// The path or name of this locator's socket, if it has one.
    pub fn socket_name(&self) -> (r: Option<String>)
        ensures
            r.deep_view() == self@.socket_name(),
    {
        self.components().3
    }

    /// The queue role of this locator, if it has one.
    pub fn api_type(&self) -> (r: Option<ApiType>)
        ensures
            r == self@.api_type(),
    {
        self.components().4
    }
}

} // verus!
