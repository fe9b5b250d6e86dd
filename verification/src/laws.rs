//! What holds of every locator.

use vstd::prelude::*;
use vstd::std_specs::convert::{FromSpec, TryFromSpec};
use crate::error::ParseErrorView;
use crate::inet::inet_addr_parse;
use crate::local_addr::LocalAddr;
use crate::locator::{LocatorView, NodeLocator};
use crate::node_addr::{Error, NodeAddr};
use crate::node_id::node_id_parse;
use crate::parse::{has_scheme, located, parsed, with_scheme, Readings};
use crate::text::lower_ascii;
use crate::url_parts::{url_split, UrlPartsView};
use crate::zmqsocket::{role_of_token, ApiType};

verus! {

impl LocatorView {
    /// The parts that the locator's URL is written from.
    pub open spec fn url_parts(self) -> UrlPartsView {
        let role = match self.api_type() {
            Some(role) => seq![("api"@, role.name())],
            None => Seq::empty(),
        };
        UrlPartsView {
            scheme: self.url_scheme(),
            username: match self {
                LocatorView::Text(_) => Seq::empty(),
                _ => match self.node_id() {
                    Some(id) => id.text(),
                    None => Seq::empty(),
                },
            },
            host: match self {
                LocatorView::Text(id) => Some(id.text()),
                _ => match self.inet_addr() {
                    Some(addr) => Some(addr.text()),
                    None => None,
                },
            },
            port: self.port(),
            path: match self {
                LocatorView::Posix(path) | LocatorView::ZmqIpc(path, _) => path,
                LocatorView::ZmqTcpEncrypted(..) | LocatorView::ZmqTcpUnencrypted(..) => "/"@,
                _ => Seq::empty(),
            },
            query: role,
        }
    }

    /// Whether the crates that read URLs, keys and addresses give back what
    /// the locator's URL was written from: the URL comes apart into its
    /// parts, the text of the locator's node id is read as that node id and
    /// the text of its address as that address, and an empty user name is
    /// read as no node id.
    pub open spec fn reads_back(self) -> bool {
        &&& url_split(self.url_text()) == Some(self.url_parts())
        &&& node_id_parse(Seq::empty()) is None
        &&& self.node_id() matches Some(id) ==> node_id_parse(id.text()) == Some(id)
        &&& self.inet_addr() matches Some(addr) ==> inet_addr_parse(addr.text()) == Some(addr)
    }
}

/// Setting a port twice is setting it once; of two ports set, the later one
/// stays.
pub proof fn lemma_with_port_idempotent(v: LocatorView, first: u16, port: u16)
    ensures
        v.with_port(port).with_port(port) == v.with_port(port),
        v.with_port(first).with_port(port) == v.with_port(port),
{
}

/// A locator with a place for a port holds the port that was set. One
/// without such a place stays as it is and goes on having no port.
pub proof fn lemma_with_port_slot(v: LocatorView, port: u16)
    ensures
        v.has_port_slot() ==> v.with_port(port).port() == Some(port),
        !v.has_port_slot() ==> v.with_port(port) == v && v.port() is None,
        v is Text || v is Posix || v is ZmqIpc || v is ZmqInproc <==> !v.has_port_slot(),
{
}

/// Setting a port changes nothing but the port.
pub proof fn lemma_with_port_keeps_rest(v: LocatorView, port: u16)
    ensures
        v.with_port(port).url_scheme() == v.url_scheme(),
        v.with_port(port).node_id() == v.node_id(),
        v.with_port(port).inet_addr() == v.inet_addr(),
        v.with_port(port).socket_name() == v.socket_name(),
        v.with_port(port).api_type() == v.api_type(),
{
}

/// Being the same endpoint is an equivalence: every locator is the same
/// endpoint as itself, and the relation is symmetric and transitive.
pub proof fn lemma_same_endpoint_is_equivalence(a: LocatorView, b: LocatorView, c: LocatorView)
    ensures
        a.same_endpoint(a),
        a.same_endpoint(b) ==> b.same_endpoint(a),
        a.same_endpoint(b) && b.same_endpoint(c) ==> a.same_endpoint(c),
{
}

/// Locators of different variants are never the same endpoint, whatever
/// their parts; and two that are the same endpoint have the same parts, but
/// for queue roles that merge.
pub proof fn lemma_same_endpoint_same_variant(a: LocatorView, b: LocatorView)
    requires
        a.same_endpoint(b),
    ensures
        a is Native <==> b is Native,
        a is Udp <==> b is Udp,
        a is Posix <==> b is Posix,
        a is ZmqIpc <==> b is ZmqIpc,
        a is ZmqInproc <==> b is ZmqInproc,
        a is ZmqTcpEncrypted <==> b is ZmqTcpEncrypted,
        a is ZmqTcpUnencrypted <==> b is ZmqTcpUnencrypted,
        a is Http <==> b is Http,
        a is Websocket <==> b is Websocket,
        a is Text <==> b is Text,
        a.url_scheme() == b.url_scheme(),
        a.node_id() == b.node_id(),
        a.inet_addr() == b.inet_addr(),
        a.port() == b.port(),
        a.socket_name() == b.socket_name(),
        a.api_type() matches Some(role) ==> b.api_type() matches Some(other) && role.merges_with(
            other,
        ),
        a.with_role(ApiType::Client) == b.with_role(ApiType::Client),
{
}

/// A locator of a queue whose role is the listening end of a peer socket is
/// the same endpoint as the locator that differs from it only in having the
/// connecting end, and not the same as the one with the client's role.
pub proof fn lemma_peer_ends_merge(v: LocatorView)
    requires
        v.api_type() == Some(ApiType::PeerListening),
    ensures
        v.same_endpoint(v.with_role(ApiType::PeerConnecting)),
        v.with_role(ApiType::PeerConnecting).same_endpoint(v),
        !v.same_endpoint(v.with_role(ApiType::Client)),
        !v.with_role(ApiType::Client).same_endpoint(v),
{
}

/// Two roles other than the two ends of a peer socket merge only if they
/// are the same.
pub proof fn lemma_roles_merge(a: ApiType, b: ApiType)
    ensures
        a.merges_with(b) <==> a == b || (a == ApiType::PeerListening && b
            == ApiType::PeerConnecting) || (a == ApiType::PeerConnecting && b
            == ApiType::PeerListening),
        a.merges_with(b) ==> a.name() == b.name(),
{
}

/// Locators that are the same endpoint have the same URL, and so feed a
/// hasher the same bytes.
pub proof fn lemma_same_endpoint_same_url(a: LocatorView, b: LocatorView)
    requires
        a.same_endpoint(b),
    ensures
        a.url_text() == b.url_text(),
        a.short_text() == b.short_text(),
{
}

/// A node address becomes a locator with a port, of the native connection
/// or of the encrypted queue, and that locator gives the node address back.
/// So different node addresses have different locators.
pub proof fn lemma_node_addr_round_trip(addr: NodeAddr, other: NodeAddr)
    ensures
        NodeAddr::try_from_spec(NodeLocator::from_spec(addr)) == Ok::<NodeAddr, Error>(addr),
        NodeLocator::from_spec(addr)@.port() is Some,
        addr.remote_addr is Ftcp <==> NodeLocator::from_spec(addr) is Native,
        addr.remote_addr is Zmq <==> NodeLocator::from_spec(addr) is ZmqTcpEncrypted,
        NodeLocator::from_spec(addr) == NodeLocator::from_spec(other) ==> addr == other,
{
}

/// A locator that has a node address has that node's id, has a port, and
/// gets from the node address a locator that is the same endpoint, unless
/// its queue role is not an end of a peer socket.
pub proof fn lemma_node_addr_of_locator(locator: NodeLocator)
    ensures
        NodeAddr::try_from_spec(locator) matches Ok(addr) ==> {
            &&& locator@.node_id() == Some(addr.node_id)
            &&& locator@.port() is Some
            &&& locator is Native || locator is ZmqTcpEncrypted
            &&& locator is Native || ApiType::PeerConnecting.merges_with(
                locator@.api_type().unwrap(),
            ) ==> NodeLocator::from_spec(addr)@.same_endpoint(locator@)
        },
{
}

/// Which locators have a local address and which a node address. A local
/// socket, a queue at a path or under a name, and a plain queue over TCP
/// with a port have a local address. The native connection and the
/// encrypted queue have a node address if they have a port, and lack
/// nothing but the port if they have none. No locator has both addresses,
/// and none with a local address has a node id.
pub proof fn lemma_local_and_remote_disjoint(locator: NodeLocator)
    ensures
        LocalAddr::try_from_spec(locator) is Ok <==> locator is Posix || locator is ZmqIpc
            || locator is ZmqInproc || (locator is ZmqTcpUnencrypted && locator@.port() is Some),
        NodeAddr::try_from_spec(locator) is Ok <==> (locator is Native
            || locator is ZmqTcpEncrypted) && locator@.port() is Some,
        NodeAddr::try_from_spec(locator) == Err::<NodeAddr, Error>(Error::NoPort) <==> (
        locator is Native || locator is ZmqTcpEncrypted) && locator@.port() is None,
        !(LocalAddr::try_from_spec(locator) is Ok && NodeAddr::try_from_spec(locator) is Ok),
        LocalAddr::try_from_spec(locator) is Ok ==> locator@.node_id() is None,
{
}

/// What reading a URL can give. A locator that is read has the scheme of
/// the URL and, where it has a place for a port, the port of the URL. It is
/// never an in-process queue nor a local socket, and its queue role is
/// never the listening end of a peer socket nor the server's. Only a scheme
/// that is none of the six is an unknown scheme.
pub proof fn lemma_what_is_read(parts: UrlPartsView, readings: Readings)
    ensures
        located(parts, readings) matches Ok(v) ==> {
            &&& v.url_scheme() == parts.scheme
            &&& v.has_port_slot() ==> v.port() == parts.port
            &&& !(v is ZmqInproc) && !(v is Posix)
            &&& v.api_type() != Some(ApiType::PeerListening)
            &&& v.api_type() != Some(ApiType::Server)
        },
        located(parts, readings) is Err ==> (located(parts, readings) == Err::<
            LocatorView,
            _,
        >(ParseErrorView::UnknownUrlScheme(parts.scheme)) <==> parts.scheme != "lnp"@
            && parts.scheme != "lnpu"@ && parts.scheme != "lnph"@ && parts.scheme != "lnpws"@
            && parts.scheme != "lnpz"@ && parts.scheme != "lnpt"@),
{
}

/// Reading inverts writing. Take a locator other than an in-process queue
/// and a local socket, whose queue role is not the server's and whose queue
/// path is not empty. If the crates that read URLs, keys and addresses give
/// back what its URL was written from, then reading that URL gives a locator
/// that is the same endpoint.
pub proof fn lemma_read_inverts_write(v: LocatorView)
    requires
        !(v is ZmqInproc),
        !(v is Posix),
        v.api_type() != Some(ApiType::Server),
        v matches LocatorView::ZmqIpc(path, _) ==> path.len() > 0,
    ensures
        v.reads_back() ==> (parsed(v.url_text()) matches Ok(w) && w.same_endpoint(v)),
{
    if v.reads_back() {
        lemma_url_has_scheme(v);
        lemma_schemes_differ();
        if let Some(role) = v.api_type() {
            lemma_role_token(role);
        }
    }
}

/// The URL of a locator begins with its scheme and a colon.
pub proof fn lemma_url_has_scheme(v: LocatorView)
    ensures
        has_scheme(v.url_text()),
        with_scheme(v.url_text()) == v.url_text(),
{
    reveal_strlit("lnp");
    reveal_strlit("lnpu");
    reveal_strlit("lnpz");
    reveal_strlit("lnph");
    reveal_strlit("lnpws");
    reveal_strlit("lnpt");
    reveal_strlit("lnp:");
    reveal_strlit("lnpu:");
    reveal_strlit("lnpz:");
    reveal_strlit("lnph:");
    reveal_strlit("lnpws:");
    reveal_strlit("lnpt:");
    reveal_strlit("://");
    reveal_strlit(":");
    reveal_strlit(":?api=");
    assert((v.url_scheme() + ":"@).is_prefix_of(v.url_text()));
}

/// The six schemes are six different texts.
pub proof fn lemma_schemes_differ()
    ensures
        "lnp"@ != "lnpu"@,
        "lnp"@ != "lnph"@,
        "lnp"@ != "lnpws"@,
        "lnp"@ != "lnpz"@,
        "lnp"@ != "lnpt"@,
        "lnpu"@ != "lnph"@,
        "lnpu"@ != "lnpws"@,
        "lnpu"@ != "lnpz"@,
        "lnpu"@ != "lnpt"@,
        "lnph"@ != "lnpws"@,
        "lnph"@ != "lnpz"@,
        "lnph"@ != "lnpt"@,
        "lnpws"@ != "lnpz"@,
        "lnpws"@ != "lnpt"@,
        "lnpz"@ != "lnpt"@,
{
    reveal_strlit("lnp");
    reveal_strlit("lnpu");
    reveal_strlit("lnpz");
    reveal_strlit("lnph");
    reveal_strlit("lnpws");
    reveal_strlit("lnpt");
    assert("lnp"@.len() == 3);
    assert("lnpws"@.len() == 5);
    assert("lnpu"@.len() == 4 && "lnpu"@[3] == 'u');
    assert("lnpz"@.len() == 4 && "lnpz"@[3] == 'z');
    assert("lnph"@.len() == 4 && "lnph"@[3] == 'h');
    assert("lnpt"@.len() == 4 && "lnpt"@[3] == 't');
}

/// The token of a role is in lower case, and it is read as a role that
/// merges with the one it was written for, unless that is the server's.
pub proof fn lemma_role_token(role: ApiType)
    ensures
        lower_ascii(role.name()) == role.name(),
        role != ApiType::Server ==> (role_of_token(role.name()) matches Some(
            read,
        ) && read.merges_with(role)),
        role == ApiType::Server ==> role_of_token(role.name()) == Some(
            ApiType::Client,
        ),
{
    reveal_strlit("p2p");
    reveal_strlit("rpc");
    reveal_strlit("sub");
    reveal_strlit("esb");
    assert("p2p"@[0] == 'p');
    assert("rpc"@[0] == 'r');
    assert("sub"@[0] == 's');
    assert("esb"@[0] == 'e');
}

} // verus!
