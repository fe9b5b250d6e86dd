//! Reading a locator from a URL.
//!
//! A text is first given a scheme if it has none, then taken apart as a URL.
//! The user name and the host are read as a node id and as an address, and
//! the scheme decides what the parts have to be and which locator they make.

use vstd::prelude::*;
use vstd::string::*;
use crate::error::{ParseError, ParseErrorView};
use crate::inet::{inet_addr_parse, parse_host, InetAddr};
use crate::locator::{LocatorView, NodeLocator};
use crate::node_id::{node_id_parse, parse_public_key, NodeId};
use crate::text::{ascii_lowercase, lower_ascii, same_text, starts_with};
use crate::url_parts::{first_value, split_url, url_split, UrlParts, UrlPartsView};
use crate::zmqsocket::{role_of_token, ApiType};

verus! {

/// What the user name and the host of a URL are when read as a node id and
/// as an address.
#[derive(Clone, Copy, Debug, PartialEq, Eq)]
pub struct Readings {
    /// The user name as a node id.
    pub user_key: Option<NodeId>,
    /// The host as a network address.
    pub host_addr: Option<InetAddr>,
    /// The host as a node id.
    pub host_key: Option<NodeId>,
}

/// The readings of a URL's user name and host. A URL without a host has no
/// reading of it.
pub open spec fn readings_of(parts: UrlPartsView) -> Readings {
    Readings {
        user_key: node_id_parse(parts.username),
        host_addr: match parts.host {
            Some(host) => inet_addr_parse(host),
            None => None,
        },
        host_key: match parts.host {
            Some(host) => node_id_parse(host),
            None => None,
        },
    }
}

/// Whether a text begins with one of the locator's schemes and a colon.
pub open spec fn has_scheme(text: Seq<char>) -> bool {
    "lnp:"@.is_prefix_of(text) || "lnpu:"@.is_prefix_of(text) || "lnpz:"@.is_prefix_of(text)
        || "lnpws:"@.is_prefix_of(text) || "lnpt:"@.is_prefix_of(text) || "lnph:"@.is_prefix_of(
        text,
    )
}

/// The text as a URL: itself if it begins with a scheme of the locator's,
/// and else as what follows `lnp://`.
pub open spec fn with_scheme(text: Seq<char>) -> Seq<char> {
    if has_scheme(text) {
        text
    } else {
        "lnp://"@ + text
    }
}

/// The node id, address and port of a URL whose scheme asks for a node id
/// and a host.
pub open spec fn located_node(parts: UrlPartsView, readings: Readings) -> Result<
    (NodeId, InetAddr, Option<u16>),
    ParseErrorView,
> {
    match (readings.user_key, parts.host, readings.host_addr) {
        (None, _, _) => Err(ParseErrorView::InvalidPubkey),
        (Some(_), None, _) => Err(ParseErrorView::HostRequired),
        (Some(_), Some(host), None) => Err(ParseErrorView::InvalidHost(host)),
        (Some(id), Some(_), Some(addr)) => Ok((id, addr, parts.port)),
    }
}

/// The locator of a URL with the scheme `lnpu`. It differs from the other
/// schemes with a node id and a host in the error for a host that is no IP
/// address.
pub open spec fn located_udp(parts: UrlPartsView, readings: Readings) -> Result<
    LocatorView,
    ParseErrorView,
> {
    match located_node(parts, readings) {
        Ok((id, addr, port)) => Ok(LocatorView::Udp(id, addr.ip(), port)),
        Err(ParseErrorView::InvalidHost(_)) => Err(ParseErrorView::InvalidIp),
        Err(e) => Err(e),
    }
}

/// The queue role of a URL: what the first `api` of its query stands for,
/// in whatever case it is written.
pub open spec fn located_role(parts: UrlPartsView) -> Result<ApiType, ParseErrorView> {
    match first_value(parts.query, "api"@) {
        None => Err(ParseErrorView::ApiTypeRequired),
        Some(value) => match role_of_token(lower_ascii(value)) {
            Some(role) => Ok(role),
            None => Err(ParseErrorView::InvalidZmqType(lower_ascii(value))),
        },
    }
}

/// The locator of a URL with the scheme `lnpz`. With a host it is a queue
/// over TCP, encrypted if the user name is a node id and plain if not;
/// without one it is a queue at the URL's path.
pub open spec fn located_queue(parts: UrlPartsView, readings: Readings) -> Result<
    LocatorView,
    ParseErrorView,
> {
    match located_role(parts) {
        Err(e) => Err(e),
        Ok(role) => match (parts.host, readings.host_addr, readings.user_key) {
            (Some(_), None, _) => Err(ParseErrorView::InvalidIp),
            (Some(_), Some(addr), Some(id)) => Ok(
                LocatorView::ZmqTcpEncrypted(id, role, addr.ip(), parts.port),
            ),
            (Some(_), Some(addr), None) => Ok(
                LocatorView::ZmqTcpUnencrypted(role, addr.ip(), parts.port),
            ),
            (None, _, _) => if parts.path.len() == 0 {
                Err(ParseErrorView::InprocRequireZmqContext)
            } else {
                Ok(LocatorView::ZmqIpc(parts.path, role))
            },
        },
    }
}

/// The locator of a URL with the scheme `lnpt`: the node id stands where
/// other schemes have the host. A node id as the user name shows that a
/// host follows it.
pub open spec fn located_text(parts: UrlPartsView, readings: Readings) -> Result<
    LocatorView,
    ParseErrorView,
> {
    if readings.user_key is Some {
        Err(ParseErrorView::HostPresent)
    } else if parts.port is Some {
        Err(ParseErrorView::PortPresent)
    } else {
        match (parts.host, readings.host_key) {
            (Some(_), Some(id)) => Ok(LocatorView::Text(id)),
            _ => Err(ParseErrorView::InvalidPubkey),
        }
    }
}

/// The locator that the parts of a URL make, given the readings of its user
/// name and host.
pub open spec fn located(parts: UrlPartsView, readings: Readings) -> Result<
    LocatorView,
    ParseErrorView,
> {
    if parts.scheme == "lnp"@ {
        match located_node(parts, readings) {
            Ok((id, addr, port)) => Ok(LocatorView::Native(id, addr, port)),
            Err(e) => Err(e),
        }
    } else if parts.scheme == "lnpu"@ {
        located_udp(parts, readings)
    } else if parts.scheme == "lnph"@ {
        match located_node(parts, readings) {
            Ok((id, addr, port)) => Ok(LocatorView::Http(id, addr, port)),
            Err(e) => Err(e),
        }
    } else if parts.scheme == "lnpws"@ {
        match located_node(parts, readings) {
            Ok((id, addr, port)) => Ok(LocatorView::Websocket(id, addr, port)),
            Err(e) => Err(e),
        }
    } else if parts.scheme == "lnpz"@ {
        located_queue(parts, readings)
    } else if parts.scheme == "lnpt"@ {
        located_text(parts, readings)
    } else {
        Err(ParseErrorView::UnknownUrlScheme(parts.scheme))
    }
}

/// The locator that a text stands for.
pub open spec fn parsed(text: Seq<char>) -> Result<LocatorView, ParseErrorView> {
    match url_split(with_scheme(text)) {
        Some(parts) => located(parts, readings_of(parts)),
        None => Err(ParseErrorView::MalformedUrl),
    }
}

/// A result of reading a locator, with each text as its characters.
pub open spec fn outcome(r: Result<NodeLocator, ParseError>) -> Result<
    LocatorView,
    ParseErrorView,
> {
    match r {
        Ok(locator) => Ok(locator@),
        Err(e) => Err(e@),
    }
}

impl Readings {
    /// Reads the user name and the host of a URL as a node id and as an
    /// address.
    pub fn of(parts: &UrlParts) -> (r: Readings)
        ensures
            r == readings_of(parts@),
    {
        let user_key = parse_public_key(parts.username.as_str());
        match &parts.host {
            Some(host) => Readings {
                user_key,
                host_addr: parse_host(host.as_str()),
                host_key: parse_public_key(host.as_str()),
            },
            None => Readings { user_key, host_addr: None, host_key: None },
        }
    }
}

/// The node id, address and port of a URL whose scheme asks for a node id
/// and a host.
fn node_of(parts: &UrlParts, readings: &Readings) -> (r: Result<
    (NodeId, InetAddr, Option<u16>),
    ParseError,
>)
    ensures
        match r {
            Ok(node) => located_node(parts@, *readings) == Ok::<_, ParseErrorView>(node),
            Err(e) => located_node(parts@, *readings) == Err::<
                (NodeId, InetAddr, Option<u16>),
                _,
            >(e@),
        },
{
    match (readings.user_key, &parts.host, readings.host_addr) {
        (None, _, _) => Err(ParseError::InvalidPubkey),
        (Some(_), None, _) => Err(ParseError::HostRequired),
        (Some(_), Some(host), None) => Err(ParseError::InvalidHost(host.clone())),
        (Some(id), Some(_), Some(addr)) => Ok((id, addr, parts.port)),
    }
}

/// The queue role that a URL names in its query.
fn role_of(parts: &UrlParts) -> (r: Result<ApiType, ParseError>)
    ensures
        match r {
            Ok(role) => located_role(parts@) == Ok::<_, ParseErrorView>(role),
            Err(e) => located_role(parts@) == Err::<ApiType, _>(e@),
        },
{
    match parts.query_value("api") {
        None => Err(ParseError::ApiTypeRequired),
        Some(value) => {
            let token = ascii_lowercase(value.as_str());
            match ApiType::from_token(token.as_str()) {
                Some(role) => Ok(role),
                None => Err(ParseError::InvalidZmqType(token)),
            }
        },
    }
}

/// The locator of a URL with the scheme `lnpz`.
fn queue_of(parts: &UrlParts, readings: &Readings) -> (r: Result<NodeLocator, ParseError>)
    ensures
        outcome(r) == located_queue(parts@, *readings),
{
    match role_of(parts) {
        Err(e) => Err(e),
        Ok(role) => match (&parts.host, readings.host_addr, readings.user_key) {
            (Some(_), None, _) => Err(ParseError::InvalidIp),
            (Some(_), Some(addr), Some(id)) => Ok(
                NodeLocator::ZmqTcpEncrypted(id, role, addr.to_ip(), parts.port),
            ),
            (Some(_), Some(addr), None) => Ok(
                NodeLocator::ZmqTcpUnencrypted(role, addr.to_ip(), parts.port),
            ),
            (None, _, _) => if parts.path.as_str().is_empty() {
                Err(ParseError::InprocRequireZmqContext)
            } else {
                Ok(NodeLocator::ZmqIpc(parts.path.clone(), role))
            },
        },
    }
}

/// The locator of a URL with the scheme `lnpt`.
fn text_of(parts: &UrlParts, readings: &Readings) -> (r: Result<NodeLocator, ParseError>)
    ensures
        outcome(r) == located_text(parts@, *readings),
{
    if readings.user_key.is_some() {
        Err(ParseError::HostPresent)
    } else if parts.port.is_some() {
        Err(ParseError::PortPresent)
    } else {
        match (&parts.host, readings.host_key) {
            (Some(_), Some(id)) => Ok(NodeLocator::Text(id)),
            _ => Err(ParseError::InvalidPubkey),
        }
    }
}

impl NodeLocator {
    /// The locator that the parts of a URL make, given the readings of its
    /// user name and host.
    pub fn from_readings(parts: &UrlParts, readings: &Readings) -> (r: Result<
        NodeLocator,
        ParseError,
    >)
        ensures
            outcome(r) == located(parts@, *readings),
    {
        let scheme = parts.scheme.as_str();
        if same_text(scheme, "lnp") {
            match node_of(parts, readings) {
                Ok((id, addr, port)) => Ok(NodeLocator::Native(id, addr, port)),
                Err(e) => Err(e),
            }
        } else if same_text(scheme, "lnpu") {
            match node_of(parts, readings) {
                Ok((id, addr, port)) => Ok(NodeLocator::Udp(id, addr.to_ip(), port)),
                Err(ParseError::InvalidHost(_)) => Err(ParseError::InvalidIp),
                Err(e) => Err(e),
            }
        } else if same_text(scheme, "lnph") {
            match node_of(parts, readings) {
                Ok((id, addr, port)) => Ok(NodeLocator::Http(id, addr, port)),
                Err(e) => Err(e),
            }
        } else if same_text(scheme, "lnpws") {
            match node_of(parts, readings) {
                Ok((id, addr, port)) => Ok(NodeLocator::Websocket(id, addr, port)),
                Err(e) => Err(e),
            }
        } else if same_text(scheme, "lnpz") {
            queue_of(parts, readings)
        } else if same_text(scheme, "lnpt") {
            text_of(parts, readings)
        } else {
            Err(ParseError::UnknownUrlScheme(parts.scheme.clone()))
        }
    }

    /// The locator that the parts of a URL make.
    pub fn from_url_parts(parts: &UrlParts) -> (r: Result<NodeLocator, ParseError>)
        ensures
            outcome(r) == located(parts@, readings_of(parts@)),
    {
        let readings = Readings::of(parts);
        NodeLocator::from_readings(parts, &readings)
    }

    /// Reads a locator from its URL. A text that begins with none of the
    /// locator's schemes is read as what follows `lnp://`. The in-process
    /// queue has a URL but is never returned: it gives
    /// [`ParseError::InprocRequireZmqContext`].
    pub fn from_str(text: &str) -> (r: Result<NodeLocator, ParseError>)
        ensures
            outcome(r) == parsed(text@),
    {
        let known = starts_with(text, "lnp:") || starts_with(text, "lnpu:") || starts_with(
            text,
            "lnpz:",
        ) || starts_with(text, "lnpws:") || starts_with(text, "lnpt:") || starts_with(
            text,
            "lnph:",
        );
        let url = if known {
            text.to_owned()
        } else {
            "lnp://".to_owned().concat(text)
        };
        match split_url(url.as_str()) {
            Some(parts) => NodeLocator::from_url_parts(&parts),
            None => Err(ParseError::MalformedUrl),
        }
    }
}

impl std::str::FromStr for NodeLocator {
    type Err = ParseError;

    /// Reads a locator from its URL, as [`NodeLocator::from_str`] does.
    fn from_str(text: &str) -> (r: Result<NodeLocator, ParseError>)
        ensures
            outcome(r) == parsed(text@),
    {
        NodeLocator::from_str(text)
    }
}

} // verus!
