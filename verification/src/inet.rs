//! Network addresses: raw IP addresses, and the addresses a node can be
//! reached under.

use vstd::prelude::*;
use crate::error::ParseError;
use crate::node_id::same_bytes;
use std::str::FromStr;

verus! {

/// A raw IP address, by its bytes in network order.
#[derive(Clone, Copy, Debug, PartialEq, Eq, Hash)]
pub enum IpAddr {
    V4([u8; 4]),
    V6([u8; 16]),
}

/// The address under which a node is reached. The address library reads
/// and writes it; without its support for Tor it knows IPv4 and IPv6
/// addresses, and an onion address is no address to it.
#[derive(Clone, Copy, Debug, PartialEq, Eq, Hash)]
pub enum InetAddr {
    IPv4([u8; 4]),
    IPv6([u8; 16]),
}

/// The address that `amplify` reads from a host literal, if it reads one.
pub uninterp spec fn inet_addr_parse(text: Seq<char>) -> Option<InetAddr>;

/// The text that `amplify` writes for an address.
pub uninterp spec fn inet_addr_text(addr: InetAddr) -> Seq<char>;

/// Reads a host literal with `amplify::internet::InetAddr::from_str`, which
/// hands the text to the standard library's IP address parser.
#[verifier::external_body]
pub(crate) fn parse_host(text: &str) -> (r: Option<InetAddr>)
    ensures
        r == inet_addr_parse(text@),
{
    match amplify::internet::InetAddr::from_str(text) {
        Ok(amplify::internet::InetAddr::IPv4(ip)) => Some(InetAddr::IPv4(ip.octets())),
        Ok(amplify::internet::InetAddr::IPv6(ip)) => Some(InetAddr::IPv6(ip.octets())),
        _ => None,
    }
}

/// Writes an address as `amplify::internet::InetAddr` displays it.
#[verifier::external_body]
pub(crate) fn format_host(addr: &InetAddr) -> (r: String)
    ensures
        r@ == inet_addr_text(*addr),
{
    match addr {
        InetAddr::IPv4(octets) => amplify::internet::InetAddr::from(*octets).to_string(),
        InetAddr::IPv6(octets) => amplify::internet::InetAddr::from(*octets).to_string(),
    }
}

impl IpAddr {
    /// This address as a network address.
    pub open spec fn inet(self) -> InetAddr {
        match self {
            IpAddr::V4(octets) => InetAddr::IPv4(octets),
            IpAddr::V6(octets) => InetAddr::IPv6(octets),
        }
    }

    /// The text of this address.
    pub open spec fn text(self) -> Seq<char> {
        inet_addr_text(self.inet())
    }

    /// Reads an IP address from a literal. A text that is none gives
    /// [`ParseError::InvalidIp`].
    pub fn from_str(text: &str) -> (r: Result<IpAddr, ParseError>)
        ensures
            match inet_addr_parse(text@) {
                Some(addr) => r == Ok::<IpAddr, ParseError>(addr.ip()),
                None => r == Err::<IpAddr, ParseError>(ParseError::InvalidIp),
            },
    {
        match parse_host(text) {
            Some(addr) => Ok(addr.to_ip()),
            None => Err(ParseError::InvalidIp),
        }
    }

    /// This address as a network address.
    pub fn to_inet(&self) -> (r: InetAddr)
        ensures
            r == self.inet(),
    {
        match self {
            IpAddr::V4(octets) => InetAddr::IPv4(*octets),
            IpAddr::V6(octets) => InetAddr::IPv6(*octets),
        }
    }

    /// Writes this address as a literal.
    pub fn to_string(&self) -> (r: String)
        ensures
            r@ == self.text(),
    {
        format_host(&self.to_inet())
    }

    /// Whether this address and the other are the same.
    pub fn same(&self, other: &IpAddr) -> (r: bool)
        ensures
            r == (*self == *other),
    {
        match (self, other) {
            (IpAddr::V4(a), IpAddr::V4(b)) => same_bytes(a, b),
            (IpAddr::V6(a), IpAddr::V6(b)) => same_bytes(a, b),
            _ => false,
        }
    }
}

impl InetAddr {
    /// The raw IP address behind this address.
    pub open spec fn ip(self) -> IpAddr {
        match self {
            InetAddr::IPv4(octets) => IpAddr::V4(octets),
            InetAddr::IPv6(octets) => IpAddr::V6(octets),
        }
    }

    /// The text of this address.
    pub open spec fn text(self) -> Seq<char> {
        inet_addr_text(self)
    }

    /// Reads an address from a host literal. A text that is none gives
    /// [`ParseError::InvalidHost`] with that text.
    pub fn from_str(text: &str) -> (r: Result<InetAddr, ParseError>)
        ensures
            match inet_addr_parse(text@) {
                Some(addr) => r == Ok::<InetAddr, ParseError>(addr),
                None => r matches Err(ParseError::InvalidHost(host)) && host@ == text@,
            },
    {
        match parse_host(text) {
            Some(addr) => Ok(addr),
            None => Err(ParseError::InvalidHost(text.to_owned())),
        }
    }

    /// The raw IP address behind this address.
    pub fn to_ip(&self) -> (r: IpAddr)
        ensures
            r == self.ip(),
    {
        match self {
            InetAddr::IPv4(octets) => IpAddr::V4(*octets),
            InetAddr::IPv6(octets) => IpAddr::V6(*octets),
        }
    }

    /// Writes this address as a host literal.
    pub fn to_string(&self) -> (r: String)
        ensures
            r@ == self.text(),
    {
        format_host(self)
    }

    /// Whether this address and the other are the same.
    pub fn same(&self, other: &InetAddr) -> (r: bool)
        ensures
            r == (*self == *other),
    {
        match (self, other) {
            (InetAddr::IPv4(a), InetAddr::IPv4(b)) => same_bytes(a, b),
            (InetAddr::IPv6(a), InetAddr::IPv6(b)) => same_bytes(a, b),
            _ => false,
        }
    }
}

} // verus!
