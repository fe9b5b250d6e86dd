//! The ways in which reading or converting a locator fails.

use vstd::prelude::*;

verus! {

/// Errors from reading a locator out of a text and from converting one into
/// a local address.
#[derive(Clone, PartialEq, Eq, Hash, Debug)]
pub enum ParseError {
    /// The locator's transport cannot serve as a local address.
    UnsupportedForLocalAddr,
    /// The text is no URL.
    MalformedUrl,
    /// The URL scheme, which the variant holds, is none of the locator's.
    UnknownUrlScheme(String),
    /// The URL has no host, and its scheme needs one.
    HostRequired,
    /// The node id is no public key.
    InvalidPubkey,
    /// The host, which the variant holds, is neither an IPv4 nor an IPv6
    /// address. Names are not resolved.
    InvalidHost(String),
    /// The URL has a host, and its scheme takes none.
    HostPresent,
    /// The URL has a port, and its scheme takes none.
    PortPresent,
    /// The host is no IP address.
    InvalidIp,
    /// The queue role, which the variant holds in lower case, is none of
    /// `p2p`, `rpc`, `sub` and `esb`.
    InvalidZmqType(String),
    /// The URL names no queue role, and its scheme needs one.
    ApiTypeRequired,
    /// An in-process queue cannot be found from a text alone: it lives in
    /// the context of a running process.
    InprocRequireZmqContext,
}

/// A [`ParseError`] with each text as its characters.
pub enum ParseErrorView {
    UnsupportedForLocalAddr,
    MalformedUrl,
    UnknownUrlScheme(Seq<char>),
    HostRequired,
    InvalidPubkey,
    InvalidHost(Seq<char>),
    HostPresent,
    PortPresent,
    InvalidIp,
    InvalidZmqType(Seq<char>),
    ApiTypeRequired,
    InprocRequireZmqContext,
}

impl View for ParseError {
    type V = ParseErrorView;

    open spec fn view(&self) -> ParseErrorView {
        match self {
            ParseError::UnsupportedForLocalAddr => ParseErrorView::UnsupportedForLocalAddr,
            ParseError::MalformedUrl => ParseErrorView::MalformedUrl,
            ParseError::UnknownUrlScheme(scheme) => ParseErrorView::UnknownUrlScheme(scheme@),
            ParseError::HostRequired => ParseErrorView::HostRequired,
            ParseError::InvalidPubkey => ParseErrorView::InvalidPubkey,
            ParseError::InvalidHost(host) => ParseErrorView::InvalidHost(host@),
            ParseError::HostPresent => ParseErrorView::HostPresent,
            ParseError::PortPresent => ParseErrorView::PortPresent,
            ParseError::InvalidIp => ParseErrorView::InvalidIp,
            ParseError::InvalidZmqType(role) => ParseErrorView::InvalidZmqType(role@),
            ParseError::ApiTypeRequired => ParseErrorView::ApiTypeRequired,
            ParseError::InprocRequireZmqContext => ParseErrorView::InprocRequireZmqContext,
        }
    }
}

} // verus!
