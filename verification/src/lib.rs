//! Node locators of the LNP overlay protocol: one address type for every
//! transport a peer can be reached over, with its URL form, its notion of
//! equality and its projections into local and remote addresses.
//!
//! Keys, host literals and URLs are read by the `secp256k1`, `amplify` and
//! `url` crates. Each of those calls stands in one small function whose
//! contract is taken on trust; everything around them is proved.

pub mod equality;
pub mod error;
pub mod inet;
pub mod laws;
pub mod local_addr;
pub mod locator;
pub mod node_addr;
pub mod node_id;
pub mod parse;
pub mod text;
pub mod url_parts;
pub mod zmqsocket;

pub use error::{ParseError, ParseErrorView};
pub use inet::{inet_addr_parse, inet_addr_text, InetAddr, IpAddr};
pub use local_addr::LocalAddr;
pub use locator::{port_text, LocatorView, NodeLocator};
pub use node_addr::{InetSocketAddr, NodeAddr, RemoteAddr};
pub use node_id::{node_id_parse, NodeId};
pub use parse::{
    has_scheme, located, located_node, located_queue, located_role, located_text, located_udp,
    outcome, parsed, readings_of, with_scheme, Readings,
};
pub use text::{decimal, digit_char, hex_text, lower_ascii, lower_char};
pub use url_parts::{first_value, url_split, UrlParts, UrlPartsView};
pub use zmqsocket::{role_of_token, ApiType, SocketAddr, SocketLocator};
