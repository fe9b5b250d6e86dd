//! When two locators are equal, and how a locator is hashed.
//!
//! Equality is not that of the fields: the listening and the connecting end
//! of a peer socket are one endpoint, so two locators that differ only in
//! that count as equal. The hash goes by the URL, which shows one token for
//! both ends, so equal locators hash alike.

use vstd::prelude::*;
use crate::locator::NodeLocator;
use std::hash::Hash;
use std::hash::Hasher;

verus! {

impl NodeLocator {
    /// Whether this locator and the other stand for one endpoint.
    pub fn same_endpoint(&self, other: &NodeLocator) -> (r: bool)
        ensures
            r == self@.same_endpoint(other@),
    {
        match (self, other) {
            (NodeLocator::Native(a1, a2, a3), NodeLocator::Native(b1, b2, b3)) => a1.same(b1)
                && a2.same(b2) && *a3 == *b3,
            (NodeLocator::Udp(a1, a2, a3), NodeLocator::Udp(b1, b2, b3)) => a1.same(b1) && a2.same(
                b2,
            ) && *a3 == *b3,
            (NodeLocator::Posix(a1), NodeLocator::Posix(b1)) => *a1 == *b1,
            (NodeLocator::ZmqIpc(a1, a2), NodeLocator::ZmqIpc(b1, b2)) => *a1 == *b1
                && a2.same_endpoint(b2),
            (NodeLocator::ZmqInproc(a1, a2), NodeLocator::ZmqInproc(b1, b2)) => *a1 == *b1
                && a2.same_endpoint(b2),
            (
                NodeLocator::ZmqTcpEncrypted(a1, a2, a3, a4),
                NodeLocator::ZmqTcpEncrypted(b1, b2, b3, b4),
            ) => a1.same(b1) && a2.same_endpoint(b2) && a3.same(b3) && *a4 == *b4,
            (
                NodeLocator::ZmqTcpUnencrypted(a1, a2, a3),
                NodeLocator::ZmqTcpUnencrypted(b1, b2, b3),
            ) => a1.same_endpoint(b1) && a2.same(b2) && *a3 == *b3,
            (NodeLocator::Http(a1, a2, a3), NodeLocator::Http(b1, b2, b3)) => a1.same(b1)
                && a2.same(b2) && *a3 == *b3,
            (NodeLocator::Websocket(a1, a2, a3), NodeLocator::Websocket(b1, b2, b3)) => a1.same(b1)
                && a2.same(b2) && *a3 == *b3,
            (NodeLocator::Text(a1), NodeLocator::Text(b1)) => a1.same(b1),
            _ => false,
        }
    }
}

impl PartialEq for NodeLocator {
    fn eq(&self, other: &NodeLocator) -> (r: bool) {
        self.same_endpoint(other)
    }
}

impl vstd::std_specs::cmp::PartialEqSpecImpl for NodeLocator {
    open spec fn obeys_eq_spec() -> bool {
        true
    }

    open spec fn eq_spec(&self, other: &NodeLocator) -> bool {
        self@.same_endpoint(other@)
    }
}

impl Eq for NodeLocator {

}

/// Hands the bytes of a text to a hasher with `Hasher::write`.
#[verifier::external_body]
fn feed<H: Hasher>(state: &mut H, text: &str) {
    state.write(text.as_bytes());
}

impl Hash for NodeLocator {
    /// Feeds the hasher the locator's URL.
    fn hash<H: Hasher>(&self, state: &mut H) {
        let url = self.to_url_string();
        feed(state, url.as_str());
    }
}

} // verus!
