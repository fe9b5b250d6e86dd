//! Node identities: compressed secp256k1 public keys, held as their bytes.

use vstd::prelude::*;
use crate::error::ParseError;
use crate::text::{hex_string, hex_text};
use std::str::FromStr;

verus! {

/// The identity of a node: the 33 bytes of a compressed public key. Two
/// identities are the same when their bytes are.
#[derive(Clone, Copy, Debug, PartialEq, Eq, Hash)]
pub struct NodeId {
    pub bytes: [u8; 33],
}

/// The node id that `secp256k1` reads from a text, if it reads one.
pub uninterp spec fn node_id_parse(text: Seq<char>) -> Option<NodeId>;

/// Reads a public key with `secp256k1::PublicKey::from_str` and takes its
/// compressed serialization.
#[verifier::external_body]
pub(crate) fn parse_public_key(text: &str) -> (r: Option<NodeId>)
    ensures
        r == node_id_parse(text@),
{
    match bitcoin::secp256k1::PublicKey::from_str(text) {
        Ok(key) => Some(NodeId { bytes: key.serialize() }),
        Err(_) => None,
    }
}

/// Whether two byte arrays of one length hold the same bytes.
pub fn same_bytes<const N: usize>(a: &[u8; N], b: &[u8; N]) -> (r: bool)
    ensures
        r == (*a == *b),
{
    let mut i: usize = 0;
    while i < N
        invariant
            i <= N,
            forall|j: int| 0 <= j < i ==> a@[j] == b@[j],
        decreases N - i,
    {
        if a[i] != b[i] {
            return false;
        }
        i = i + 1;
    }
    assert(*a =~= *b);
    true
}

impl NodeId {
    /// The text of this identity: its bytes in hexadecimal notation.
    pub open spec fn text(self) -> Seq<char> {
        hex_text(self.bytes@)
    }

    /// Reads an identity from the hexadecimal text of a public key. A text
    /// that is no public key gives [`ParseError::InvalidPubkey`].
    pub fn from_str(text: &str) -> (r: Result<NodeId, ParseError>)
        ensures
            match node_id_parse(text@) {
                Some(id) => r == Ok::<NodeId, ParseError>(id),
                None => r == Err::<NodeId, ParseError>(ParseError::InvalidPubkey),
            },
    {
        match parse_public_key(text) {
            Some(id) => Ok(id),
            None => Err(ParseError::InvalidPubkey),
        }
    }

    /// Writes this identity as 66 hexadecimal digits.
    pub fn to_string(&self) -> (r: String)
        ensures
            r@ == self.text(),
    {
        hex_string(self.bytes.as_slice())
    }

    /// Whether this identity and the other have the same bytes.
    pub fn same(&self, other: &NodeId) -> (r: bool)
        ensures
            r == (*self == *other),
    {
        same_bytes(&self.bytes, &other.bytes)
    }
}

} // verus!
