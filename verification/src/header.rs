//! The structure of the HCP_INFO header, the protocol-negotiation field a
//! server sends alongside a document.

use vstd::prelude::*;

verus! {

/// The structure of the HCP_INFO header.
#[derive(Debug, PartialEq, Eq)]
pub struct Header {
    /// The identity scopes the server wants to receive.
    pub scopes: Vec<String>,
    /// The features the server supports.
    pub features: Vec<String>,
    /// The features the server requires.
    pub required: Vec<String>,
}

} // verus!
