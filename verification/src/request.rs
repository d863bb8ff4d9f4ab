//! The format used in the bodies of HCP requests.

use vstd::prelude::*;
use std::collections::HashMap;

verus! {

/// The format used in the bodies of HCP requests.
pub struct Request {
    /// The features the client would like to be taken into account for this
    /// request.
    pub features: Vec<String>,
    /// The identities the client is providing for this request; carried
    /// through, never inspected.
    pub identities: HashMap<String, uuid::Uuid>,
    /// Extra data for features; carried through, never inspected.
    pub extra: HashMap<String, serde_json::Value>,
}

impl Request {
    /// The MIME type of the request.
    pub const MIME_TYPE: &'static str = "application/cbor+hcprequest";
}

impl Default for Request {
    /// An empty request: no features, no identities and no extra data.
    fn default() -> (r: Self)
        ensures
            r.features@ == Seq::<String>::empty(),
            r.identities@ == Map::<String, uuid::Uuid>::empty(),
            r.extra@ == Map::<String, serde_json::Value>::empty(),
    {
        Request { features: Vec::new(), identities: HashMap::new(), extra: HashMap::new() }
    }
}

} // verus!
