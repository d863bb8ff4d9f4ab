//! The structure of the body of an HCP response.

use vstd::prelude::*;
use std::collections::HashMap;
use crate::content::Content;
use crate::content::deep_view_seq;
use crate::context::Context;
use crate::engine::TemplateError;
use crate::engine::TEMPLATE_DEPTH;
use crate::engine::flag_set;
use crate::engine::resolve_seq;
use crate::engine::template_all;

verus! {

/// The structure of the body of a response.
pub struct Response {
    /// The content of the response. Implies a VLayout.
    pub content: Vec<Content>,
    /// Extra metadata included for use with new features; carried through,
    /// never inspected.
    pub extra: HashMap<String, serde_json::Value>,
}

impl Response {
    /// The MIME type of the response.
    pub const MIME_TYPE: &'static str = "application/cbor+hcpresponse";

    /// Perform templating on every content node of this response, keeping
    /// the extra metadata as it is.
    pub fn template(self, context: &Context, flags: &Vec<String>) -> (r: Result<
        Response,
        TemplateError,
    >)
        ensures
            match r {
                Ok(out) => resolve_seq(
                    deep_view_seq(self.content@),
                    context@,
                    flag_set(flags@),
                    TEMPLATE_DEPTH as nat,
                ) == Some(deep_view_seq(out.content@)) && out.extra@ == self.extra@,
                Err(e) => resolve_seq(
                    deep_view_seq(self.content@),
                    context@,
                    flag_set(flags@),
                    TEMPLATE_DEPTH as nat,
                ) is None && e == TemplateError::Cycle,
            },
    {
        match template_all(&self.content, context, flags) {
            Ok(content) => Ok(Response { content, extra: self.extra }),
            Err(e) => Err(e),
        }
    }
}

} // verus!
