//! The structure of an HCF: a static document file of content nodes.

use vstd::prelude::*;
use std::collections::HashMap;
use crate::content::Content;
use crate::content::deep_view_seq;
use crate::context::Context;
use crate::engine::TemplateError;
use crate::engine::TEMPLATE_DEPTH;
use crate::engine::flag_set;
use crate::engine::resolve_seq;
use crate::engine::template_all;

verus! {

/// The structure of an HCF.
pub struct File {
    /// The content of the HCF. Implies a VLayout.
    pub content: Vec<Content>,
    /// Extra data for use with features; carried through, never inspected.
    pub extra: HashMap<String, serde_json::Value>,
}

impl File {
    /// The MIME type of a YAML HCF.
    pub const YAML_MIME_TYPE: &'static str = "application/yaml+hcf";

    /// The MIME type of a JSON HCF.
    pub const JSON_MIME_TYPE: &'static str = "application/json+hcf";

    /// Perform templating on every content node of this file, keeping the
    /// extra data as it is.
    pub fn template(self, context: &Context, flags: &Vec<String>) -> (r: Result<
        File,
        TemplateError,
    >)
        ensures
            match r {
                Ok(out) => resolve_seq(
                    deep_view_seq(self.content@),
                    context@,
                    flag_set(flags@),
                    TEMPLATE_DEPTH as nat,
                ) == Some(deep_view_seq(out.content@)) && out.extra@ == self.extra@,
                Err(e) => resolve_seq(
                    deep_view_seq(self.content@),
                    context@,
                    flag_set(flags@),
                    TEMPLATE_DEPTH as nat,
                ) is None && e == TemplateError::Cycle,
            },
    {
        match template_all(&self.content, context, flags) {
            Ok(content) => Ok(File { content, extra: self.extra }),
            Err(e) => Err(e),
        }
    }
}

impl Default for File {
    /// An empty file: no content and no extra data.
    fn default() -> (r: Self)
        ensures
            r.content@ == Seq::<Content>::empty(),
            r.extra@ == Map::<String, serde_json::Value>::empty(),
    {
        File { content: Vec::new(), extra: HashMap::new() }
    }
}

} // verus!
