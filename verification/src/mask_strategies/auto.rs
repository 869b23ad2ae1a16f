//! The strategy selector driven by the rendering-engine probe.

use crate::area::ComposedHtml;
use crate::browser_detection::{is_gecko, spec_is_gecko};
use crate::geometry::Rect;
use crate::mask_strategies::{DataMask, DocumentMask};
use crate::mask_strategy::{MaskArtifact, MaskArtifactView, MaskStrategy, MaskStrategyMeta};
use vstd::prelude::*;
use vstd::string::StringExecFns;

verus! {

/// The concrete strategy an [`Auto`] instance delegates to.
#[derive(Clone, Copy, Debug)]
pub enum AutoDelegate {
    /// Document-node masks, chosen on Gecko engines.
    Document(DocumentMask),
    /// Inline data-URI masks, chosen everywhere else.
    Data(DataMask),
}

/// A strategy that picks a concrete strategy from a one-time environment
/// probe — the rendering-engine family read off the user-agent string — and
/// forwards every call to that delegate.
///
/// The delegate is public so diagnostics can report which concrete
/// strategy ended up in use.
#[derive(Clone, Copy, Debug)]
pub struct Auto {
    /// The concrete strategy all calls are forwarded to.
    pub delegate: AutoDelegate,
}

impl Auto {
    /// Picks the delegate for the engine the lowercased `user_agent`
    /// string denotes: document-node masks on Gecko, which hot-reloads
    /// them reliably, inline data-URI masks everywhere else.
    pub fn new(user_agent: &str) -> (r: Auto)
        ensures
            spec_is_gecko(user_agent@) ==> r.delegate == AutoDelegate::Document(DocumentMask),
            !spec_is_gecko(user_agent@) ==> r.delegate == AutoDelegate::Data(DataMask),
    {
        if is_gecko(user_agent) {
            Auto { delegate: AutoDelegate::Document(DocumentMask) }
        } else {
            Auto { delegate: AutoDelegate::Data(DataMask) }
        }
    }
}

impl MaskStrategy for Auto {
    open spec fn spec_name(&self) -> Seq<char> {
        match self.delegate {
            AutoDelegate::Document(d) => d.spec_name() + " (auto)"@,
            AutoDelegate::Data(d) => d.spec_name() + " (auto)"@,
        }
    }

    open spec fn artifact_model(&self, html: ComposedHtml, holes: Seq<Rect>) -> MaskArtifactView {
        match self.delegate {
            AutoDelegate::Document(d) => d.artifact_model(html, holes),
            AutoDelegate::Data(d) => d.artifact_model(html, holes),
        }
    }

    fn meta(&self) -> (m: MaskStrategyMeta) {
        let mut m = match &self.delegate {
            AutoDelegate::Document(d) => d.meta(),
            AutoDelegate::Data(d) => d.meta(),
        };
        m.name.append(" (auto)");
        m
    }

    fn setup(&self) {
        match &self.delegate {
            AutoDelegate::Document(d) => d.setup(),
            AutoDelegate::Data(d) => d.setup(),
        }
    }

    fn cleanup(&self) {
        match &self.delegate {
            AutoDelegate::Document(d) => d.cleanup(),
            AutoDelegate::Data(d) => d.cleanup(),
        }
    }

    fn compute_mask(&self, html: &ComposedHtml, holes: &Vec<Rect>) -> (r: MaskArtifact) {
        match &self.delegate {
            AutoDelegate::Document(d) => d.compute_mask(html, holes),
            AutoDelegate::Data(d) => d.compute_mask(html, holes),
        }
    }
}

} // verus!
