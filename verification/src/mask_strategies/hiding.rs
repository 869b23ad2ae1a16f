//! The degraded strategy that hides occluded content outright.

use crate::area::ComposedHtml;
use crate::geometry::Rect;
use crate::markup::{build_base_style, spec_base_style};
use crate::mask_strategy::{MaskArtifact, MaskArtifactView, MaskStrategy, MaskStrategyMeta};
use vstd::prelude::*;
use vstd::string::StringExecFns;

verus! {

/// A strategy that hides the HTML element whenever any occluder exists.
///
/// Zero geometric precision, maximum compatibility: content can never be
/// partially covered, only shown or hidden whole.
#[derive(Clone, Copy, Debug)]
pub struct Hide;

impl Hide {
    /// Creates the strategy.
    pub fn new() -> (r: Hide)
        ensures
            r == Hide,
    {
        Hide
    }
}

impl MaskStrategy for Hide {
    open spec fn spec_name(&self) -> Seq<char> {
        "hide"@
    }

    open spec fn artifact_model(&self, html: ComposedHtml, holes: Seq<Rect>) -> MaskArtifactView {
        let clear = holes.len() == 0;
        MaskArtifactView {
            style: spec_base_style(
                html.rect,
                html.status.interactive && clear,
                html.status.visible && clear,
            ),
            mask_def: Option::None,
        }
    }

    fn meta(&self) -> (m: MaskStrategyMeta) {
        MaskStrategyMeta { name: String::from_str("hide") }
    }

    fn setup(&self) {
    }

    fn cleanup(&self) {
    }

    fn compute_mask(&self, html: &ComposedHtml, holes: &Vec<Rect>) -> (r: MaskArtifact) {
        let clear = holes.len() == 0;
        let style = build_base_style(
            html.rect,
            html.status.interactive && clear,
            html.status.visible && clear,
        );
        let r = MaskArtifact { style, mask_def: Option::None };
        proof {
            assert(r@ =~= self.artifact_model(*html, holes@));
        }
        r
    }
}

} // verus!
