//! The strategy that disables masking.

use crate::area::ComposedHtml;
use crate::geometry::Rect;
use crate::markup::{build_base_style, spec_base_style};
use crate::mask_strategy::{MaskArtifact, MaskArtifactView, MaskStrategy, MaskStrategyMeta};
use vstd::prelude::*;
use vstd::string::StringExecFns;

verus! {

/// A strategy that performs no masking: elements are positioned and styled
/// but occluders are ignored.  Using this disables composition, which can
/// help debugging.
#[derive(Clone, Copy, Debug)]
pub struct Nop;

impl Nop {
    /// Creates the strategy.
    pub fn new() -> (r: Nop)
        ensures
            r == Nop,
    {
        Nop
    }
}

impl MaskStrategy for Nop {
    open spec fn spec_name(&self) -> Seq<char> {
        "nop"@
    }

    open spec fn artifact_model(&self, html: ComposedHtml, holes: Seq<Rect>) -> MaskArtifactView {
        MaskArtifactView {
            style: spec_base_style(html.rect, html.status.interactive, html.status.visible),
            mask_def: Option::None,
        }
    }

    fn meta(&self) -> (m: MaskStrategyMeta) {
        MaskStrategyMeta { name: String::from_str("nop") }
    }

    fn setup(&self) {
    }

    fn cleanup(&self) {
    }

    fn compute_mask(&self, html: &ComposedHtml, holes: &Vec<Rect>) -> (r: MaskArtifact) {
        let style = build_base_style(html.rect, html.status.interactive, html.status.visible);
        let r = MaskArtifact { style, mask_def: Option::None };
        proof {
            assert(r@ =~= self.artifact_model(*html, holes@));
        }
        r
    }
}

} // verus!
