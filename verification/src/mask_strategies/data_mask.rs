//! The strategy that inlines its mask image as a data URI.

use crate::area::ComposedHtml;
use crate::encode::{encode_data_uri, spec_data_uri};
use crate::geometry::Rect;
use crate::markup::{build_base_style, build_mask_svg, spec_base_style, spec_mask_svg};
use crate::mask_strategies::{relative_holes, spec_relative_holes};
use crate::mask_strategy::{MaskArtifact, MaskArtifactView, MaskStrategy, MaskStrategyMeta};
use vstd::prelude::*;
use vstd::string::StringExecFns;

verus! {

/// The style applied by the data-URI strategy: position the element and
/// set its mask to the inline image.
pub open spec fn spec_data_mask_style(html: ComposedHtml, uri: Seq<char>) -> Seq<char> {
    spec_base_style(html.rect, html.status.interactive, html.status.visible) + " mask: url("@ + uri
        + "); -webkit-mask: url("@ + uri + ");"@
}

/// A strategy that builds an inline vector-image mask — a filled rectangle
/// with a rounded-rect hole at each occluder's position — and encodes it as
/// a data URI consumed by the CSS `mask` property.
///
/// Self-contained, at the cost of re-encoding the full image whenever
/// anything moves: a correctness-over-efficiency tradeoff for engines
/// without reliable live-document-mask support.
#[derive(Clone, Copy, Debug)]
pub struct DataMask;

impl DataMask {
    /// Creates the strategy.
    pub fn new() -> (r: DataMask)
        ensures
            r == DataMask,
    {
        DataMask
    }
}

impl MaskStrategy for DataMask {
    open spec fn spec_name(&self) -> Seq<char> {
        "data_mask"@
    }

    open spec fn artifact_model(&self, html: ComposedHtml, holes: Seq<Rect>) -> MaskArtifactView {
        let uri = spec_data_uri(
            spec_mask_svg(
                html.rect.max_x - html.rect.min_x,
                html.rect.max_y - html.rect.min_y,
                spec_relative_holes(html.rect, holes),
            ),
        );
        MaskArtifactView { style: spec_data_mask_style(html, uri), mask_def: Option::None }
    }

    fn meta(&self) -> (m: MaskStrategyMeta) {
        MaskStrategyMeta { name: String::from_str("data_mask") }
    }

    fn setup(&self) {
    }

    fn cleanup(&self) {
    }

    fn compute_mask(&self, html: &ComposedHtml, holes: &Vec<Rect>) -> (r: MaskArtifact) {
        let rel = relative_holes(html.rect, holes);
        let svg = build_mask_svg(
            html.rect.max_x - html.rect.min_x,
            html.rect.max_y - html.rect.min_y,
            &rel,
        );
        let uri = encode_data_uri(svg.as_str());
        let mut style = build_base_style(html.rect, html.status.interactive, html.status.visible);
        style.append(" mask: url(");
        style.append(uri.as_str());
        style.append("); -webkit-mask: url(");
        style.append(uri.as_str());
        style.append(");");
        let r = MaskArtifact { style, mask_def: Option::None };
        proof {
            assert(r@.style =~= spec_data_mask_style(*html, spec_data_uri(svg@)));
            assert(r@ =~= self.artifact_model(*html, holes@));
        }
        r
    }
}

} // verus!
