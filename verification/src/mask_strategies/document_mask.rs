//! The strategy that keeps its mask definition in the document.

use crate::area::ComposedHtml;
use crate::geometry::Rect;
use crate::markup::{
    build_base_style, build_document_mask_svg, spec_base_style, spec_document_mask_svg,
};
use crate::mask_strategies::{relative_holes, spec_relative_holes};
use crate::mask_strategy::{MaskArtifact, MaskArtifactView, MaskStrategy, MaskStrategyMeta};
use vstd::prelude::*;
use vstd::string::StringExecFns;

verus! {

/// The style applied by the document strategy: position the element and
/// reference its mask definition node by id.
pub open spec fn spec_document_mask_style(html: ComposedHtml) -> Seq<char> {
    spec_base_style(html.rect, html.status.interactive, html.status.visible) + " mask: url(#"@
        + html.id@ + "-mask);"@
}

/// A strategy with the same hole-rectangle geometry as the data-URI one,
/// but which writes the mask definition into a document node and references
/// it by id from the masked element's style.
///
/// Cheaper to update than re-encoding an image, but only safe on engines
/// that reliably hot-reload referenced mask definitions.
#[derive(Clone, Copy, Debug)]
pub struct DocumentMask;

impl DocumentMask {
    /// Creates the strategy.
    pub fn new() -> (r: DocumentMask)
        ensures
            r == DocumentMask,
    {
        DocumentMask
    }
}

impl MaskStrategy for DocumentMask {
    open spec fn spec_name(&self) -> Seq<char> {
        "document_mask"@
    }

    open spec fn artifact_model(&self, html: ComposedHtml, holes: Seq<Rect>) -> MaskArtifactView {
        MaskArtifactView {
            style: spec_document_mask_style(html),
            mask_def: Option::Some(
                spec_document_mask_svg(
                    html.id@,
                    html.rect.max_x - html.rect.min_x,
                    html.rect.max_y - html.rect.min_y,
                    spec_relative_holes(html.rect, holes),
                ),
            ),
        }
    }

    fn meta(&self) -> (m: MaskStrategyMeta) {
        MaskStrategyMeta { name: String::from_str("document_mask") }
    }

    fn setup(&self) {
    }

    fn cleanup(&self) {
    }

    fn compute_mask(&self, html: &ComposedHtml, holes: &Vec<Rect>) -> (r: MaskArtifact) {
        let rel = relative_holes(html.rect, holes);
        let svg = build_document_mask_svg(
            html.id.as_str(),
            html.rect.max_x - html.rect.min_x,
            html.rect.max_y - html.rect.min_y,
            &rel,
        );
        let mut style = build_base_style(html.rect, html.status.interactive, html.status.visible);
        style.append(" mask: url(#");
        style.append(html.id.as_str());
        style.append("-mask);");
        let r = MaskArtifact { style, mask_def: Option::Some(svg) };
        proof {
            assert(r@.style =~= spec_document_mask_style(*html));
            assert(r@ =~= self.artifact_model(*html, holes@));
        }
        r
    }
}

} // verus!
