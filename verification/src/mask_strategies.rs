//! The concrete masking strategies and their runtime selection.
//!
//! By default the engine uses [`Auto`], which picks a concrete strategy
//! from the rendering-engine family once, at construction time.

pub mod auto;
pub mod data_mask;
pub mod document_mask;
pub mod hiding;
pub mod nop;

pub use auto::Auto;
pub use data_mask::DataMask;
pub use document_mask::DocumentMask;
pub use hiding::Hide;
pub use nop::Nop;

use crate::area::ComposedHtml;
use crate::geometry::{rect_to_relative, spec_rect_to_relative, Rect};
use crate::mask_strategy::{MaskArtifact, MaskArtifactView, MaskStrategy, MaskStrategyMeta};
use vstd::prelude::*;

verus! {

/// The occluder rectangles mapped into `parent`'s local coordinate space.
pub open spec fn spec_relative_holes(parent: Rect, holes: Seq<Rect>) -> Seq<Rect> {
    holes.map_values(|h: Rect| spec_rect_to_relative(h, parent))
}

/// Maps each occluder rectangle into `parent`'s local coordinate space.
pub fn relative_holes(parent: Rect, holes: &Vec<Rect>) -> (r: Vec<Rect>)
    requires
        parent.wf(),
        forall|i: int| 0 <= i < holes@.len() ==> holes@[i].wf(),
    ensures
        r@ == spec_relative_holes(parent, holes@),
        forall|i: int| 0 <= i < r@.len() ==> r@[i].rel_wf(),
{
    let mut out: Vec<Rect> = Vec::new();
    let mut i: usize = 0;
    while i < holes.len()
        invariant
            parent.wf(),
            i <= holes@.len(),
            forall|j: int| 0 <= j < holes@.len() ==> holes@[j].wf(),
            out@ == spec_relative_holes(parent, holes@.take(i as int)),
            forall|j: int| 0 <= j < out@.len() ==> out@[j].rel_wf(),
        decreases holes@.len() - i,
    {
        out.push(rect_to_relative(holes[i], parent));
        proof {
            assert(holes@.take(i + 1) =~= holes@.take(i as int).push(holes@[i as int]));
            assert(out@ =~= spec_relative_holes(parent, holes@.take(i + 1)));
        }
        i = i + 1;
    }
    proof {
        assert(holes@.take(holes@.len() as int) =~= holes@);
    }
    out
}

/// A runtime-selectable masking strategy: one variant per concrete
/// strategy, so the registry can hold and switch strategies as values.
#[derive(Debug)]
pub enum Strategy {
    /// Delegates to a concrete strategy picked from the engine family.
    Auto(Auto),
    /// Inline vector-image masks encoded as data URIs.
    Data(DataMask),
    /// Mask definition nodes kept in the document.
    Document(DocumentMask),
    /// Hides occluded content outright.
    Hide(Hide),
    /// Disables masking.
    Nop(Nop),
}

impl MaskStrategy for Strategy {
    open spec fn spec_name(&self) -> Seq<char> {
        match self {
            Strategy::Auto(s) => s.spec_name(),
            Strategy::Data(s) => s.spec_name(),
            Strategy::Document(s) => s.spec_name(),
            Strategy::Hide(s) => s.spec_name(),
            Strategy::Nop(s) => s.spec_name(),
        }
    }

    open spec fn artifact_model(&self, html: ComposedHtml, holes: Seq<Rect>) -> MaskArtifactView {
        match self {
            Strategy::Auto(s) => s.artifact_model(html, holes),
            Strategy::Data(s) => s.artifact_model(html, holes),
            Strategy::Document(s) => s.artifact_model(html, holes),
            Strategy::Hide(s) => s.artifact_model(html, holes),
            Strategy::Nop(s) => s.artifact_model(html, holes),
        }
    }

    fn meta(&self) -> (m: MaskStrategyMeta) {
        match self {
            Strategy::Auto(s) => s.meta(),
            Strategy::Data(s) => s.meta(),
            Strategy::Document(s) => s.meta(),
            Strategy::Hide(s) => s.meta(),
            Strategy::Nop(s) => s.meta(),
        }
    }

    fn setup(&self) {
        match self {
            Strategy::Auto(s) => s.setup(),
            Strategy::Data(s) => s.setup(),
            Strategy::Document(s) => s.setup(),
            Strategy::Hide(s) => s.setup(),
            Strategy::Nop(s) => s.setup(),
        }
    }

    fn cleanup(&self) {
        match self {
            Strategy::Auto(s) => s.cleanup(),
            Strategy::Data(s) => s.cleanup(),
            Strategy::Document(s) => s.cleanup(),
            Strategy::Hide(s) => s.cleanup(),
            Strategy::Nop(s) => s.cleanup(),
        }
    }

    fn compute_mask(&self, html: &ComposedHtml, holes: &Vec<Rect>) -> (r: MaskArtifact) {
        match self {
            Strategy::Auto(s) => s.compute_mask(html, holes),
            Strategy::Data(s) => s.compute_mask(html, holes),
            Strategy::Document(s) => s.compute_mask(html, holes),
            Strategy::Hide(s) => s.compute_mask(html, holes),
            Strategy::Nop(s) => s.compute_mask(html, holes),
        }
    }
}

} // verus!
