//! The pluggable masking-strategy abstraction.
//!
//! A strategy turns an area's occluder rectangles into a [`MaskArtifact`]:
//! the complete per-element payload (a style attribute value, and for
//! document-based strategies a mask definition node) that the host adapter
//! writes to the render surface.  Computing the artifact is a pure function
//! of its inputs; applying it is the registry's job, which skips the write
//! when the artifact is unchanged.

use crate::area::ComposedHtml;
use crate::geometry::Rect;
use vstd::prelude::*;

verus! {

/// Metadata describing a mask strategy.
#[derive(Clone, Debug)]
pub struct MaskStrategyMeta {
    /// An identifiable name for the strategy.
    pub name: String,
}

/// The mathematical value of a [`MaskArtifact`].
#[verifier::ext_equal]
pub struct MaskArtifactView {
    /// The style attribute value, as a character sequence.
    pub style: Seq<char>,
    /// The mask definition node, if the strategy keeps one in the document.
    pub mask_def: Option<Seq<char>>,
}

/// A strategy-specific mask artifact: everything that must be written to
/// the render surface for one masked element in one frame.
#[derive(Debug, PartialEq, Eq)]
pub struct MaskArtifact {
    /// The full style attribute value for the element.
    pub style: String,
    /// A mask definition node to place in the document, for strategies
    /// that reference their mask by id rather than inlining it.
    pub mask_def: Option<String>,
}

impl View for MaskArtifact {
    type V = MaskArtifactView;

    open spec fn view(&self) -> MaskArtifactView {
        MaskArtifactView {
            style: self.style@,
            mask_def: match self.mask_def {
                Option::Some(s) => Option::Some(s@),
                Option::None => Option::None,
            },
        }
    }
}

impl Clone for MaskArtifact {
    /// An exact copy.
    fn clone(&self) -> (r: MaskArtifact)
        ensures
            r == *self,
    {
        MaskArtifact {
            style: self.style.clone(),
            mask_def: match &self.mask_def {
                Option::Some(s) => Option::Some(s.clone()),
                Option::None => Option::None,
            },
        }
    }
}

impl MaskArtifact {
    /// Whether two artifacts carry the same payload.
    pub fn same_as(&self, other: &MaskArtifact) -> (r: bool)
        ensures
            r == (self@ == other@),
    {
        let styles_equal = self.style.eq(&other.style);
        let defs_equal = match (&self.mask_def, &other.mask_def) {
            (Option::None, Option::None) => true,
            (Option::Some(a), Option::Some(b)) => a.eq(b),
            _ => false,
        };
        proof {
            if styles_equal && defs_equal {
                assert(self@ =~~= other@);
            }
        }
        styles_equal && defs_equal
    }
}

/// A masking strategy: a pure artifact computation plus the hooks invoked
/// when the strategy is installed or replaced at runtime.
pub trait MaskStrategy: Sized {
    /// The strategy's name, as its metadata reports it.
    spec fn spec_name(&self) -> Seq<char>;

    /// The artifact this strategy computes for an embedded-content payload
    /// and the (absolute) rectangles occluding it.
    spec fn artifact_model(&self, html: ComposedHtml, holes: Seq<Rect>) -> MaskArtifactView;

    /// Returns the metadata describing this strategy.
    fn meta(&self) -> (m: MaskStrategyMeta)
        ensures
            m.name@ == self.spec_name(),
    ;

    /// Anything that must be done when this strategy is installed.
    fn setup(&self);

    /// Anything that must be done when this strategy is uninstalled, for
    /// example when another strategy replaces it at runtime.
    fn cleanup(&self);

    /// Computes the mask artifact for one embedded-content payload.
    ///
    /// `holes` are the rectangles of the areas in front of the payload's
    /// area, in render-surface coordinates; the strategy itself converts
    /// them to the payload's local space.  This never touches the render
    /// surface.
    fn compute_mask(&self, html: &ComposedHtml, holes: &Vec<Rect>) -> (r: MaskArtifact)
        requires
            html.wf(),
            forall|i: int| 0 <= i < holes@.len() ==> holes@[i].wf(),
        ensures
            r@ == self.artifact_model(*html, holes@),
    ;
}

} // verus!
