//! Verified construction of the style strings and mask images the engine
//! emits.
//!
//! Every emitted character sequence is fixed by a spec function here, so a
//! strategy's artifact is pinned down to the byte.

use crate::geometry::Rect;
use crate::text::{push_dec_i64, spec_dec_int};
use vstd::prelude::*;
use vstd::string::StringExecFns;

verus! {

/// The style fragment expressing interactivity: empty when the element
/// should receive pointer events.
pub open spec fn spec_interactive_part(interactive: bool) -> Seq<char> {
    if interactive {
        Seq::empty()
    } else {
        " pointer-events: none;"@
    }
}

/// The style fragment expressing visibility: empty when the element should
/// be visible.
pub open spec fn spec_visibility_part(visible: bool) -> Seq<char> {
    if visible {
        Seq::empty()
    } else {
        " visibility: hidden;"@
    }
}

/// The style positioning an element over `rect` with the given flags.
pub open spec fn spec_base_style(rect: Rect, interactive: bool, visible: bool) -> Seq<char> {
    "top: "@ + spec_dec_int(rect.min_y as int) + "px; left: "@ + spec_dec_int(rect.min_x as int)
        + "px; width: "@ + spec_dec_int(rect.max_x - rect.min_x) + "px; height: "@ + spec_dec_int(
        rect.max_y - rect.min_y,
    ) + "px;"@ + spec_interactive_part(interactive) + spec_visibility_part(visible)
}

/// Builds the style that positions an element over `rect` and applies the
/// visibility and interactivity flags.
pub fn build_base_style(rect: Rect, interactive: bool, visible: bool) -> (r: String)
    requires
        rect.rel_wf(),
    ensures
        r@ == spec_base_style(rect, interactive, visible),
{
    let mut out = String::from_str("top: ");
    push_dec_i64(&mut out, rect.min_y);
    out.append("px; left: ");
    push_dec_i64(&mut out, rect.min_x);
    out.append("px; width: ");
    push_dec_i64(&mut out, rect.max_x - rect.min_x);
    out.append("px; height: ");
    push_dec_i64(&mut out, rect.max_y - rect.min_y);
    out.append("px;");
    if !interactive {
        out.append(" pointer-events: none;");
    }
    if !visible {
        out.append(" visibility: hidden;");
    }
    proof {
        assert(out@ =~= spec_base_style(rect, interactive, visible));
    }
    out
}

/// The image fragment cutting one rounded-rectangle hole.
pub open spec fn spec_hole_rect(hole: Rect) -> Seq<char> {
    "<rect x=\""@ + spec_dec_int(hole.min_x as int) + "\" y=\""@ + spec_dec_int(hole.min_y as int)
        + "\" width=\""@ + spec_dec_int(hole.max_x - hole.min_x) + "\" height=\""@ + spec_dec_int(
        hole.max_y - hole.min_y,
    ) + "\" rx=\"5\" fill=\"black\" />"@
}

/// Appends the image fragment for one hole to `out`.
fn push_hole_rect(out: &mut String, hole: Rect)
    requires
        hole.rel_wf(),
    ensures
        final(out)@ == old(out)@ + spec_hole_rect(hole),
{
    out.append("<rect x=\"");
    push_dec_i64(out, hole.min_x);
    out.append("\" y=\"");
    push_dec_i64(out, hole.min_y);
    out.append("\" width=\"");
    push_dec_i64(out, hole.max_x - hole.min_x);
    out.append("\" height=\"");
    push_dec_i64(out, hole.max_y - hole.min_y);
    out.append("\" rx=\"5\" fill=\"black\" />");
    proof {
        assert(final(out)@ =~= old(out)@ + spec_hole_rect(hole));
    }
}

/// The image fragments of a whole hole list, in order.
pub open spec fn spec_holes(holes: Seq<Rect>) -> Seq<char>
    decreases holes.len(),
{
    if holes.len() == 0 {
        Seq::empty()
    } else {
        spec_holes(holes.drop_last()) + spec_hole_rect(holes.last())
    }
}

/// Appends the image fragments of all holes to `out`.
fn push_holes(out: &mut String, holes: &Vec<Rect>)
    requires
        forall|i: int| 0 <= i < holes@.len() ==> holes@[i].rel_wf(),
    ensures
        final(out)@ == old(out)@ + spec_holes(holes@),
{
    let mut i: usize = 0;
    while i < holes.len()
        invariant
            i <= holes@.len(),
            forall|j: int| 0 <= j < holes@.len() ==> holes@[j].rel_wf(),
            out@ == old(out)@ + spec_holes(holes@.take(i as int)),
        decreases holes@.len() - i,
    {
        push_hole_rect(out, holes[i]);
        proof {
            assert(holes@.take(i + 1).drop_last() =~= holes@.take(i as int));
            assert(holes@.take(i + 1).last() == holes@[i as int]);
            assert(out@ =~= old(out)@ + spec_holes(holes@.take(i + 1)));
        }
        i = i + 1;
    }
    proof {
        assert(holes@.take(holes@.len() as int) =~= holes@);
    }
}

/// The self-contained mask image: a white (kept) rectangle covering the
/// whole `width` by `height` surface, with a black (cut out) hole for each
/// occluder.
pub open spec fn spec_mask_svg(width: int, height: int, holes: Seq<Rect>) -> Seq<char> {
    "<svg xmlns=\"http://www.w3.org/2000/svg\" viewBox=\"0 0 "@ + spec_dec_int(width) + " "@
        + spec_dec_int(height) + "\"><defs><mask id=\"mask\" x=\"0\" y=\"0\" width=\""@
        + spec_dec_int(width) + "\" height=\""@ + spec_dec_int(height)
        + "\"><rect x=\"0\" y=\"0\" width=\""@ + spec_dec_int(width) + "\" height=\""@
        + spec_dec_int(height) + "\" fill=\"white\" />"@ + spec_holes(holes)
        + "</mask></defs><rect x=\"0\" y=\"0\" width=\""@ + spec_dec_int(width) + "\" height=\""@
        + spec_dec_int(height) + "\" fill=\"blue\" mask=\"url(#mask)\" /></svg>"@
}

/// Builds the self-contained mask image for a surface of the given size
/// with the given holes.
pub fn build_mask_svg(width: i64, height: i64, holes: &Vec<Rect>) -> (r: String)
    requires
        0 <= width <= 0x1_0000_0000,
        0 <= height <= 0x1_0000_0000,
        forall|i: int| 0 <= i < holes@.len() ==> holes@[i].rel_wf(),
    ensures
        r@ == spec_mask_svg(width as int, height as int, holes@),
{
    let mut out = String::from_str("<svg xmlns=\"http://www.w3.org/2000/svg\" viewBox=\"0 0 ");
    push_dec_i64(&mut out, width);
    out.append(" ");
    push_dec_i64(&mut out, height);
    out.append("\"><defs><mask id=\"mask\" x=\"0\" y=\"0\" width=\"");
    push_dec_i64(&mut out, width);
    out.append("\" height=\"");
    push_dec_i64(&mut out, height);
    out.append("\"><rect x=\"0\" y=\"0\" width=\"");
    push_dec_i64(&mut out, width);
    out.append("\" height=\"");
    push_dec_i64(&mut out, height);
    out.append("\" fill=\"white\" />");
    push_holes(&mut out, holes);
    out.append("</mask></defs><rect x=\"0\" y=\"0\" width=\"");
    push_dec_i64(&mut out, width);
    out.append("\" height=\"");
    push_dec_i64(&mut out, height);
    out.append("\" fill=\"blue\" mask=\"url(#mask)\" /></svg>");
    proof {
        assert(out@ =~= spec_mask_svg(width as int, height as int, holes@));
    }
    out
}

/// The mask definition node a document-based strategy keeps in the
/// document: like [`spec_mask_svg`] but addressable by id, with no painted
/// rectangle of its own.
pub open spec fn spec_document_mask_svg(
    id: Seq<char>,
    width: int,
    height: int,
    holes: Seq<Rect>,
) -> Seq<char> {
    "<svg id=\""@ + id + "-svg\" class=\"hframe-mask-svg\" xmlns=\"http://www.w3.org/2000/svg\" viewBox=\"0 0 "@
        + spec_dec_int(width) + " "@ + spec_dec_int(height) + "\"><defs><mask id=\""@ + id
        + "-mask\" x=\"0\" y=\"0\" width=\""@ + spec_dec_int(width) + "\" height=\""@
        + spec_dec_int(height) + "\"><rect x=\"0\" y=\"0\" width=\""@ + spec_dec_int(width)
        + "\" height=\""@ + spec_dec_int(height) + "\" fill=\"white\" />"@ + spec_holes(holes)
        + "</mask></defs></svg>"@
}

/// Builds the mask definition node for an element with the given id.
pub fn build_document_mask_svg(id: &str, width: i64, height: i64, holes: &Vec<Rect>) -> (r: String)
    requires
        0 <= width <= 0x1_0000_0000,
        0 <= height <= 0x1_0000_0000,
        forall|i: int| 0 <= i < holes@.len() ==> holes@[i].rel_wf(),
    ensures
        r@ == spec_document_mask_svg(id@, width as int, height as int, holes@),
{
    let mut out = String::from_str("<svg id=\"");
    out.append(id);
    out.append("-svg\" class=\"hframe-mask-svg\" xmlns=\"http://www.w3.org/2000/svg\" viewBox=\"0 0 ");
    push_dec_i64(&mut out, width);
    out.append(" ");
    push_dec_i64(&mut out, height);
    out.append("\"><defs><mask id=\"");
    out.append(id);
    out.append("-mask\" x=\"0\" y=\"0\" width=\"");
    push_dec_i64(&mut out, width);
    out.append("\" height=\"");
    push_dec_i64(&mut out, height);
    out.append("\"><rect x=\"0\" y=\"0\" width=\"");
    push_dec_i64(&mut out, width);
    out.append("\" height=\"");
    push_dec_i64(&mut out, height);
    out.append("\" fill=\"white\" />");
    push_holes(&mut out, holes);
    out.append("</mask></defs></svg>");
    proof {
        assert(out@ =~= spec_document_mask_svg(id@, width as int, height as int, holes@));
    }
    out
}

} // verus!
