//! A widget floating HTML content over the canvas, without composition.

use crate::area::{ComposedArea, ComposedAreaId, ComposedHtml, ComposedHtmlStatus};
use crate::hashing::{spec_str_hash, str_hash};
use crate::registry::{put_effect, Registry};
use crate::text::{slug, spec_slug};
use crate::widgets::WidgetResponse;
use vstd::prelude::*;
use vstd::string::StringExecFns;

verus! {

/// A widget to display HTML content over any area.
///
/// It performs no automatic composition: the content floats over the
/// canvas, following the area where it was placed.  Enough whenever the
/// content will not overlap other content — side panels, full screen
/// overlays.  The engine is automatically aware of this widget.
#[derive(Debug)]
pub struct BareHtmlOverlay {
    /// The element id the content is tracked under.
    pub id: String,
    /// The HTML markup of the content.
    pub content: String,
}

/// The area a shown overlay reports: always visible and interactive, on
/// the layer the host names for it (typically its background layer).
pub open spec fn spec_overlay_area(w: BareHtmlOverlay, response: WidgetResponse) -> ComposedArea {
    ComposedArea {
        id: ComposedAreaId {
            layer_id: response.layer_id,
            widget_id: Option::Some(spec_str_hash(w.id@)),
        },
        rect: response.rect,
        html: Option::Some(
            ComposedHtml {
                id: w.id,
                content: w.content,
                rect: response.rect,
                status: ComposedHtmlStatus { visible: true, interactive: true },
            },
        ),
    }
}

impl BareHtmlOverlay {
    /// Creates an overlay whose element id is the given id's slug.
    pub fn new(id: &str) -> (r: BareHtmlOverlay)
        ensures
            r.id@ == spec_slug(id@),
            r.content@ == Seq::<char>::empty(),
    {
        BareHtmlOverlay { id: slug(id), content: String::new() }
    }

    /// Sets or changes the HTML content of the overlay.
    pub fn content(self, content: &str) -> (r: BareHtmlOverlay)
        ensures
            r.content@ == content@,
            r.id == self.id,
    {
        BareHtmlOverlay { content: String::from_str(content), ..self }
    }

    /// Reports the overlay to the registry for this frame.
    pub fn show(self, registry: &mut Registry, response: WidgetResponse)
        requires
            old(registry).wf(),
            response.wf(),
        ensures
            final(registry).wf(),
            exists|prev: Option<ComposedArea>|
                put_effect(
                    *old(registry),
                    *final(registry),
                    spec_overlay_area(self, response),
                    prev,
                ),
    {
        let widget_id = str_hash(self.id.as_str());
        let area = ComposedArea {
            id: ComposedAreaId {
                layer_id: response.layer_id,
                widget_id: Option::Some(widget_id),
            },
            rect: response.rect,
            html: Option::Some(
                ComposedHtml {
                    id: self.id,
                    content: self.content,
                    rect: response.rect,
                    status: ComposedHtmlStatus { visible: true, interactive: true },
                },
            ),
        };
        let _prev = registry.put(area);
    }
}

} // verus!
