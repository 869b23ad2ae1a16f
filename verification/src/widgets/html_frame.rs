//! A frame widget filling its allotted space with HTML content.

use crate::area::{ComposedArea, ComposedAreaId, ComposedHtml, ComposedHtmlStatus};
use crate::hashing::{spec_str_hash, str_hash};
use crate::registry::{put_effect, Registry};
use crate::widgets::WidgetResponse;
use vstd::prelude::*;
use vstd::string::StringExecFns;

verus! {

/// A widget that fills whatever space the host allots it with HTML
/// content, taking part in composition like any other area.
#[derive(Debug)]
pub struct HtmlFrame {
    /// The element id the content is tracked under, kept exactly as
    /// given.
    pub id: String,
    /// The HTML markup of the content.
    pub content: String,
}

/// The area a shown frame reports: visible, interactive content filling
/// the widget's whole rectangle.
pub open spec fn spec_html_frame_area(w: HtmlFrame, response: WidgetResponse) -> ComposedArea {
    ComposedArea {
        id: ComposedAreaId {
            layer_id: response.layer_id,
            widget_id: Option::Some(spec_str_hash(w.id@)),
        },
        rect: response.rect,
        html: Option::Some(
            ComposedHtml {
                id: w.id,
                content: w.content,
                rect: response.rect,
                status: ComposedHtmlStatus { visible: true, interactive: true },
            },
        ),
    }
}

impl HtmlFrame {
    /// Creates a frame tracked under the given element id.
    pub fn new(id: &str) -> (r: HtmlFrame)
        ensures
            r.id@ == id@,
            r.content@ == Seq::<char>::empty(),
    {
        HtmlFrame { id: String::from_str(id), content: String::new() }
    }

    /// Sets or changes the HTML content of the frame.
    pub fn content(self, content: &str) -> (r: HtmlFrame)
        ensures
            r.content@ == content@,
            r.id == self.id,
    {
        HtmlFrame { content: String::from_str(content), ..self }
    }

    /// Reports the frame to the registry for this frame.
    pub fn show(self, registry: &mut Registry, response: WidgetResponse)
        requires
            old(registry).wf(),
            response.wf(),
        ensures
            final(registry).wf(),
            exists|prev: Option<ComposedArea>|
                put_effect(
                    *old(registry),
                    *final(registry),
                    spec_html_frame_area(self, response),
                    prev,
                ),
    {
        let widget_id = str_hash(self.id.as_str());
        let area = ComposedArea {
            id: ComposedAreaId {
                layer_id: response.layer_id,
                widget_id: Option::Some(widget_id),
            },
            rect: response.rect,
            html: Option::Some(
                ComposedHtml {
                    id: self.id,
                    content: self.content,
                    rect: response.rect,
                    status: ComposedHtmlStatus { visible: true, interactive: true },
                },
            ),
        };
        let _prev = registry.put(area);
    }
}

} // verus!
