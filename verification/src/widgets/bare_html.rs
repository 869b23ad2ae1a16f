//! A widget displaying HTML content anywhere, without a window.

use crate::area::{ComposedArea, ComposedAreaId, ComposedHtml, ComposedHtmlStatus};
use crate::hashing::{spec_str_hash, str_hash};
use crate::registry::{put_effect, Registry};
use crate::text::{slug, spec_slug};
use crate::widgets::WidgetResponse;
use vstd::prelude::*;
use vstd::string::StringExecFns;

verus! {

/// A widget to display HTML content anywhere, without the need of a
/// window.
///
/// Like a window's content, the markup is destroyed if the widget is not
/// shown during an update pass.  The engine is automatically aware of this
/// widget.
#[derive(Debug)]
pub struct BareHtml {
    /// The element id the content is tracked under.
    pub id: String,
    /// The HTML markup of the content.
    pub content: String,
}

/// The area a shown bare widget reports: the content fills the widget's
/// whole rectangle, distinguished from its layer's window by a sub-widget
/// identity derived from the element id.
pub open spec fn spec_bare_html_area(w: BareHtml, response: WidgetResponse) -> ComposedArea {
    ComposedArea {
        id: ComposedAreaId {
            layer_id: response.layer_id,
            widget_id: Option::Some(spec_str_hash(w.id@)),
        },
        rect: response.rect,
        html: Option::Some(
            ComposedHtml {
                id: w.id,
                content: w.content,
                rect: response.rect,
                status: ComposedHtmlStatus {
                    visible: true,
                    interactive: !response.pointer_down && response.is_top_layer,
                },
            },
        ),
    }
}

impl BareHtml {
    /// Creates a widget whose element id is the given id's slug.
    pub fn new(id: &str) -> (r: BareHtml)
        ensures
            r.id@ == spec_slug(id@),
            r.content@ == Seq::<char>::empty(),
    {
        BareHtml { id: slug(id), content: String::new() }
    }

    /// Sets or changes the HTML content of the widget.
    pub fn content(self, content: &str) -> (r: BareHtml)
        ensures
            r.content@ == content@,
            r.id == self.id,
    {
        BareHtml { content: String::from_str(content), ..self }
    }

    /// Reports the widget to the registry for this frame.
    pub fn show(self, registry: &mut Registry, response: WidgetResponse)
        requires
            old(registry).wf(),
            response.wf(),
        ensures
            final(registry).wf(),
            exists|prev: Option<ComposedArea>|
                put_effect(
                    *old(registry),
                    *final(registry),
                    spec_bare_html_area(self, response),
                    prev,
                ),
    {
        let widget_id = str_hash(self.id.as_str());
        let area = ComposedArea {
            id: ComposedAreaId {
                layer_id: response.layer_id,
                widget_id: Option::Some(widget_id),
            },
            rect: response.rect,
            html: Option::Some(
                ComposedHtml {
                    id: self.id,
                    content: self.content,
                    rect: response.rect,
                    status: ComposedHtmlStatus {
                        visible: true,
                        interactive: !response.pointer_down && response.is_top_layer,
                    },
                },
            ),
        };
        let _prev = registry.put(area);
    }
}

} // verus!
