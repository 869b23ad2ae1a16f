//! A window capable of displaying HTML content inside, mirroring how the
//! host's own window builder chains.

use crate::area::{ComposedArea, ComposedAreaId, ComposedHtml, ComposedHtmlStatus};
use crate::geometry::Rect;
use crate::registry::{put_effect, Registry};
use crate::text::{slug, spec_slug};
use crate::widgets::WindowResponse;
use vstd::prelude::*;
use vstd::string::StringExecFns;

verus! {

/// A window capable of displaying HTML content inside.
///
/// The title must be unique: it is used to derive the window id and the
/// HTML element id, unless an id is set explicitly.  The engine is
/// automatically aware of this window.
#[derive(Debug)]
pub struct HtmlWindow {
    /// The element id the content is tracked under.
    pub id: String,
    /// The window title.
    pub title: String,
    /// The HTML markup of the content.
    pub content: String,
    /// The open flag, if the caller manages one; `Some(false)` skips the
    /// window entirely.
    pub open: Option<bool>,
}

/// The area a shown HTML window reports to the registry: the content sits
/// in the window's inner region and is hidden while the window is
/// collapsed (no inner region reported).
pub open spec fn spec_html_window_area(w: HtmlWindow, response: WindowResponse) -> ComposedArea {
    ComposedArea {
        id: ComposedAreaId { layer_id: response.layer_id, widget_id: Option::None },
        rect: response.window_rect,
        html: Option::Some(
            ComposedHtml {
                id: w.id,
                content: w.content,
                rect: match response.inner_rect {
                    Option::Some(r) => r,
                    Option::None => Rect::spec_zero(),
                },
                status: ComposedHtmlStatus {
                    visible: response.inner_rect is Some,
                    interactive: !response.pointer_down && response.is_top_layer,
                },
            },
        ),
    }
}

impl HtmlWindow {
    /// Creates a new window titled `title`, whose element id is the
    /// title's slug.
    pub fn new(title: &str) -> (r: HtmlWindow)
        ensures
            r.id@ == spec_slug(title@),
            r.title@ == title@,
            r.content@ == Seq::<char>::empty(),
            r.open is None,
    {
        HtmlWindow {
            id: slug(title),
            title: String::from_str(title),
            content: String::new(),
            open: Option::None,
        }
    }

    /// Hands the window an open flag; a closed window is skipped whole.
    pub fn open(self, open: bool) -> (r: HtmlWindow)
        ensures
            r == (HtmlWindow { open: Option::Some(open), ..self }),
    {
        HtmlWindow { open: Option::Some(open), ..self }
    }

    /// Sets a specific element id explicitly.
    pub fn id(self, id: &str) -> (r: HtmlWindow)
        ensures
            r.id@ == id@,
            r.title == self.title,
            r.content == self.content,
            r.open == self.open,
    {
        HtmlWindow { id: String::from_str(id), ..self }
    }

    /// Sets or changes the HTML content of the window.
    ///
    /// The initially provided markup generates the element; as long as it
    /// does not change the element is not re-rendered, and changed markup
    /// is rewritten on the next sync — useful for reactive content.
    pub fn content(self, content: &str) -> (r: HtmlWindow)
        ensures
            r.content@ == content@,
            r.id == self.id,
            r.title == self.title,
            r.open == self.open,
    {
        HtmlWindow { content: String::from_str(content), ..self }
    }

    /// Reports the window to the registry for this frame; the host must
    /// still run the registry's sync at the end of the update pass.
    pub fn show(self, registry: &mut Registry, response: Option<WindowResponse>)
        requires
            old(registry).wf(),
            match response {
                Option::Some(resp) => resp.wf(),
                Option::None => true,
            },
        ensures
            final(registry).wf(),
            self.open == Option::Some(false) || response is None ==> *final(registry) == *old(
                registry,
            ),
            match response {
                Option::Some(resp) => self.open != Option::Some(false) ==> exists|
                    prev: Option<ComposedArea>,
                |
                    put_effect(
                        *old(registry),
                        *final(registry),
                        spec_html_window_area(self, resp),
                        prev,
                    ),
                Option::None => true,
            },
    {
        match self.open {
            Option::Some(false) => {
                return ;
            },
            _ => {},
        }
        let resp = match response {
            Option::Some(resp) => resp,
            Option::None => {
                return ;
            },
        };
        let html_rect = match resp.inner_rect {
            Option::Some(r) => r,
            Option::None => Rect::zero(),
        };
        let area = ComposedArea {
            id: ComposedAreaId { layer_id: resp.layer_id, widget_id: Option::None },
            rect: resp.window_rect,
            html: Option::Some(
                ComposedHtml {
                    id: self.id,
                    content: self.content,
                    rect: html_rect,
                    status: ComposedHtmlStatus {
                        visible: resp.inner_rect.is_some(),
                        interactive: !resp.pointer_down && resp.is_top_layer,
                    },
                },
            ),
        };
        let _prev = registry.put(area);
    }
}

} // verus!
