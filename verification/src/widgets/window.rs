//! A tracked window holding embedded content, built fluently.

use crate::area::{ComposedArea, ComposedAreaId, ComposedHtml, ComposedHtmlStatus};
use crate::registry::{put_effect, Registry};
use crate::text::{slug, spec_slug};
use crate::widgets::WindowResponse;
use vstd::prelude::*;
use vstd::string::StringExecFns;

verus! {

/// A window that displays HTML content, built fluently and shown once per
/// frame.  The embedded content fills the window's inner region, falling
/// back to the whole window rectangle while the host reports no inner one.
#[derive(Debug)]
pub struct Window {
    /// The element id the content is tracked under, derived from the title
    /// unless set explicitly.
    pub id: String,
    /// The window title.
    pub title: String,
    /// The HTML markup of the content.
    pub content: String,
    /// The open flag, if the caller manages one; `Some(false)` skips the
    /// window entirely.
    pub open: Option<bool>,
}

/// The area a shown window reports to the registry.
pub open spec fn spec_window_area(w: Window, response: WindowResponse) -> ComposedArea {
    ComposedArea {
        id: ComposedAreaId { layer_id: response.layer_id, widget_id: Option::None },
        rect: response.window_rect,
        html: Option::Some(
            ComposedHtml {
                id: w.id,
                content: w.content,
                rect: match response.inner_rect {
                    Option::Some(r) => r,
                    Option::None => response.window_rect,
                },
                status: ComposedHtmlStatus {
                    visible: response.inner_rect is Some,
                    interactive: !response.pointer_down && response.is_top_layer,
                },
            },
        ),
    }
}

impl Window {
    /// Creates a window titled `title`, whose element id is the title's
    /// slug.
    pub fn new(title: &str) -> (r: Window)
        ensures
            r.id@ == spec_slug(title@),
            r.title@ == title@,
            r.content@ == Seq::<char>::empty(),
            r.open is None,
    {
        Window {
            id: slug(title),
            title: String::from_str(title),
            content: String::new(),
            open: Option::None,
        }
    }

    /// Hands the window an open flag; a closed window is skipped whole.
    pub fn open(self, open: bool) -> (r: Window)
        ensures
            r == (Window { open: Option::Some(open), ..self }),
    {
        Window { open: Option::Some(open), ..self }
    }

    /// Sets a specific element id explicitly.
    pub fn id(self, id: &str) -> (r: Window)
        ensures
            r.id@ == id@,
            r.title == self.title,
            r.content == self.content,
            r.open == self.open,
    {
        Window { id: String::from_str(id), ..self }
    }

    /// Sets or changes the HTML content of the window.
    ///
    /// As long as the markup stays the same the element is not re-rendered;
    /// changed markup is rewritten on the next sync.
    pub fn content(self, content: &str) -> (r: Window)
        ensures
            r.content@ == content@,
            r.id == self.id,
            r.title == self.title,
            r.open == self.open,
    {
        Window { content: String::from_str(content), ..self }
    }

    /// Reports the window to the registry for this frame.
    ///
    /// A window whose open flag is `false`, or that the host did not
    /// render (`response` is `None`), reports nothing; its area is then
    /// purged on the next sync.
    pub fn show(self, registry: &mut Registry, response: Option<WindowResponse>)
        requires
            old(registry).wf(),
            match response {
                Option::Some(resp) => resp.wf(),
                Option::None => true,
            },
        ensures
            final(registry).wf(),
            self.open == Option::Some(false) || response is None ==> *final(registry) == *old(
                registry,
            ),
            match response {
                Option::Some(resp) => self.open != Option::Some(false) ==> exists|
                    prev: Option<ComposedArea>,
                |
                    put_effect(
                        *old(registry),
                        *final(registry),
                        spec_window_area(self, resp),
                        prev,
                    ),
                Option::None => true,
            },
    {
        match self.open {
            Option::Some(false) => {
                return ;
            },
            _ => {},
        }
        let resp = match response {
            Option::Some(resp) => resp,
            Option::None => {
                return ;
            },
        };
        let html_rect = match resp.inner_rect {
            Option::Some(r) => r,
            Option::None => resp.window_rect,
        };
        let area = ComposedArea {
            id: ComposedAreaId { layer_id: resp.layer_id, widget_id: Option::None },
            rect: resp.window_rect,
            html: Option::Some(
                ComposedHtml {
                    id: self.id,
                    content: self.content,
                    rect: html_rect,
                    status: ComposedHtmlStatus {
                        visible: resp.inner_rect.is_some(),
                        interactive: !resp.pointer_down && resp.is_top_layer,
                    },
                },
            ),
        };
        let _prev = registry.put(area);
    }
}

impl Registry {
    /// Starts building a window with an explicit id, title and content.
    pub fn window(&self, id: &str, title: &str, content: &str) -> (r: Window)
        ensures
            r.id@ == id@,
            r.title@ == title@,
            r.content@ == content@,
            r.open is None,
    {
        Window {
            id: String::from_str(id),
            title: String::from_str(title),
            content: String::from_str(content),
            open: Option::None,
        }
    }
}

} // verus!
