//! The per-window state kept for an HTML window, as exposed to custom
//! masking strategies.

use crate::geometry::Rect;
use vstd::prelude::*;
use vstd::string::StringExecFns;

verus! {

/// Keeps track of the state of an HTML window.  Only relevant when playing
/// with custom masking strategies, which is considered unstable.
#[derive(Debug)]
pub struct HtmlWindowState {
    /// The element id the window's content is tracked under.
    pub id: String,
    /// The window title.
    pub title: String,
    /// The HTML markup of the content.
    pub content: String,
    /// The rectangle last reported for the window.
    pub rect: Rect,
    /// Whether the content should receive pointer events.
    pub interactable: bool,
    /// Whether the content should be visible.
    pub visible: bool,
    /// Whether the markup changed since the last sync.
    pub content_changed: bool,
    /// The stacking index last assigned to the window.
    pub z_index: i64,
}

impl HtmlWindowState {
    /// A fresh state: zero geometry, interactive and visible, markup
    /// unchanged, bottom of the stack.
    pub fn new(id: &str, title: &str, content: &str) -> (r: HtmlWindowState)
        ensures
            r.id@ == id@,
            r.title@ == title@,
            r.content@ == content@,
            r.rect == Rect::spec_zero(),
            r.interactable,
            r.visible,
            !r.content_changed,
            r.z_index == 0,
    {
        HtmlWindowState {
            id: String::from_str(id),
            title: String::from_str(title),
            content: String::from_str(content),
            rect: Rect::zero(),
            interactable: true,
            visible: true,
            content_changed: false,
            z_index: 0,
        }
    }
}

} // verus!
