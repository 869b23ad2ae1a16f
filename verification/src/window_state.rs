//! The per-window state the engine keeps for a tracked window.

use crate::geometry::Rect;
use crate::mask_strategy::MaskArtifact;
use vstd::prelude::*;
use vstd::string::StringExecFns;

verus! {

/// The state of one tracked window: its identity and markup, the geometry
/// and flags last reported, the artifact last applied, and whether the
/// markup changed since.
#[derive(Debug)]
pub struct WindowState {
    /// The element id the window's content is tracked under.
    pub id: String,
    /// The window title.
    pub title: String,
    /// The HTML markup of the content.
    pub content: String,
    /// The rectangle last reported for the window.
    pub rect: Rect,
    /// Whether the content should receive pointer events.
    pub interactable: bool,
    /// Whether the content should be visible.
    pub visible: bool,
    /// The artifact last applied to the window's element, if any.
    pub mask: Option<MaskArtifact>,
    /// Whether the markup changed since the last sync.
    pub content_changed: bool,
}

impl WindowState {
    /// A fresh state: zero geometry, interactive and visible, no mask
    /// applied yet, markup unchanged.
    pub fn new(id: &str, title: &str, content: &str) -> (r: WindowState)
        ensures
            r.id@ == id@,
            r.title@ == title@,
            r.content@ == content@,
            r.rect == Rect::spec_zero(),
            r.interactable,
            r.visible,
            r.mask is None,
            !r.content_changed,
    {
        WindowState {
            id: String::from_str(id),
            title: String::from_str(title),
            content: String::from_str(content),
            rect: Rect::zero(),
            interactable: true,
            visible: true,
            mask: Option::None,
            content_changed: false,
        }
    }
}

} // verus!
