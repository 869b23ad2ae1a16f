//! The widget builders through which a host application hands embedded
//! content to the engine.
//!
//! Each builder gathers an identity and markup, and its `show` method turns
//! the host's per-frame rendering result — passed in as plain values — into
//! one report to the registry.

pub mod bare_html;
pub mod bare_html_overlay;
pub mod html_frame;
pub mod html_window;
pub mod window;

use crate::geometry::Rect;
use vstd::prelude::*;

verus! {

/// What the host reports after rendering a window this frame.
#[derive(Clone, Copy, Debug)]
pub struct WindowResponse {
    /// The render layer the window was drawn on.
    pub layer_id: u64,
    /// The whole window rectangle.
    pub window_rect: Rect,
    /// The window's inner content rectangle; absent while the window is
    /// collapsed.
    pub inner_rect: Option<Rect>,
    /// Whether this window's layer is the host's topmost layer.
    pub is_top_layer: bool,
    /// Whether the primary pointer button is currently held down.
    pub pointer_down: bool,
}

impl WindowResponse {
    /// A well-formed response: both rectangles are well-formed.
    pub open spec fn wf(self) -> bool {
        &&& self.window_rect.wf()
        &&& match self.inner_rect {
            Option::Some(r) => r.wf(),
            Option::None => true,
        }
    }
}

/// What the host reports after rendering a plain widget this frame.
#[derive(Clone, Copy, Debug)]
pub struct WidgetResponse {
    /// The render layer the widget was drawn on.
    pub layer_id: u64,
    /// The rectangle the widget occupies.
    pub rect: Rect,
    /// Whether the widget's layer is the host's topmost layer.
    pub is_top_layer: bool,
    /// Whether the primary pointer button is currently held down.
    pub pointer_down: bool,
}

impl WidgetResponse {
    /// A well-formed response: the rectangle is well-formed.
    pub open spec fn wf(self) -> bool {
        self.rect.wf()
    }
}

} // verus!
