//! The value types describing one tracked rectangle of interest.
//!
//! An area couples an identity with geometry and, optionally, an embedded
//! HTML payload.  Identity equality — not object identity — decides whether
//! a later report updates an existing area or creates a new one.

use crate::geometry::Rect;
use vstd::prelude::*;

verus! {

/// The composite identity of a tracked area: the host render layer it
/// belongs to, and an optional sub-widget identity.
///
/// An area with no sub-widget identity stands for the whole window of its
/// layer; a sub-widget identity distinguishes one embedded-content widget
/// placed inside that layer.
#[derive(Clone, Copy, Debug, PartialEq, Eq, Hash)]
pub struct ComposedAreaId {
    /// The identity of the host render layer.
    pub layer_id: u64,
    /// The sub-widget identity, absent for whole-window areas.
    pub widget_id: Option<u64>,
}

impl ComposedAreaId {
    /// Whether this identity stands for the whole window of its layer.
    pub open spec fn is_whole_window(self) -> bool {
        self.widget_id is None
    }

    /// Builds an area identity from its two components.
    pub fn new(layer_id: u64, widget_id: Option<u64>) -> (r: ComposedAreaId)
        ensures
            r == (ComposedAreaId { layer_id, widget_id }),
    {
        ComposedAreaId { layer_id, widget_id }
    }

    /// Identity comparison.
    pub fn same_as(&self, other: &ComposedAreaId) -> (r: bool)
        ensures
            r == (*self == *other),
    {
        self.layer_id == other.layer_id && match (self.widget_id, other.widget_id) {
            (Option::None, Option::None) => true,
            (Option::Some(a), Option::Some(b)) => a == b,
            _ => false,
        }
    }
}

/// The visibility and interactivity flags of an embedded HTML payload.
#[derive(Clone, Copy, Debug, PartialEq, Eq, Structural)]
pub struct ComposedHtmlStatus {
    /// Whether the element should be visible at all (a minimised window
    /// keeps its element, hidden).
    pub visible: bool,
    /// Whether the element should receive pointer events.
    pub interactive: bool,
}

/// The embedded HTML payload of an area.
#[derive(Debug)]
pub struct ComposedHtml {
    /// The id of the HTML element carrying the content.
    pub id: String,
    /// The HTML markup of the content.
    pub content: String,
    /// Where the content itself is placed, in render-surface coordinates;
    /// this may be smaller than the whole area (a window's inner region).
    pub rect: Rect,
    /// Visibility and interactivity of the element.
    pub status: ComposedHtmlStatus,
}

impl ComposedHtml {
    /// A well-formed payload: its rectangle is well-formed.
    pub open spec fn wf(self) -> bool {
        self.rect.wf()
    }
}

impl Clone for ComposedHtml {
    /// An exact copy.
    fn clone(&self) -> (r: ComposedHtml)
        ensures
            r == *self,
    {
        ComposedHtml {
            id: self.id.clone(),
            content: self.content.clone(),
            rect: self.rect,
            status: self.status,
        }
    }
}

/// A rectangular area of the UI, with or without embedded HTML content.
///
/// Canvas-only areas (no `html`) take part in occlusion computation but are
/// never themselves masked.
#[derive(Debug)]
pub struct ComposedArea {
    /// The identity used to track this area across a frame.
    pub id: ComposedAreaId,
    /// The whole rectangle the host rendered for this area.
    pub rect: Rect,
    /// The embedded HTML payload, if this area carries content.
    pub html: Option<ComposedHtml>,
}

impl ComposedArea {
    /// A well-formed area: all its rectangles are well-formed.
    pub open spec fn wf(self) -> bool {
        &&& self.rect.wf()
        &&& match self.html {
            Option::Some(h) => h.wf(),
            Option::None => true,
        }
    }

    /// Whether this area carries embedded HTML content.
    pub open spec fn spec_has_html(self) -> bool {
        self.html is Some
    }

    /// Whether this area carries embedded HTML content.
    pub fn has_html(&self) -> (r: bool)
        ensures
            r == self.spec_has_html(),
    {
        self.html.is_some()
    }
}

impl Clone for ComposedArea {
    /// An exact copy.
    fn clone(&self) -> (r: ComposedArea)
        ensures
            r == *self,
    {
        ComposedArea {
            id: self.id,
            rect: self.rect,
            html: match &self.html {
                Option::Some(h) => Option::Some(h.clone()),
                Option::None => Option::None,
            },
        }
    }
}

} // verus!
