//! Making plain host widgets known to the composition engine.
//!
//! Anything the host renders that can overlap embedded content — ordinary
//! windows, panels — must report its layer and rectangle once per frame, so
//! occlusion is computed against it.  Such canvas-only areas are never
//! masked themselves.

use crate::area::{ComposedArea, ComposedAreaId};
use crate::geometry::Rect;
use crate::registry::{put_effect, Registry};
use vstd::prelude::*;

verus! {

/// What a host widget reports about itself: its render layer and the
/// rectangle it occupies this frame.
#[derive(Clone, Copy, Debug)]
pub struct AreaReport {
    /// The identity of the host render layer the widget was drawn on.
    pub layer_id: u64,
    /// The rectangle the widget occupies, in render-surface coordinates.
    pub rect: Rect,
}

/// The canvas-only area a report stands for.
pub open spec fn spec_canvas_area(report: AreaReport) -> ComposedArea {
    ComposedArea {
        id: ComposedAreaId { layer_id: report.layer_id, widget_id: Option::None },
        rect: report.rect,
        html: Option::None,
    }
}

impl Registry {
    /// Registers a host widget's rectangle as a canvas-only area, handing
    /// the report back so call sites can keep using it.
    ///
    /// `None` — the widget was not rendered this frame — is passed through
    /// untouched.
    pub fn aware(&mut self, response: Option<AreaReport>) -> (r: Option<AreaReport>)
        requires
            old(self).wf(),
            match response {
                Option::Some(report) => report.rect.wf(),
                Option::None => true,
            },
        ensures
            final(self).wf(),
            r == response,
            match response {
                Option::None => *final(self) == *old(self),
                Option::Some(report) => exists|prev: Option<ComposedArea>|
                    put_effect(*old(self), *final(self), spec_canvas_area(report), prev),
            },
    {
        match response {
            Option::Some(report) => {
                let area = ComposedArea {
                    id: ComposedAreaId { layer_id: report.layer_id, widget_id: Option::None },
                    rect: report.rect,
                    html: Option::None,
                };
                let _prev = self.put(area);
                Option::Some(report)
            },
            Option::None => Option::None,
        }
    }
}

/// Registers a host widget's rectangle with the registry; see
/// [`Registry::aware`].
pub fn aware(registry: &mut Registry, response: Option<AreaReport>) -> (r: Option<AreaReport>)
    requires
        old(registry).wf(),
        match response {
            Option::Some(report) => report.rect.wf(),
            Option::None => true,
        },
    ensures
        final(registry).wf(),
        r == response,
        match response {
            Option::None => *final(registry) == *old(registry),
            Option::Some(report) => exists|prev: Option<ComposedArea>|
                put_effect(*old(registry), *final(registry), spec_canvas_area(report), prev),
        },
{
    registry.aware(response)
}

/// Lets host UI values make themselves known to the engine in a fluent
/// style, mirroring how widget builders chain.
pub trait Aware: Sized {
    /// The area report this value stands for, if it carries one.
    spec fn spec_report(&self) -> Option<AreaReport>;

    /// Reports this value's area to the registry and hands the value back
    /// unchanged.
    ///
    /// A well-formed report reaches the registry as a canvas-only area; a
    /// report whose rectangle is out of range cannot be tracked and is
    /// ignored, failing closed, as is a value carrying no report.
    fn aware(self, registry: &mut Registry) -> (r: Self)
        requires
            old(registry).wf(),
        ensures
            final(registry).wf(),
            r == self,
            match self.spec_report() {
                Option::Some(report) => {
                    &&& report.rect.wf() ==> exists|prev: Option<ComposedArea>|
                        put_effect(
                            *old(registry),
                            *final(registry),
                            spec_canvas_area(report),
                            prev,
                        )
                    &&& !report.rect.wf() ==> *final(registry) == *old(registry)
                },
                Option::None => *final(registry) == *old(registry),
            },
    ;
}

impl Aware for Option<AreaReport> {
    open spec fn spec_report(&self) -> Option<AreaReport> {
        *self
    }

    fn aware(self, registry: &mut Registry) -> Self {
        match self {
            Option::Some(report) => {
                if report.rect.min_x <= report.rect.max_x && report.rect.min_y
                    <= report.rect.max_y && -crate::geometry::COORD_LIMIT <= report.rect.min_x
                    && report.rect.max_x <= crate::geometry::COORD_LIMIT
                    && -crate::geometry::COORD_LIMIT <= report.rect.min_y && report.rect.max_y
                    <= crate::geometry::COORD_LIMIT {
                    registry.aware(Option::Some(report))
                } else {
                    // an out-of-range rectangle cannot be tracked; fail
                    // closed by ignoring the report
                    Option::Some(report)
                }
            },
            Option::None => Option::None,
        }
    }
}

} // verus!
