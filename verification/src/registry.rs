//! The area registry: the composition context that owns the set of
//! currently tracked areas and drives the per-frame reconciliation.
//!
//! Per frame, widgets report their rectangles with [`Registry::put`]; the
//! host then hands the frame's z-order and pointer state to
//! [`Registry::sync`], which reorders the areas, purges the ones not
//! reported this frame, computes each content area's occluders, runs the
//! active mask strategy and returns the render-surface commands to apply.
//! The registry itself never touches the render surface.

use crate::area::{ComposedArea, ComposedAreaId, ComposedHtml};
use crate::browser_detection::{is_blink, spec_is_blink, spec_is_gecko};
use crate::geometry::Rect;
use crate::mask_strategies::auto::AutoDelegate;
use crate::mask_strategies::{Auto, DataMask, DocumentMask, Strategy};
use crate::mask_strategy::{MaskArtifact, MaskArtifactView, MaskStrategy, MaskStrategyMeta};
use crate::reconcile::{
    lemma_filter_contained, lemma_reconcile_props, reconcile_areas, spec_reconcile,
};
use vstd::prelude::*;

verus! {

/// One tracked area together with the registry's per-area bookkeeping.
#[derive(Debug)]
pub struct TrackedArea {
    /// The area as last reported.
    pub area: ComposedArea,
    /// The artifact most recently applied to the area's element, used to
    /// skip redundant render-surface writes.
    pub applied: Option<MaskArtifact>,
    /// Whether the last report changed the embedded markup, so the next
    /// frame must rewrite the element's content.
    pub content_dirty: bool,
}

/// The tracked entry a fresh report creates.
pub open spec fn tracked_fresh(area: ComposedArea) -> TrackedArea {
    TrackedArea { area, applied: Option::None, content_dirty: false }
}

/// Whether replacing `prev` by `next` changes the embedded markup.
pub open spec fn spec_content_dirty(prev: ComposedArea, next: ComposedArea) -> bool {
    match (prev.html, next.html) {
        (Option::Some(p), Option::Some(n)) => p.content@ != n.content@,
        _ => false,
    }
}

/// The tracked entry a repeated report leaves behind: the area replaced
/// wholesale, the applied-artifact cache kept, the dirty flag refreshed.
pub open spec fn tracked_replacement(prev: TrackedArea, area: ComposedArea) -> TrackedArea {
    TrackedArea {
        area,
        applied: prev.applied,
        content_dirty: spec_content_dirty(prev.area, area),
    }
}

/// The identities of a tracked-area sequence, in order.
pub open spec fn ids_of(areas: Seq<TrackedArea>) -> Seq<ComposedAreaId> {
    areas.map_values(|t: TrackedArea| t.area.id)
}

/// Whether some tracked area carries the given identity.
pub open spec fn has_id(areas: Seq<TrackedArea>, id: ComposedAreaId) -> bool {
    exists|i: int| 0 <= i < areas.len() && areas[i].area.id == id
}

/// Whether all tracked areas carry distinct identities.
pub open spec fn unique_ids(areas: Seq<TrackedArea>) -> bool {
    forall|i: int, j: int|
        0 <= i < j < areas.len() ==> areas[i].area.id != areas[j].area.id
}

/// The position of the tracked area carrying `id`; meaningful only when
/// [`has_id`] holds.
pub open spec fn spec_index_of(areas: Seq<TrackedArea>, id: ComposedAreaId) -> int {
    choose|i: int| 0 <= i < areas.len() && areas[i].area.id == id
}

/// Membership of an area's identity in a presence set.
pub open spec fn touched_pred(touched: Seq<ComposedAreaId>) -> spec_fn(TrackedArea) -> bool {
    |t: TrackedArea| touched.contains(t.area.id)
}

/// The complement of [`touched_pred`].
pub open spec fn untouched_pred(touched: Seq<ComposedAreaId>) -> spec_fn(TrackedArea) -> bool {
    |t: TrackedArea| !touched.contains(t.area.id)
}

/// One write the host adapter must perform on the render surface, as plain
/// values: the engine decides, the adapter executes.
#[derive(Clone, Debug, PartialEq, Eq)]
pub enum DomCommand {
    /// Make sure an element with this id exists, created with this markup.
    Ensure { element_id: String, html: String },
    /// Rewrite the element's markup (its content changed this frame).
    SetContent { element_id: String, html: String },
    /// Write or update the mask definition node for this element.
    WriteMaskDef { element_id: String, svg: String },
    /// Set the element's full style attribute.
    SetStyle { element_id: String, style: String },
    /// Force the element invisible, overriding its style for this frame.
    HideElement { element_id: String },
    /// Remove the element: its area was purged.
    Remove { element_id: String },
}

/// The mathematical value of a [`DomCommand`].
#[verifier::ext_equal]
pub enum DomCommandView {
    Ensure { element_id: Seq<char>, html: Seq<char> },
    SetContent { element_id: Seq<char>, html: Seq<char> },
    WriteMaskDef { element_id: Seq<char>, svg: Seq<char> },
    SetStyle { element_id: Seq<char>, style: Seq<char> },
    HideElement { element_id: Seq<char> },
    Remove { element_id: Seq<char> },
}

impl View for DomCommand {
    type V = DomCommandView;

    open spec fn view(&self) -> DomCommandView {
        match self {
            DomCommand::Ensure { element_id, html } => DomCommandView::Ensure {
                element_id: element_id@,
                html: html@,
            },
            DomCommand::SetContent { element_id, html } => DomCommandView::SetContent {
                element_id: element_id@,
                html: html@,
            },
            DomCommand::WriteMaskDef { element_id, svg } => DomCommandView::WriteMaskDef {
                element_id: element_id@,
                svg: svg@,
            },
            DomCommand::SetStyle { element_id, style } => DomCommandView::SetStyle {
                element_id: element_id@,
                style: style@,
            },
            DomCommand::HideElement { element_id } => DomCommandView::HideElement {
                element_id: element_id@,
            },
            DomCommand::Remove { element_id } => DomCommandView::Remove {
                element_id: element_id@,
            },
        }
    }
}

/// The views of a command list, in order.
pub open spec fn views_of(cmds: Seq<DomCommand>) -> Seq<DomCommandView> {
    cmds.map_values(|c: DomCommand| c@)
}

/// How one report changes a registry: what [`Registry::put`] guarantees.
///
/// The identity joins the presence set (once); a known identity has its
/// entry replaced wholesale, keeping the cached artifact, and the previous
/// area is returned; an unknown identity is appended as a fresh entry.
/// Strategy and engine capability are untouched.
pub open spec fn put_effect(
    pre: Registry,
    post: Registry,
    area: ComposedArea,
    prev: Option<ComposedArea>,
) -> bool {
    &&& post.strategy == pre.strategy
    &&& post.sync_mask_updates == pre.sync_mask_updates
    &&& pre.touched@.contains(area.id) ==> post.touched@ == pre.touched@
    &&& !pre.touched@.contains(area.id) ==> post.touched@ == pre.touched@.push(area.id)
    &&& match prev {
        Option::None => {
            &&& !has_id(pre.areas@, area.id)
            &&& post.areas@ == pre.areas@.push(tracked_fresh(area))
        },
        Option::Some(p) => {
            let i = spec_index_of(pre.areas@, area.id);
            &&& has_id(pre.areas@, area.id)
            &&& p == pre.areas@[i].area
            &&& post.areas@ == pre.areas@.update(i, tracked_replacement(pre.areas@[i], area))
        },
    }
}

/// The area registry / composition context.
///
/// A single mutable value owned by the host's per-frame update pass; there
/// is one registry per host context, created when the context is set up and
/// threaded explicitly into every call.
#[derive(Debug)]
pub struct Registry {
    /// The tracked areas; their order encodes back-to-front stacking.
    pub areas: Vec<TrackedArea>,
    /// The identities reported since the last sync (the presence set).
    pub touched: Vec<ComposedAreaId>,
    /// The active mask strategy.
    pub strategy: Strategy,
    /// Whether the rendering engine applies mask updates synchronously
    /// (Blink does); engines that do not need the drag-hazard fallback.
    pub sync_mask_updates: bool,
}

impl Registry {
    /// The registry's invariant: tracked identities are unique, every
    /// tracked rectangle is well-formed, and the presence set holds no
    /// duplicates and only identities of tracked areas.
    pub open spec fn wf(self) -> bool {
        &&& unique_ids(self.areas@)
        &&& forall|i: int| 0 <= i < self.areas@.len() ==> (#[trigger] self.areas@[i]).area.wf()
        &&& forall|i: int, j: int|
            0 <= i < j < self.touched@.len() ==> self.touched@[i] != self.touched@[j]
        &&& forall|i: int|
            0 <= i < self.touched@.len() ==> has_id(self.areas@, #[trigger] self.touched@[i])
    }

    /// Creates a registry for a host whose (lowercased) user-agent string
    /// is `user_agent`, with the automatic mask strategy installed: the
    /// one-time capability probe picks document-node masks on Gecko and
    /// inline data-URI masks everywhere else.
    pub fn new(user_agent: &str) -> (r: Registry)
        ensures
            r.areas@ == Seq::<TrackedArea>::empty(),
            r.touched@ == Seq::<ComposedAreaId>::empty(),
            spec_is_gecko(user_agent@) ==> r.strategy == Strategy::Auto(
                Auto { delegate: AutoDelegate::Document(DocumentMask) },
            ),
            !spec_is_gecko(user_agent@) ==> r.strategy == Strategy::Auto(
                Auto { delegate: AutoDelegate::Data(DataMask) },
            ),
            r.sync_mask_updates == spec_is_blink(user_agent@),
            r.wf(),
    {
        Registry {
            areas: Vec::new(),
            touched: Vec::new(),
            strategy: Strategy::Auto(Auto::new(user_agent)),
            sync_mask_updates: is_blink(user_agent),
        }
    }

    /// Whether `id` has been reported since the last sync.
    fn touched_contains(&self, id: &ComposedAreaId) -> (r: bool)
        ensures
            r == self.touched@.contains(*id),
    {
        let mut i: usize = 0;
        while i < self.touched.len()
            invariant
                i <= self.touched@.len(),
                forall|j: int| 0 <= j < i ==> self.touched@[j] != *id,
            decreases self.touched@.len() - i,
        {
            if self.touched[i].same_as(id) {
                return true;
            }
            i = i + 1;
        }
        false
    }

    /// The position of the tracked area carrying `id`, if any.
    fn find_index(&self, id: &ComposedAreaId) -> (r: Option<usize>)
        requires
            unique_ids(self.areas@),
        ensures
            match r {
                Option::Some(i) => i < self.areas@.len() && self.areas@[i as int].area.id == *id
                    && i as int == spec_index_of(self.areas@, *id),
                Option::None => !has_id(self.areas@, *id),
            },
    {
        let mut i: usize = 0;
        while i < self.areas.len()
            invariant
                unique_ids(self.areas@),
                i <= self.areas@.len(),
                forall|j: int| 0 <= j < i ==> self.areas@[j].area.id != *id,
            decreases self.areas@.len() - i,
        {
            if self.areas[i].area.id.same_as(id) {
                proof {
                    let w = spec_index_of(self.areas@, *id);
                    assert(0 <= w < self.areas@.len() && self.areas@[w].area.id == *id);
                }
                return Option::Some(i);
            }
            i = i + 1;
        }
        Option::None
    }

    /// Insert-or-replace by identity; returns the previous area, if any,
    /// so callers can detect content changes.
    ///
    /// Marks the identity as present this frame.  A repeated report within
    /// one frame replaces the area wholesale (the last report wins) while
    /// the per-area mask cache survives; a fresh report starts with an
    /// empty cache.  Cheap enough to be called once per widget per frame.
    pub fn put(&mut self, area: ComposedArea) -> (prev: Option<ComposedArea>)
        requires
            old(self).wf(),
            area.wf(),
        ensures
            final(self).wf(),
            put_effect(*old(self), *final(self), area, prev),
    {
        let ghost old_areas = self.areas@;
        let id = area.id;
        let found = self.find_index(&id);
        let prev = match found {
            Option::Some(i) => {
                let prev_entry = self.areas.remove(i);
                let TrackedArea { area: prev_area, applied, content_dirty: _ } = prev_entry;
                let dirty = match (&prev_area.html, &area.html) {
                    (Option::Some(p), Option::Some(n)) => !p.content.eq(&n.content),
                    _ => false,
                };
                let entry = TrackedArea { area, applied, content_dirty: dirty };
                self.areas.insert(i, entry);
                proof {
                    assert(self.areas@ =~= old_areas.update(
                        i as int,
                        tracked_replacement(old_areas[i as int], area),
                    ));
                    assert(forall|id2: ComposedAreaId|
                        has_id(old_areas, id2) == has_id(self.areas@, id2)) by {
                        assert forall|id2: ComposedAreaId|
                            has_id(old_areas, id2) implies has_id(self.areas@, id2) by {
                            let w = choose|k: int|
                                0 <= k < old_areas.len() && old_areas[k].area.id == id2;
                            if w == i as int {
                                assert(self.areas@[w].area.id == id2);
                            } else {
                                assert(self.areas@[w].area.id == id2);
                            }
                        }
                        assert forall|id2: ComposedAreaId|
                            has_id(self.areas@, id2) implies has_id(old_areas, id2) by {
                            let w = choose|k: int|
                                0 <= k < self.areas@.len() && self.areas@[k].area.id == id2;
                            if w == i as int {
                                assert(old_areas[w].area.id == id2);
                            } else {
                                assert(old_areas[w].area.id == id2);
                            }
                        }
                    }
                }
                Option::Some(prev_area)
            },
            Option::None => {
                let entry = TrackedArea { area, applied: Option::None, content_dirty: false };
                self.areas.push(entry);
                proof {
                    assert(self.areas@ =~= old_areas.push(tracked_fresh(area)));
                    assert(forall|id2: ComposedAreaId|
                        #[trigger] has_id(old_areas, id2) ==> has_id(self.areas@, id2)) by {
                        assert forall|id2: ComposedAreaId|
                            has_id(old_areas, id2) implies has_id(self.areas@, id2) by {
                            let w = choose|k: int|
                                0 <= k < old_areas.len() && old_areas[k].area.id == id2;
                            assert(self.areas@[w].area.id == id2);
                        }
                    }
                    assert(has_id(self.areas@, area.id)) by {
                        assert(self.areas@[old_areas.len() as int].area.id == area.id);
                    }
                }
                Option::None
            },
        };
        if !self.touched_contains(&id) {
            self.touched.push(id);
        }
        proof {
            assert(has_id(self.areas@, id));
            assert forall|j: int|
                0 <= j < self.touched@.len() implies has_id(
                self.areas@,
                #[trigger] self.touched@[j],
            ) by {
                if self.touched@[j] != id {
                    assert(0 <= j < old(self).touched@.len());
                    assert(old(self).touched@[j] == self.touched@[j]);
                    assert(has_id(old(self).areas@, self.touched@[j]));
                }
            }
        }
        prev
    }

    /// Removes every area whose identity was not reported since the last
    /// sync, returning the removed areas so the host adapter can tear down
    /// their elements; clears the presence set for the next frame.
    ///
    /// A purged area's bookkeeping goes with it: reporting the same
    /// identity again later behaves as a fresh creation.
    pub fn purge(&mut self) -> (removed: Vec<TrackedArea>)
        requires
            old(self).wf(),
        ensures
            final(self).wf(),
            final(self).strategy == old(self).strategy,
            final(self).sync_mask_updates == old(self).sync_mask_updates,
            final(self).areas@ == old(self).areas@.filter(touched_pred(old(self).touched@)),
            removed@ == old(self).areas@.filter(untouched_pred(old(self).touched@)),
            final(self).touched@ == Seq::<ComposedAreaId>::empty(),
    {
        let ghost old_areas = self.areas@;
        let ghost keep = touched_pred(old(self).touched@);
        let ghost gone = untouched_pred(old(self).touched@);
        let mut pending: Vec<TrackedArea> = Vec::new();
        core::mem::swap(&mut self.areas, &mut pending);
        let mut removed: Vec<TrackedArea> = Vec::new();
        let ghost mut seen: Seq<TrackedArea> = Seq::empty();
        proof {
            assert(seen.filter(keep) =~= Seq::<TrackedArea>::empty());
            assert(seen.filter(gone) =~= Seq::<TrackedArea>::empty());
            assert(self.areas@ =~= seen.filter(keep));
            assert(removed@ =~= seen.filter(gone));
        }
        while pending.len() > 0
            invariant
                old_areas =~= seen + pending@,
                self.areas@ == seen.filter(keep),
                removed@ == seen.filter(gone),
                keep == touched_pred(old(self).touched@),
                gone == untouched_pred(old(self).touched@),
                self.touched@ == old(self).touched@,
                self.strategy == old(self).strategy,
                self.sync_mask_updates == old(self).sync_mask_updates,
            decreases pending@.len(),
        {
            let entry = pending.remove(0);
            let is_kept = self.touched_contains(&entry.area.id);
            proof {
                broadcast use vstd::seq_lib::group_filter_ensures;

                assert(seen.push(entry).drop_last() =~= seen);
                assert(seen.push(entry).filter(keep) == if keep(entry) {
                    seen.filter(keep).push(entry)
                } else {
                    seen.filter(keep)
                }) by {
                    seen.lemma_filter_push(entry, keep);
                }
                assert(seen.push(entry).filter(gone) == if gone(entry) {
                    seen.filter(gone).push(entry)
                } else {
                    seen.filter(gone)
                }) by {
                    seen.lemma_filter_push(entry, gone);
                }
            }
            proof {
                seen = seen.push(entry);
                assert(old_areas =~= seen + pending@);
            }
            if is_kept {
                self.areas.push(entry);
            } else {
                removed.push(entry);
            }
        }
        self.touched.clear();
        proof {
            assert(old_areas =~= seen);
            assert(final(self).areas@ == old_areas.filter(keep));
            assert(removed@ == old_areas.filter(gone));
            lemma_filter_keeps_wf_and_unique(old_areas, keep);
        }
        removed
    }

    /// The metadata of the mask strategy currently installed.
    ///
    /// Useful to learn which concrete strategy the automatic selection
    /// settled on.
    pub fn mask_strategy_meta(&self) -> (m: MaskStrategyMeta)
        ensures
            m.name@ == self.strategy.spec_name(),
    {
        self.strategy.meta()
    }

    /// Installs a different mask strategy at runtime.
    ///
    /// The outgoing strategy is cleaned up, the incoming one set up, and
    /// every cached per-area artifact is invalidated so the next sync
    /// rewrites all masks with the new strategy.
    pub fn set_mask_strategy(&mut self, strategy: Strategy)
        requires
            old(self).wf(),
        ensures
            final(self).wf(),
            final(self).strategy == strategy,
            final(self).sync_mask_updates == old(self).sync_mask_updates,
            final(self).touched@ == old(self).touched@,
            final(self).areas@.len() == old(self).areas@.len(),
            forall|i: int|
                0 <= i < old(self).areas@.len() ==> final(self).areas@[i] == (TrackedArea {
                    area: old(self).areas@[i].area,
                    applied: Option::None,
                    content_dirty: old(self).areas@[i].content_dirty,
                }),
    {
        self.strategy.cleanup();
        let ghost old_areas = self.areas@;
        let n = self.areas.len();
        let mut i: usize = 0;
        while i < n
            invariant
                n == self.areas@.len(),
                old_areas.len() == n,
                i <= n,
                forall|j: int|
                    0 <= j < i ==> self.areas@[j] == (TrackedArea {
                        area: old_areas[j].area,
                        applied: Option::None,
                        content_dirty: old_areas[j].content_dirty,
                    }),
                forall|j: int| i <= j < n ==> self.areas@[j] == old_areas[j],
                self.touched@ == old(self).touched@,
                self.strategy == old(self).strategy,
                self.sync_mask_updates == old(self).sync_mask_updates,
            decreases n - i,
        {
            let entry = self.areas.remove(i);
            let TrackedArea { area, applied: _, content_dirty } = entry;
            self.areas.insert(i, TrackedArea { area, applied: Option::None, content_dirty });
            proof {
                assert(forall|j: int| i < j < n ==> self.areas@[j] == old_areas[j]);
            }
            i = i + 1;
        }
        self.strategy = strategy;
        self.strategy.setup();
        proof {
            assert(ids_of(final(self).areas@) =~= ids_of(old(self).areas@));
            assert(unique_ids(final(self).areas@)) by {
                assert(forall|a: int, b: int|
                    0 <= a < b < final(self).areas@.len() ==> final(self).areas@[a].area.id == old(
                        self,
                    ).areas@[a].area.id && final(self).areas@[b].area.id == old(
                        self,
                    ).areas@[b].area.id);
            }
            assert(forall|id2: ComposedAreaId|
                #[trigger] has_id(old(self).areas@, id2) ==> has_id(final(self).areas@, id2)) by {
                assert forall|id2: ComposedAreaId|
                    has_id(old(self).areas@, id2) implies has_id(final(self).areas@, id2) by {
                    let w = choose|k: int|
                        0 <= k < old(self).areas@.len() && old(self).areas@[k].area.id == id2;
                    assert(final(self).areas@[w].area.id == id2);
                }
            }
        }
    }
}

/// Whether a tracked area's rectangle overlaps `target`.
pub open spec fn occluder_pred(target: Rect) -> spec_fn(TrackedArea) -> bool {
    |t: TrackedArea| t.area.rect.spec_intersects(target)
}

/// The projection from a tracked entry to its area.
pub open spec fn area_of() -> spec_fn(TrackedArea) -> ComposedArea {
    |t: TrackedArea| t.area
}

/// The projection from a tracked entry to its area's rectangle.
pub open spec fn rect_of() -> spec_fn(TrackedArea) -> Rect {
    |t: TrackedArea| t.area.rect
}

/// The areas positioned after position `i` whose rectangle intersects the
/// area at `i`: its occluders, in stacking order.
pub open spec fn spec_occluders(areas: Seq<TrackedArea>, i: int) -> Seq<ComposedArea> {
    areas.skip(i + 1).filter(occluder_pred(areas[i].area.rect)).map_values(area_of())
}

/// The rectangles of the occluders of the area at position `i`.
pub open spec fn spec_occluder_rects(areas: Seq<TrackedArea>, i: int) -> Seq<Rect> {
    areas.skip(i + 1).filter(occluder_pred(areas[i].area.rect)).map_values(rect_of())
}

/// Whether the dragged area is among the occluders of the area at `i`.
pub open spec fn spec_drag_hit(
    areas: Seq<TrackedArea>,
    i: int,
    dragged: Option<ComposedAreaId>,
) -> bool {
    match dragged {
        Option::Some(d) => exists|j: int|
            i < j < areas.len() && areas[j].area.id == d && areas[j].area.rect.spec_intersects(
                areas[i].area.rect,
            ),
        Option::None => false,
    }
}

/// Whether the area at `i` must be suppressed this frame: the engine lacks
/// synchronous mask updates and the area currently being dragged is one of
/// its occluders, so remasking would flash one frame late.
pub open spec fn spec_suppressed(
    areas: Seq<TrackedArea>,
    i: int,
    dragged: Option<ComposedAreaId>,
    sync_updates: bool,
) -> bool {
    !sync_updates && spec_drag_hit(areas, i, dragged)
}

/// The position of the first area of layer `layer` at or after `i`, or the
/// length if there is none.
pub open spec fn area_layer_idx_from(areas: Seq<TrackedArea>, layer: u64, i: int) -> int
    decreases areas.len() - i,
{
    if i >= areas.len() {
        areas.len() as int
    } else if areas[i].area.id.layer_id == layer {
        i
    } else {
        area_layer_idx_from(areas, layer, i + 1)
    }
}

/// Which area counts as "being dragged": while the primary pointer button
/// is down, the first tracked area of the host's top layer.  A heuristic —
/// a plain click counts as a drag — accepted because the consequence is
/// only a one-frame cosmetic suppression.
pub open spec fn spec_dragged_index(
    areas: Seq<TrackedArea>,
    pointer_down: bool,
    top_layer_id: Option<u64>,
) -> Option<int> {
    if !pointer_down {
        Option::None
    } else {
        match top_layer_id {
            Option::None => Option::None,
            Option::Some(tl) => {
                let i = area_layer_idx_from(areas, tl, 0);
                if i < areas.len() {
                    Option::Some(i)
                } else {
                    Option::None
                }
            },
        }
    }
}

/// The identity of the dragged area, if any.
pub open spec fn spec_dragged_id(
    areas: Seq<TrackedArea>,
    pointer_down: bool,
    top_layer_id: Option<u64>,
) -> Option<ComposedAreaId> {
    match spec_dragged_index(areas, pointer_down, top_layer_id) {
        Option::Some(i) => Option::Some(areas[i].area.id),
        Option::None => Option::None,
    }
}

/// The artifact cache entry of a tracked area, as a mathematical value.
pub open spec fn applied_view(t: TrackedArea) -> Option<MaskArtifactView> {
    match t.applied {
        Option::Some(a) => Option::Some(a@),
        Option::None => Option::None,
    }
}

/// The element-removal commands for a purged-area list: one removal per
/// area that carried content (canvas-only areas own no element).
pub open spec fn spec_removal_cmds(removed: Seq<TrackedArea>) -> Seq<DomCommandView>
    decreases removed.len(),
{
    if removed.len() == 0 {
        Seq::empty()
    } else {
        spec_removal_cmds(removed.drop_last()) + match removed.last().area.html {
            Option::Some(h) => seq![DomCommandView::Remove { element_id: h.id@ }],
            Option::None => Seq::empty(),
        }
    }
}

/// The commands that apply a computed artifact to an element: nothing at
/// all when the artifact equals the one already applied, else the mask
/// definition write (if the strategy keeps one) and the style write.
pub open spec fn spec_apply_cmds(
    h: ComposedHtml,
    artifact: MaskArtifactView,
    cached: Option<MaskArtifactView>,
) -> Seq<DomCommandView> {
    if cached == Option::Some(artifact) {
        Seq::empty()
    } else {
        (match artifact.mask_def {
            Option::Some(svg) => seq![DomCommandView::WriteMaskDef { element_id: h.id@, svg }],
            Option::None => Seq::empty(),
        }) + seq![DomCommandView::SetStyle { element_id: h.id@, style: artifact.style }]
    }
}

/// The commands one area contributes to a frame: canvas-only areas
/// contribute nothing; a content area's element is ensured, its markup
/// rewritten if it changed, and then either force-hidden (drag hazard) or
/// remasked by the strategy where the artifact changed.
pub open spec fn spec_area_cmds(
    areas: Seq<TrackedArea>,
    i: int,
    strategy: Strategy,
    dragged: Option<ComposedAreaId>,
    sync_updates: bool,
) -> Seq<DomCommandView> {
    match areas[i].area.html {
        Option::None => Seq::empty(),
        Option::Some(h) => {
            let head = seq![DomCommandView::Ensure { element_id: h.id@, html: h.content@ }] + (
            if areas[i].content_dirty {
                seq![DomCommandView::SetContent { element_id: h.id@, html: h.content@ }]
            } else {
                Seq::empty()
            });
            if spec_suppressed(areas, i, dragged, sync_updates) {
                head + seq![DomCommandView::HideElement { element_id: h.id@ }]
            } else {
                head + spec_apply_cmds(
                    h,
                    strategy.artifact_model(h, spec_occluder_rects(areas, i)),
                    applied_view(areas[i]),
                )
            }
        },
    }
}

/// The commands of the first `n` areas, concatenated in order.
pub open spec fn spec_frame_cmds_upto(
    areas: Seq<TrackedArea>,
    strategy: Strategy,
    dragged: Option<ComposedAreaId>,
    sync_updates: bool,
    n: int,
) -> Seq<DomCommandView>
    decreases n,
{
    if n <= 0 {
        Seq::empty()
    } else {
        spec_frame_cmds_upto(areas, strategy, dragged, sync_updates, n - 1) + spec_area_cmds(
            areas,
            n - 1,
            strategy,
            dragged,
            sync_updates,
        )
    }
}

/// The artifact cache entry an area ends the frame with: untouched for a
/// canvas-only area, cleared under suppression (so the first stable frame
/// rewrites the mask), else the freshly computed artifact.
pub open spec fn spec_applied_after(
    areas: Seq<TrackedArea>,
    i: int,
    strategy: Strategy,
    dragged: Option<ComposedAreaId>,
    sync_updates: bool,
) -> Option<MaskArtifactView> {
    match areas[i].area.html {
        Option::None => applied_view(areas[i]),
        Option::Some(h) => {
            if spec_suppressed(areas, i, dragged, sync_updates) {
                Option::None
            } else {
                Option::Some(strategy.artifact_model(h, spec_occluder_rects(areas, i)))
            }
        },
    }
}

/// The areas that survive a frame: the reconciled order, restricted to the
/// identities reported this frame.
pub open spec fn spec_frame_kept(
    areas: Seq<TrackedArea>,
    touched: Seq<ComposedAreaId>,
    host: Seq<u64>,
) -> Seq<TrackedArea> {
    spec_reconcile(areas, host).filter(touched_pred(touched))
}

/// The areas a frame purges: the reconciled order, restricted to the
/// identities not reported this frame.
pub open spec fn spec_frame_removed(
    areas: Seq<TrackedArea>,
    touched: Seq<ComposedAreaId>,
    host: Seq<u64>,
) -> Seq<TrackedArea> {
    spec_reconcile(areas, host).filter(untouched_pred(touched))
}

/// Collects the occluder rectangles of the area at position `i`, and
/// whether the dragged area is among those occluders.
fn collect_occluder_rects(
    areas: &Vec<TrackedArea>,
    i: usize,
    dragged: Option<ComposedAreaId>,
) -> (r: (Vec<Rect>, bool))
    requires
        i < areas@.len(),
        forall|k: int| 0 <= k < areas@.len() ==> (#[trigger] areas@[k]).area.wf(),
    ensures
        r.0@ == spec_occluder_rects(areas@, i as int),
        forall|k: int| 0 <= k < r.0@.len() ==> (#[trigger] r.0@[k]).wf(),
        r.1 == spec_drag_hit(areas@, i as int, dragged),
{
    let area_count = areas.len();
    let target = areas[i].area.rect;
    let ghost pred = occluder_pred(target);
    let mut rects: Vec<Rect> = Vec::new();
    let mut hit = false;
    let mut j: usize = i + 1;
    proof {
        assert(areas@.subrange(i + 1, j as int).filter(pred) =~= Seq::<TrackedArea>::empty());
        assert(rects@ =~= areas@.subrange(i + 1, j as int).filter(pred).map_values(rect_of()));
    }
    while j < area_count
        invariant
            area_count == areas@.len(),
            i < j <= areas@.len(),
            target == areas@[i as int].area.rect,
            pred == occluder_pred(target),
            forall|k: int| 0 <= k < areas@.len() ==> (#[trigger] areas@[k]).area.wf(),
            rects@ == areas@.subrange(i + 1, j as int).filter(pred).map_values(rect_of()),
            forall|k: int| 0 <= k < rects@.len() ==> (#[trigger] rects@[k]).wf(),
            hit == match dragged {
                Option::Some(d) => exists|k: int|
                    i < k < j && areas@[k].area.id == d && areas@[k].area.rect.spec_intersects(
                        areas@[i as int].area.rect,
                    ),
                Option::None => false,
            },
        decreases areas@.len() - j,
    {
        let ghost pre = areas@.subrange(i + 1, j as int);
        let entry_rect = areas[j].area.rect;
        let overlaps = entry_rect.intersects(&target);
        if overlaps {
            rects.push(entry_rect);
            match dragged {
                Option::Some(d) => {
                    if areas[j].area.id.same_as(&d) {
                        hit = true;
                    }
                },
                Option::None => {},
            }
        }
        proof {
            assert(areas@.subrange(i + 1, j + 1) =~= pre.push(areas@[j as int]));
            pre.lemma_filter_push(areas@[j as int], pred);
            assert(rects@ =~= areas@.subrange(i + 1, j + 1).filter(pred).map_values(rect_of()));
        }
        j = j + 1;
    }
    proof {
        assert(areas@.subrange(i + 1, areas@.len() as int) =~= areas@.skip(i + 1));
    }
    (rects, hit)
}

/// Computes the identity of the area counting as dragged, if any.
fn dragged_id_from(
    areas: &Vec<TrackedArea>,
    pointer_down: bool,
    top_layer_id: Option<u64>,
) -> (r: Option<ComposedAreaId>)
    ensures
        r == spec_dragged_id(areas@, pointer_down, top_layer_id),
{
    if !pointer_down {
        return Option::None;
    }
    let tl = match top_layer_id {
        Option::Some(tl) => tl,
        Option::None => { return Option::None },
    };
    let mut i: usize = 0;
    while i < areas.len()
        invariant
            i <= areas@.len(),
            pointer_down,
            top_layer_id == Option::Some(tl),
            area_layer_idx_from(areas@, tl, 0) == area_layer_idx_from(areas@, tl, i as int),
        decreases areas@.len() - i,
    {
        if areas[i].area.id.layer_id == tl {
            proof {
                assert(area_layer_idx_from(areas@, tl, i as int) == i as int);
            }
            return Option::Some(areas[i].area.id);
        }
        i = i + 1;
    }
    proof {
        assert(area_layer_idx_from(areas@, tl, areas@.len() as int) == areas@.len() as int);
    }
    Option::None
}

/// Filtering a tracked-area sequence keeps identities unique and areas
/// well-formed, and keeps only (all) the identities whose entries satisfy
/// the predicate.
proof fn lemma_filter_keeps_wf_and_unique(areas: Seq<TrackedArea>, pred: spec_fn(TrackedArea) -> bool)
    requires
        unique_ids(areas),
        forall|i: int| 0 <= i < areas.len() ==> (#[trigger] areas[i]).area.wf(),
    ensures
        unique_ids(areas.filter(pred)),
        forall|i: int| 0 <= i < areas.filter(pred).len() ==> (#[trigger] areas.filter(pred)[i]).area.wf(),
        forall|i: int|
            0 <= i < areas.filter(pred).len() ==> has_id(areas, (#[trigger] areas.filter(pred)[i]).area.id),
    decreases areas.len(),
{
    broadcast use vstd::seq_lib::group_filter_ensures;

    if areas.len() > 0 {
        let prefix = areas.drop_last();
        let last = areas.last();
        lemma_filter_keeps_wf_and_unique(prefix, pred);
        assert(prefix.push(last) =~= areas);
        prefix.lemma_filter_push(last, pred);
        let f = areas.filter(pred);
        assert forall|i: int| 0 <= i < f.len() implies (#[trigger] f[i]).area.wf() by {
            if pred(last) && i == f.len() - 1 {
                assert(f[i] == last);
            } else {
                assert(f[i] == prefix.filter(pred)[i]);
            }
        }
        assert forall|i: int| 0 <= i < f.len() implies has_id(areas, (#[trigger] f[i]).area.id) by {
            if pred(last) && i == f.len() - 1 {
                assert(areas[areas.len() - 1].area.id == f[i].area.id);
            } else {
                assert(f[i] == prefix.filter(pred)[i]);
                assert(has_id(prefix, f[i].area.id));
                let w = choose|k: int| 0 <= k < prefix.len() && prefix[k].area.id == f[i].area.id;
                assert(areas[w].area.id == f[i].area.id);
            }
        }
        assert forall|i: int, j: int|
            0 <= i < j < f.len() implies f[i].area.id != f[j].area.id by {
            if pred(last) && j == f.len() - 1 && f[j] == last && prefix.filter(pred).len() == f.len() - 1 {
                assert(f[i] == prefix.filter(pred)[i]);
                assert(has_id(prefix, f[i].area.id));
                let w = choose|k: int| 0 <= k < prefix.len() && prefix[k].area.id == f[i].area.id;
                assert(areas[w].area.id == f[i].area.id);
                assert(areas[areas.len() - 1].area.id == last.area.id);
            } else {
                assert(f[i] == prefix.filter(pred)[i]);
                assert(f[j] == prefix.filter(pred)[j]);
            }
        }
    }
}

/// Everything the host reports once per frame, as plain values.
#[derive(Debug)]
pub struct HostFrame {
    /// The full back-to-front layer order the host rendered this frame.
    pub z_order: Vec<u64>,
    /// Whether the primary pointer button is currently held down.
    pub pointer_down: bool,
    /// The host's topmost layer, if any.
    pub top_layer_id: Option<u64>,
}

impl Registry {
    /// Reorders the tracked areas to the permutation implied by the host's
    /// back-to-front layer order; see [`spec_reconcile`].
    ///
    /// Areas of unreported layers sort last — they are not yet purged,
    /// that is [`Registry::purge`]'s job — and nothing here can panic.
    pub fn reconcile_order(&mut self, host_z_order: &Vec<u64>)
        requires
            old(self).wf(),
        ensures
            final(self).wf(),
            final(self).areas@ == spec_reconcile(old(self).areas@, host_z_order@),
            final(self).touched@ == old(self).touched@,
            final(self).strategy == old(self).strategy,
            final(self).sync_mask_updates == old(self).sync_mask_updates,
    {
        let mut work: Vec<TrackedArea> = Vec::new();
        core::mem::swap(&mut self.areas, &mut work);
        let ordered = reconcile_areas(work, host_z_order);
        self.areas = ordered;
        proof {
            lemma_reconcile_props(old(self).areas@, host_z_order@);
            assert forall|i: int|
                0 <= i < self.areas@.len() implies (#[trigger] self.areas@[i]).area.wf() by {
                assert(old(self).areas@.contains(self.areas@[i]));
                let w = choose|k: int|
                    0 <= k < old(self).areas@.len() && old(self).areas@[k] == self.areas@[i];
                assert(old(self).areas@[w].area.wf());
            }
        }
    }

    /// The areas positioned after the area carrying `id` in the current
    /// order whose rectangle intersects it.
    ///
    /// Only meaningful once [`Registry::reconcile_order`] has produced the
    /// frame's order; asking about an identity the registry does not track
    /// is a caller error, excluded by contract.
    pub fn occluders_of(&self, id: ComposedAreaId) -> (r: Vec<ComposedArea>)
        requires
            self.wf(),
            has_id(self.areas@, id),
        ensures
            r@ == spec_occluders(self.areas@, spec_index_of(self.areas@, id)),
    {
        let i = match self.find_index(&id) {
            Option::Some(i) => i,
            Option::None => {
                proof {
                    assert(false);
                }
                0
            },
        };
        let area_count = self.areas.len();
        let target = self.areas[i].area.rect;
        let ghost pred = occluder_pred(target);
        let mut out: Vec<ComposedArea> = Vec::new();
        let mut j: usize = i + 1;
        proof {
            assert(self.areas@.subrange(i + 1, j as int).filter(pred) =~= Seq::<
                TrackedArea,
            >::empty());
            assert(out@ =~= self.areas@.subrange(i + 1, j as int).filter(pred).map_values(
                area_of(),
            ));
        }
        while j < area_count
            invariant
                self.wf(),
                area_count == self.areas@.len(),
                i < j <= self.areas@.len(),
                i < self.areas@.len(),
                target == self.areas@[i as int].area.rect,
                pred == occluder_pred(target),
                out@ == self.areas@.subrange(i + 1, j as int).filter(pred).map_values(area_of()),
            decreases self.areas@.len() - j,
        {
            let ghost pre = self.areas@.subrange(i + 1, j as int);
            if self.areas[j].area.rect.intersects(&target) {
                out.push(self.areas[j].area.clone());
            }
            proof {
                assert(self.areas@.subrange(i + 1, j + 1) =~= pre.push(self.areas@[j as int]));
                pre.lemma_filter_push(self.areas@[j as int], pred);
                assert(out@ =~= self.areas@.subrange(i + 1, j + 1).filter(pred).map_values(
                    area_of(),
                ));
            }
            j = j + 1;
        }
        proof {
            assert(self.areas@.subrange(i + 1, self.areas@.len() as int) =~= self.areas@.skip(
                i + 1,
            ));
        }
        out
    }

    /// The area considered "being dragged": while the primary pointer
    /// button is down, the first tracked area of the host's top layer.
    ///
    /// A deliberate approximation — no true drag-start or drag-end event is
    /// observed, so a plain click counts too; the consequence is only a
    /// cosmetic one-frame suppression, never corrupted state.
    pub fn dragged_area(&self, pointer_down: bool, top_layer_id: Option<u64>) -> (r: Option<
        ComposedArea,
    >)
        requires
            self.wf(),
        ensures
            match spec_dragged_index(self.areas@, pointer_down, top_layer_id) {
                Option::Some(i) => r == Option::Some(self.areas@[i].area),
                Option::None => r is None,
            },
    {
        if !pointer_down {
            return Option::None;
        }
        let tl = match top_layer_id {
            Option::Some(tl) => tl,
            Option::None => { return Option::None },
        };
        let mut i: usize = 0;
        while i < self.areas.len()
            invariant
                i <= self.areas@.len(),
                pointer_down,
                top_layer_id == Option::Some(tl),
                area_layer_idx_from(self.areas@, tl, 0) == area_layer_idx_from(
                    self.areas@,
                    tl,
                    i as int,
                ),
            decreases self.areas@.len() - i,
        {
            if self.areas[i].area.id.layer_id == tl {
                proof {
                    assert(area_layer_idx_from(self.areas@, tl, i as int) == i as int);
                }
                return Option::Some(self.areas[i].area.clone());
            }
            i = i + 1;
        }
        proof {
            assert(area_layer_idx_from(self.areas@, tl, self.areas@.len() as int)
                == self.areas@.len() as int);
        }
        Option::None
    }

    /// Runs one frame's composition: reconcile the order, purge the areas
    /// not reported this frame, and compute and apply each content area's
    /// mask, returning the render-surface commands the host adapter must
    /// perform — element removals for purged areas first, then each
    /// surviving area's commands in stacking order.
    ///
    /// Must be called once at the end of every host update pass.
    #[verifier::rlimit(100)]
    pub fn sync(&mut self, frame: &HostFrame) -> (cmds: Vec<DomCommand>)
        requires
            old(self).wf(),
        ensures
            final(self).wf(),
            final(self).strategy == old(self).strategy,
            final(self).sync_mask_updates == old(self).sync_mask_updates,
            final(self).touched@ == Seq::<ComposedAreaId>::empty(),
            ({
                let kept = spec_frame_kept(old(self).areas@, old(self).touched@, frame.z_order@);
                let removed = spec_frame_removed(
                    old(self).areas@,
                    old(self).touched@,
                    frame.z_order@,
                );
                let dragged = spec_dragged_id(kept, frame.pointer_down, frame.top_layer_id);
                &&& final(self).areas@.len() == kept.len()
                &&& forall|i: int|
                    0 <= i < kept.len() ==> (#[trigger] final(self).areas@[i]).area == kept[i].area
                &&& forall|i: int|
                    0 <= i < kept.len() ==> !(#[trigger] final(self).areas@[i]).content_dirty
                &&& forall|i: int|
                    0 <= i < kept.len() ==> applied_view(#[trigger] final(self).areas@[i])
                        == spec_applied_after(
                        kept,
                        i,
                        old(self).strategy,
                        dragged,
                        old(self).sync_mask_updates,
                    )
                &&& views_of(cmds@) == spec_removal_cmds(removed) + spec_frame_cmds_upto(
                    kept,
                    old(self).strategy,
                    dragged,
                    old(self).sync_mask_updates,
                    kept.len() as int,
                )
            }),
    {
        self.reconcile_order(&frame.z_order);
        let removed = self.purge();
        let ghost kept = self.areas@;
        let ghost strat = self.strategy;
        let ghost su = self.sync_mask_updates;
        let mut cmds: Vec<DomCommand> = Vec::new();
        // removals for the purged areas
        let mut r: usize = 0;
        proof {
            assert(removed@.take(0) =~= Seq::<TrackedArea>::empty());
            assert(views_of(cmds@) =~= spec_removal_cmds(removed@.take(0)));
        }
        while r < removed.len()
            invariant
                r <= removed@.len(),
                views_of(cmds@) == spec_removal_cmds(removed@.take(r as int)),
                self.areas@ == kept,
                self.touched@ == Seq::<ComposedAreaId>::empty(),
                self.strategy == strat,
                self.sync_mask_updates == su,
            decreases removed@.len() - r,
        {
            let ghost pre_cmds = cmds@;
            match &removed[r].area.html {
                Option::Some(h) => {
                    cmds.push(DomCommand::Remove { element_id: h.id.clone() });
                    proof {
                        assert(views_of(cmds@) =~= views_of(pre_cmds) + seq![
                            DomCommandView::Remove { element_id: h.id@ },
                        ]);
                    }
                },
                Option::None => {},
            }
            proof {
                assert(removed@.take(r + 1).drop_last() =~= removed@.take(r as int));
                assert(removed@.take(r + 1).last() == removed@[r as int]);
                assert(views_of(cmds@) =~= spec_removal_cmds(removed@.take(r + 1)));
            }
            r = r + 1;
        }
        proof {
            assert(removed@.take(removed@.len() as int) =~= removed@);
        }
        // the drag heuristic, evaluated on the surviving order
        let dragged = dragged_id_from(&self.areas, frame.pointer_down, frame.top_layer_id);
        // compute and apply masks, area by area, rebuilding the entries
        let mut cur: Vec<TrackedArea> = Vec::new();
        core::mem::swap(&mut self.areas, &mut cur);
        let mut next: Vec<TrackedArea> = Vec::new();
        let mut i: usize = 0;
        let ghost removal_views = views_of(cmds@);
        while i < cur.len()
            invariant
                i <= cur@.len(),
                cur@ == kept,
                unique_ids(kept),
                forall|k: int| 0 <= k < kept.len() ==> (#[trigger] kept[k]).area.wf(),
                dragged == spec_dragged_id(kept, frame.pointer_down, frame.top_layer_id),
                self.strategy == strat,
                self.sync_mask_updates == su,
                self.touched@ == Seq::<ComposedAreaId>::empty(),
                next@.len() == i,
                forall|k: int| 0 <= k < i ==> (#[trigger] next@[k]).area == kept[k].area,
                forall|k: int| 0 <= k < i ==> !(#[trigger] next@[k]).content_dirty,
                forall|k: int|
                    0 <= k < i ==> applied_view(#[trigger] next@[k]) == spec_applied_after(
                        kept,
                        k,
                        strat,
                        dragged,
                        su,
                    ),
                views_of(cmds@) == removal_views + spec_frame_cmds_upto(
                    kept,
                    strat,
                    dragged,
                    su,
                    i as int,
                ),
            decreases cur@.len() - i,
        {
            let ghost pre_cmds = cmds@;
            let ghost step_cmds = spec_area_cmds(kept, i as int, strat, dragged, su);
            let area_clone = cur[i].area.clone();
            match &cur[i].area.html {
                Option::None => {
                    let applied = match &cur[i].applied {
                        Option::Some(a) => Option::Some(a.clone()),
                        Option::None => Option::None,
                    };
                    next.push(TrackedArea { area: area_clone, applied, content_dirty: false });
                    proof {
                        assert(views_of(cmds@) =~= views_of(pre_cmds) + step_cmds);
                    }
                },
                Option::Some(h) => {
                    let (rects, hit) = collect_occluder_rects(&cur, i, dragged);
                    let suppressed = !self.sync_mask_updates && hit;
                    cmds.push(
                        DomCommand::Ensure { element_id: h.id.clone(), html: h.content.clone() },
                    );
                    if cur[i].content_dirty {
                        cmds.push(
                            DomCommand::SetContent {
                                element_id: h.id.clone(),
                                html: h.content.clone(),
                            },
                        );
                    }
                    let ghost head_done = cmds@;
                    if suppressed {
                        cmds.push(DomCommand::HideElement { element_id: h.id.clone() });
                        next.push(
                            TrackedArea {
                                area: area_clone,
                                applied: Option::None,
                                content_dirty: false,
                            },
                        );
                        proof {
                            assert(views_of(cmds@) =~= views_of(pre_cmds) + step_cmds);
                        }
                    } else {
                        let artifact = self.strategy.compute_mask(h, &rects);
                        let unchanged = match &cur[i].applied {
                            Option::Some(prev) => prev.same_as(&artifact),
                            Option::None => false,
                        };
                        if !unchanged {
                            match &artifact.mask_def {
                                Option::Some(svg) => {
                                    cmds.push(
                                        DomCommand::WriteMaskDef {
                                            element_id: h.id.clone(),
                                            svg: svg.clone(),
                                        },
                                    );
                                },
                                Option::None => {},
                            }
                            cmds.push(
                                DomCommand::SetStyle {
                                    element_id: h.id.clone(),
                                    style: artifact.style.clone(),
                                },
                            );
                        }
                        next.push(
                            TrackedArea {
                                area: area_clone,
                                applied: Option::Some(artifact),
                                content_dirty: false,
                            },
                        );
                        proof {
                            assert(views_of(cmds@) =~= views_of(pre_cmds) + step_cmds);
                        }
                    }
                },
            }
            proof {
                assert(views_of(cmds@) =~= removal_views + spec_frame_cmds_upto(
                    kept,
                    strat,
                    dragged,
                    su,
                    i + 1,
                ));
            }
            i = i + 1;
        }
        self.areas = next;
        proof {
            assert(cur@.take(cur@.len() as int) =~= cur@);
            assert(ids_of(final(self).areas@) =~= ids_of(kept));
            assert(unique_ids(final(self).areas@)) by {
                assert(forall|a: int|
                    0 <= a < kept.len() ==> (#[trigger] final(self).areas@[a]).area.id
                        == kept[a].area.id);
            }
            assert(forall|k: int|
                0 <= k < final(self).areas@.len() ==> (#[trigger] final(self).areas@[k]).area.wf());
        }
        cmds
    }
}

/// Syncs the registry's state with the render surface: the per-frame entry
/// point, to be called unconditionally at the end of the host's update
/// pass.  Returns the commands the host adapter must perform; see
/// [`Registry::sync`] for the full account.
pub fn sync(registry: &mut Registry, frame: &HostFrame) -> (cmds: Vec<DomCommand>)
    requires
        old(registry).wf(),
    ensures
        final(registry).wf(),
        final(registry).strategy == old(registry).strategy,
        final(registry).sync_mask_updates == old(registry).sync_mask_updates,
        final(registry).touched@ == Seq::<ComposedAreaId>::empty(),
        ({
            let kept = spec_frame_kept(
                old(registry).areas@,
                old(registry).touched@,
                frame.z_order@,
            );
            let removed = spec_frame_removed(
                old(registry).areas@,
                old(registry).touched@,
                frame.z_order@,
            );
            let dragged = spec_dragged_id(kept, frame.pointer_down, frame.top_layer_id);
            &&& final(registry).areas@.len() == kept.len()
            &&& forall|i: int|
                0 <= i < kept.len() ==> (#[trigger] final(registry).areas@[i]).area
                    == kept[i].area
            &&& forall|i: int|
                0 <= i < kept.len() ==> !(#[trigger] final(registry).areas@[i]).content_dirty
            &&& forall|i: int|
                0 <= i < kept.len() ==> applied_view(#[trigger] final(registry).areas@[i])
                    == spec_applied_after(
                    kept,
                    i,
                    old(registry).strategy,
                    dragged,
                    old(registry).sync_mask_updates,
                )
            &&& views_of(cmds@) == spec_removal_cmds(removed) + spec_frame_cmds_upto(
                kept,
                old(registry).strategy,
                dragged,
                old(registry).sync_mask_updates,
                kept.len() as int,
            )
        }),
{
    registry.sync(frame)
}

/// The metadata of the mask strategy a registry currently uses.
pub fn mask_strategy_meta(registry: &Registry) -> (m: MaskStrategyMeta)
    ensures
        m.name@ == registry.strategy.spec_name(),
{
    registry.mask_strategy_meta()
}

/// Installs a specific mask strategy at runtime, cleaning up the outgoing
/// one and invalidating every cached per-area artifact.
pub fn set_mask_strategy(registry: &mut Registry, strategy: Strategy)
    requires
        old(registry).wf(),
    ensures
        final(registry).wf(),
        final(registry).strategy == strategy,
        final(registry).touched@ == old(registry).touched@,
        final(registry).areas@.len() == old(registry).areas@.len(),
        forall|i: int|
            0 <= i < old(registry).areas@.len() ==> (#[trigger] final(registry).areas@[i])
                == (TrackedArea {
                area: old(registry).areas@[i].area,
                applied: Option::None,
                content_dirty: old(registry).areas@[i].content_dirty,
            }),
{
    registry.set_mask_strategy(strategy)
}

/// After a frame's reconciliation and purge, the registry holds exactly
/// the set of identities reported (`put`) during that frame — no more, no
/// fewer — whatever the sequence of reports and whatever order the host
/// names.
pub proof fn lemma_frame_presence(
    areas: Seq<TrackedArea>,
    touched: Seq<ComposedAreaId>,
    host: Seq<u64>,
)
    requires
        unique_ids(areas),
        forall|i: int| 0 <= i < touched.len() ==> has_id(areas, #[trigger] touched[i]),
    ensures
        forall|id: ComposedAreaId|
            #[trigger] has_id(spec_frame_kept(areas, touched, host), id) <==> touched.contains(id),
{
    broadcast use vstd::seq_lib::group_filter_ensures;

    lemma_reconcile_props(areas, host);
    let rec = spec_reconcile(areas, host);
    let kept = spec_frame_kept(areas, touched, host);
    assert forall|id: ComposedAreaId| #[trigger] has_id(kept, id) implies touched.contains(id) by {
        let w = choose|i: int| 0 <= i < kept.len() && kept[i].area.id == id;
        assert(touched_pred(touched)(kept[w]));
    }
    assert forall|id: ComposedAreaId| touched.contains(id) implies #[trigger] has_id(kept, id) by {
        let ti = choose|i: int| 0 <= i < touched.len() && touched[i] == id;
        assert(has_id(areas, touched[ti]));
        assert(has_id(rec, id));
        let w = choose|i: int| 0 <= i < rec.len() && rec[i].area.id == id;
        assert(touched_pred(touched)(rec[w]));
        rec.lemma_filter_contains(touched_pred(touched), w);
        assert(kept.contains(rec[w]));
        let v = choose|i: int| 0 <= i < kept.len() && kept[i] == rec[w];
        assert(kept[v].area.id == id);
    }
}

/// Occlusion is one-directional by order: for two areas with the first
/// positioned before the second, the second is among the first's occluders
/// exactly when their rectangles intersect — and the first is never among
/// the second's occluders.
pub proof fn lemma_occlusion_one_directional(areas: Seq<TrackedArea>, i: int, j: int)
    requires
        unique_ids(areas),
        0 <= i < j < areas.len(),
    ensures
        spec_occluders(areas, i).contains(areas[j].area) <==> areas[j].area.rect.spec_intersects(
            areas[i].area.rect,
        ),
        !spec_occluders(areas, j).contains(areas[i].area),
{
    broadcast use vstd::seq_lib::group_filter_ensures;

    let target = areas[i].area.rect;
    let pred = occluder_pred(target);
    let suffix = areas.skip(i + 1);
    let f = suffix.filter(pred);
    let occ = spec_occluders(areas, i);
    if areas[j].area.rect.spec_intersects(target) {
        assert(suffix[j - i - 1] == areas[j]);
        assert(pred(suffix[j - i - 1]));
        suffix.lemma_filter_contains(pred, j - i - 1);
        assert(f.contains(areas[j]));
        let w = choose|k: int| 0 <= k < f.len() && f[k] == areas[j];
        assert(occ[w] == areas[j].area);
        assert(occ.contains(areas[j].area));
    }
    if occ.contains(areas[j].area) {
        let w = choose|k: int| 0 <= k < occ.len() && occ[k] == areas[j].area;
        assert(occ[w] == area_of()(f[w]));
        assert(pred(f[w]));
        assert(f[w].area == areas[j].area);
    }
    if spec_occluders(areas, j).contains(areas[i].area) {
        let target2 = areas[j].area.rect;
        let pred2 = occluder_pred(target2);
        let suffix2 = areas.skip(j + 1);
        let f2 = suffix2.filter(pred2);
        let occ2 = spec_occluders(areas, j);
        let w = choose|k: int| 0 <= k < occ2.len() && occ2[k] == areas[i].area;
        assert(occ2[w] == area_of()(f2[w]));
        assert(f2[w].area == areas[i].area);
        lemma_filter_contained(suffix2, pred2);
        assert(suffix2.contains(f2[w]));
        let m = choose|k: int| 0 <= k < suffix2.len() && suffix2[k] == f2[w];
        assert(areas[j + 1 + m] == f2[w]);
        assert(areas[j + 1 + m].area.id == areas[i].area.id);
        assert(false);
    }
}

/// An identity not reported during a frame does not survive the frame's
/// reconcile-and-purge; reporting it again in a later frame therefore
/// behaves as a fresh creation — [`Registry::put`]'s fresh-insertion case,
/// with no stale artifact or dirty flag carried over.
pub proof fn lemma_round_trip_fresh(
    areas: Seq<TrackedArea>,
    touched: Seq<ComposedAreaId>,
    host: Seq<u64>,
    id: ComposedAreaId,
)
    requires
        unique_ids(areas),
        !touched.contains(id),
    ensures
        !has_id(spec_frame_kept(areas, touched, host), id),
{
    broadcast use vstd::seq_lib::group_filter_ensures;

    let kept = spec_frame_kept(areas, touched, host);
    if has_id(kept, id) {
        let w = choose|i: int| 0 <= i < kept.len() && kept[i].area.id == id;
        assert(touched_pred(touched)(kept[w]));
        assert(false);
    }
}

/// Computing a mask twice from identical inputs yields identical
/// artifacts — each strategy's `compute_mask` returns exactly its
/// artifact model — and applying an artifact identical to the one already
/// applied for the same element performs no render-surface write at all.
pub proof fn lemma_apply_skips_unchanged(
    h: ComposedHtml,
    artifact: MaskArtifactView,
    cached: Option<MaskArtifactView>,
)
    requires
        cached == Option::Some(artifact),
    ensures
        spec_apply_cmds(h, artifact, cached) == Seq::<DomCommandView>::empty(),
{
}

} // verus!
