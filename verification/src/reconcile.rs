//! Z-order reconciliation: reordering the tracked areas to the permutation
//! implied by the host's reported back-to-front layer order.
//!
//! The host reports layers; several areas can share a layer (the whole
//! window and its embedded widgets).  The reconciled order puts areas of
//! earlier layers first and, within one layer, the whole-window area before
//! its sub-widgets, preserving the previous relative order inside each of
//! those groups.  Areas whose layer the host did not report this step sort
//! last, in their previous relative order — never dropped here (purging is
//! a separate step) and never a panic.

use crate::registry::{has_id, unique_ids, TrackedArea};
use vstd::prelude::*;

verus! {

/// The position of the first occurrence of `layer` in `host` at or after
/// `i`, or `host.len()` if there is none.
pub open spec fn first_idx_from(host: Seq<u64>, layer: u64, i: int) -> int
    decreases host.len() - i,
{
    if i >= host.len() {
        host.len() as int
    } else if host[i] == layer {
        i
    } else {
        first_idx_from(host, layer, i + 1)
    }
}

/// The rank the host order gives a layer: the position of its first
/// occurrence, or `host.len()` for a layer the host did not report.
pub open spec fn host_rank(host: Seq<u64>, layer: u64) -> int {
    first_idx_from(host, layer, 0)
}

proof fn lemma_first_idx_bounds(host: Seq<u64>, layer: u64, i: int)
    requires
        0 <= i <= host.len(),
    ensures
        i <= first_idx_from(host, layer, i) <= host.len(),
    decreases host.len() - i,
{
    if i < host.len() && host[i] != layer {
        lemma_first_idx_bounds(host, layer, i + 1);
    }
}

/// A layer's rank lies between zero and the host list's length.
pub broadcast proof fn lemma_host_rank_bounds(host: Seq<u64>, layer: u64)
    ensures
        0 <= #[trigger] host_rank(host, layer) <= host.len(),
{
    lemma_first_idx_bounds(host, layer, 0);
}

/// Computes [`host_rank`] for one layer.
pub fn host_rank_exec(host: &Vec<u64>, layer: u64) -> (r: usize)
    ensures
        r as int == host_rank(host@, layer),
{
    let mut i: usize = 0;
    while i < host.len()
        invariant
            i <= host@.len(),
            host_rank(host@, layer) == first_idx_from(host@, layer, i as int),
        decreases host@.len() - i,
    {
        if host[i] == layer {
            return i;
        }
        i = i + 1;
    }
    host.len()
}

/// Membership in the reconciliation group `(k, whole)`: areas whose layer
/// has rank `k` and whose whole-window flag equals `whole`.
pub open spec fn in_group(host: Seq<u64>, k: int, whole: bool) -> spec_fn(TrackedArea) -> bool {
    |t: TrackedArea| host_rank(host, t.area.id.layer_id) == k && t.area.id.is_whole_window()
        == whole
}

/// The complement of [`in_group`].
pub open spec fn outside_group(host: Seq<u64>, k: int, whole: bool) -> spec_fn(
    TrackedArea,
) -> bool {
    |t: TrackedArea| !(host_rank(host, t.area.id.layer_id) == k && t.area.id.is_whole_window()
        == whole)
}

/// Areas whose layer has rank at least `k`.
pub open spec fn rank_at_least(host: Seq<u64>, k: int) -> spec_fn(TrackedArea) -> bool {
    |t: TrackedArea| host_rank(host, t.area.id.layer_id) >= k
}

/// Areas still pending once the whole-window group of rank `k` has been
/// extracted: rank at least `k`, excluding that group.
pub open spec fn surviving_whole(host: Seq<u64>, k: int) -> spec_fn(TrackedArea) -> bool {
    |t: TrackedArea| host_rank(host, t.area.id.layer_id) >= k && !(host_rank(
        host,
        t.area.id.layer_id,
    ) == k && t.area.id.is_whole_window())
}

/// The areas a reconciliation step emits for rank `k`: the whole-window
/// areas of that layer first, then its sub-widgets, each preserving the
/// previous relative order.
pub open spec fn spec_group(areas: Seq<TrackedArea>, host: Seq<u64>, k: int) -> Seq<TrackedArea> {
    areas.filter(in_group(host, k, true)) + areas.filter(in_group(host, k, false))
}

/// The reconciled areas of the first `k` ranks, in rank order.
pub open spec fn spec_reconcile_prefix(areas: Seq<TrackedArea>, host: Seq<u64>, k: int) -> Seq<
    TrackedArea,
>
    decreases k,
{
    if k <= 0 {
        Seq::empty()
    } else {
        spec_reconcile_prefix(areas, host, k - 1) + spec_group(areas, host, k - 1)
    }
}

/// The full reconciled order: every reported rank's group in order,
/// followed by the areas whose layer was not reported.
pub open spec fn spec_reconcile(areas: Seq<TrackedArea>, host: Seq<u64>) -> Seq<TrackedArea> {
    spec_reconcile_prefix(areas, host, host.len() as int) + areas.filter(
        rank_at_least(host, host.len() as int),
    )
}

/// Filtering twice is filtering by the conjunction: stated against any
/// predicate pointwise equal to that conjunction.
proof fn lemma_filter_filter_ext<A>(
    s: Seq<A>,
    p: spec_fn(A) -> bool,
    q: spec_fn(A) -> bool,
    r: spec_fn(A) -> bool,
)
    requires
        forall|x: A| (#[trigger] p(x) && q(x)) == r(x),
    ensures
        s.filter(p).filter(q) == s.filter(r),
    decreases s.len(),
{
    broadcast use vstd::seq_lib::group_filter_ensures;

    if s.len() == 0 {
        reveal(Seq::filter);
        assert(s.filter(p).filter(q) =~= s.filter(r));
    } else {
        let pre = s.drop_last();
        let l = s.last();
        lemma_filter_filter_ext(pre, p, q, r);
        assert(pre.push(l) =~= s);
        pre.lemma_filter_push(l, p);
        pre.lemma_filter_push(l, r);
        if p(l) {
            pre.filter(p).lemma_filter_push(l, q);
        }
    }
}

/// Filtering by an always-true predicate keeps the sequence.
proof fn lemma_filter_all_true<A>(s: Seq<A>, p: spec_fn(A) -> bool)
    requires
        forall|i: int| 0 <= i < s.len() ==> p(#[trigger] s[i]),
    ensures
        s.filter(p) == s,
    decreases s.len(),
{
    broadcast use vstd::seq_lib::group_filter_ensures;

    if s.len() == 0 {
        reveal(Seq::filter);
        assert(s.filter(p) =~= s);
    } else {
        let pre = s.drop_last();
        let l = s.last();
        lemma_filter_all_true(pre, p);
        assert(pre.push(l) =~= s);
        pre.lemma_filter_push(l, p);
        assert(s.filter(p) =~= s);
    }
}

/// Every element of a filtered sequence is an element of the original.
pub(crate) proof fn lemma_filter_contained<A>(s: Seq<A>, p: spec_fn(A) -> bool)
    ensures
        forall|i: int| 0 <= i < s.filter(p).len() ==> s.contains(#[trigger] s.filter(p)[i]),
    decreases s.len(),
{
    broadcast use vstd::seq_lib::group_filter_ensures;

    if s.len() > 0 {
        let pre = s.drop_last();
        let l = s.last();
        lemma_filter_contained(pre, p);
        assert(pre.push(l) =~= s);
        pre.lemma_filter_push(l, p);
        let f = s.filter(p);
        assert forall|i: int| 0 <= i < f.len() implies s.contains(#[trigger] f[i]) by {
            if p(l) && i == f.len() - 1 {
                assert(s[s.len() - 1] == f[i]);
            } else {
                assert(f[i] == pre.filter(p)[i]);
                assert(pre.contains(f[i]));
                let w = choose|k: int| 0 <= k < pre.len() && pre[k] == f[i];
                assert(s[w] == f[i]);
            }
        }
    }
}

/// What holds of a reconciliation prefix: its elements are areas with rank
/// below `k`, it contains every such area, their identities stay unique,
/// and the prefix is sorted by rank.
proof fn lemma_prefix_props(areas: Seq<TrackedArea>, host: Seq<u64>, k: int)
    requires
        unique_ids(areas),
        0 <= k <= host.len(),
    ensures
        forall|i: int|
            0 <= i < spec_reconcile_prefix(areas, host, k).len() ==> areas.contains(
                #[trigger] spec_reconcile_prefix(areas, host, k)[i],
            ),
        forall|i: int|
            0 <= i < spec_reconcile_prefix(areas, host, k).len() ==> host_rank(
                host,
                (#[trigger] spec_reconcile_prefix(areas, host, k)[i]).area.id.layer_id,
            ) < k,
        forall|a: TrackedArea|
            areas.contains(a) && host_rank(host, a.area.id.layer_id) < k
                ==> #[trigger] spec_reconcile_prefix(areas, host, k).contains(a),
        unique_ids(spec_reconcile_prefix(areas, host, k)),
        forall|i: int, j: int|
            0 <= i < j < spec_reconcile_prefix(areas, host, k).len() ==> host_rank(
                host,
                (#[trigger] spec_reconcile_prefix(areas, host, k)[i]).area.id.layer_id,
            ) <= host_rank(
                host,
                (#[trigger] spec_reconcile_prefix(areas, host, k)[j]).area.id.layer_id,
            ),
    decreases k,
{
    broadcast use vstd::seq_lib::group_filter_ensures;
    broadcast use lemma_host_rank_bounds;

    if k > 0 {
        lemma_prefix_props(areas, host, k - 1);
        let pre = spec_reconcile_prefix(areas, host, k - 1);
        let gw = areas.filter(in_group(host, k - 1, true));
        let gs = areas.filter(in_group(host, k - 1, false));
        let cur = spec_reconcile_prefix(areas, host, k);
        assert(cur == pre + (gw + gs));
        lemma_filter_contained(areas, in_group(host, k - 1, true));
        lemma_filter_contained(areas, in_group(host, k - 1, false));
        // membership and rank of every element of the new prefix
        assert forall|i: int| 0 <= i < cur.len() implies areas.contains(#[trigger] cur[i])
            && host_rank(host, cur[i].area.id.layer_id) < k by {
            if i < pre.len() {
                assert(cur[i] == pre[i]);
            } else if i < pre.len() + gw.len() {
                assert(cur[i] == gw[i - pre.len()]);
                assert(in_group(host, k - 1, true)(gw[i - pre.len()]));
            } else {
                assert(cur[i] == gs[i - pre.len() - gw.len()]);
                assert(in_group(host, k - 1, false)(gs[i - pre.len() - gw.len()]));
            }
        }
        // completeness
        assert forall|a: TrackedArea|
            areas.contains(a) && host_rank(host, a.area.id.layer_id) < k implies #[trigger] cur.contains(
            a,
        ) by {
            if host_rank(host, a.area.id.layer_id) < k - 1 {
                assert(pre.contains(a));
                let w = choose|i: int| 0 <= i < pre.len() && pre[i] == a;
                assert(cur[w] == a);
            } else {
                let w = choose|i: int| 0 <= i < areas.len() && areas[i] == a;
                if a.area.id.is_whole_window() {
                    assert(in_group(host, k - 1, true)(areas[w]));
                    assert(gw.contains(areas[w]));
                    let v = choose|i: int| 0 <= i < gw.len() && gw[i] == a;
                    assert(cur[pre.len() + v] == a);
                } else {
                    assert(in_group(host, k - 1, false)(areas[w]));
                    assert(gs.contains(areas[w]));
                    let v = choose|i: int| 0 <= i < gs.len() && gs[i] == a;
                    assert(cur[pre.len() + gw.len() + v] == a);
                }
            }
        }
        // uniqueness: elements are areas; equal ids mean equal areas, and
        // the three parts are separated by rank or by the window flag
        assert forall|i: int, j: int|
            0 <= i < j < cur.len() implies cur[i].area.id != cur[j].area.id by {
            let x = cur[i];
            let y = cur[j];
            assert(areas.contains(x) && areas.contains(y));
            let wx = choose|w: int| 0 <= w < areas.len() && areas[w] == x;
            let wy = choose|w: int| 0 <= w < areas.len() && areas[w] == y;
            if x.area.id == y.area.id {
                assert(wx == wy);
                assert(x == y);
                if i < pre.len() && j < pre.len() {
                    assert(false);
                } else if i < pre.len() {
                    assert(host_rank(host, x.area.id.layer_id) < k - 1);
                    if j < pre.len() + gw.len() {
                        assert(in_group(host, k - 1, true)(gw[j - pre.len()]));
                    } else {
                        assert(in_group(host, k - 1, false)(gs[j - pre.len() - gw.len()]));
                    }
                    assert(false);
                } else {
                    // both in the rank k-1 groups: same value cannot be
                    // both whole-window and sub-widget, and within one
                    // filtered group indices differ on a duplicate-free
                    // base sequence
                    if j < pre.len() + gw.len() {
                        lemma_filter_of_unique_has_unique_ids(areas, in_group(host, k - 1, true));
                        assert(false);
                    } else if i >= pre.len() + gw.len() {
                        lemma_filter_of_unique_has_unique_ids(areas, in_group(host, k - 1, false));
                        assert(false);
                    } else {
                        assert(in_group(host, k - 1, true)(gw[i - pre.len()]));
                        assert(in_group(host, k - 1, false)(gs[j - pre.len() - gw.len()]));
                        assert(false);
                    }
                }
            }
        }
    }
}

/// Filtering a sequence with unique identities keeps them unique.
proof fn lemma_filter_of_unique_has_unique_ids(
    areas: Seq<TrackedArea>,
    p: spec_fn(TrackedArea) -> bool,
)
    requires
        unique_ids(areas),
    ensures
        unique_ids(areas.filter(p)),
    decreases areas.len(),
{
    broadcast use vstd::seq_lib::group_filter_ensures;

    if areas.len() > 0 {
        let pre = areas.drop_last();
        let l = areas.last();
        lemma_filter_of_unique_has_unique_ids(pre, p);
        assert(pre.push(l) =~= areas);
        pre.lemma_filter_push(l, p);
        lemma_filter_contained(pre, p);
        let f = areas.filter(p);
        assert forall|i: int, j: int|
            0 <= i < j < f.len() implies f[i].area.id != f[j].area.id by {
            if p(l) && j == f.len() - 1 {
                assert(f[i] == pre.filter(p)[i]);
                assert(pre.contains(f[i]));
                let w = choose|w: int| 0 <= w < pre.len() && pre[w] == f[i];
                assert(areas[w] == f[i]);
                assert(areas[areas.len() - 1] == l);
            } else {
                assert(f[i] == pre.filter(p)[i]);
                assert(f[j] == pre.filter(p)[j]);
            }
        }
    }
}

/// What reconciliation guarantees: the reconciled sequence carries exactly
/// the identities of the input (no area is created or dropped), keeps them
/// unique, and is sorted by the host's layer ranks.
pub proof fn lemma_reconcile_props(areas: Seq<TrackedArea>, host: Seq<u64>)
    requires
        unique_ids(areas),
    ensures
        forall|i: int|
            0 <= i < spec_reconcile(areas, host).len() ==> areas.contains(
                #[trigger] spec_reconcile(areas, host)[i],
            ),
        forall|a: TrackedArea|
            areas.contains(a) ==> #[trigger] spec_reconcile(areas, host).contains(a),
        unique_ids(spec_reconcile(areas, host)),
        forall|id: crate::area::ComposedAreaId|
            #[trigger] has_id(spec_reconcile(areas, host), id) <==> has_id(areas, id),
        forall|i: int, j: int|
            0 <= i < j < spec_reconcile(areas, host).len() ==> host_rank(
                host,
                (#[trigger] spec_reconcile(areas, host)[i]).area.id.layer_id,
            ) <= host_rank(
                host,
                (#[trigger] spec_reconcile(areas, host)[j]).area.id.layer_id,
            ),
        spec_reconcile(areas, host).len() == areas.len(),
{
    broadcast use vstd::seq_lib::group_filter_ensures;
    broadcast use lemma_host_rank_bounds;

    let len = host.len() as int;
    lemma_prefix_props(areas, host, len);
    let pre = spec_reconcile_prefix(areas, host, len);
    let left = areas.filter(rank_at_least(host, len));
    let res = spec_reconcile(areas, host);
    assert(res == pre + left);
    lemma_filter_contained(areas, rank_at_least(host, len));
    lemma_filter_of_unique_has_unique_ids(areas, rank_at_least(host, len));
    // membership of every reconciled element
    assert forall|i: int| 0 <= i < res.len() implies areas.contains(#[trigger] res[i]) by {
        if i < pre.len() {
            assert(res[i] == pre[i]);
        } else {
            assert(res[i] == left[i - pre.len()]);
        }
    }
    // completeness
    assert forall|a: TrackedArea| areas.contains(a) implies #[trigger] res.contains(a) by {
        if host_rank(host, a.area.id.layer_id) < len {
            assert(pre.contains(a));
            let w = choose|i: int| 0 <= i < pre.len() && pre[i] == a;
            assert(res[w] == a);
        } else {
            let w = choose|i: int| 0 <= i < areas.len() && areas[i] == a;
            assert(rank_at_least(host, len)(areas[w]));
            assert(left.contains(areas[w]));
            let v = choose|i: int| 0 <= i < left.len() && left[i] == a;
            assert(res[pre.len() + v] == a);
        }
    }
    // uniqueness across the two parts
    assert forall|i: int, j: int| 0 <= i < j < res.len() implies res[i].area.id != res[j].area.id by {
        let x = res[i];
        let y = res[j];
        assert(areas.contains(x) && areas.contains(y));
        let wx = choose|w: int| 0 <= w < areas.len() && areas[w] == x;
        let wy = choose|w: int| 0 <= w < areas.len() && areas[w] == y;
        if x.area.id == y.area.id {
            assert(wx == wy);
            assert(x == y);
            if j < pre.len() {
                assert(false);
            } else if i >= pre.len() {
                assert(false);
            } else {
                assert(host_rank(host, x.area.id.layer_id) < len);
                assert(rank_at_least(host, len)(left[j - pre.len()]));
                assert(false);
            }
        }
    }
    // identity preservation
    assert forall|id: crate::area::ComposedAreaId|
        #[trigger] has_id(res, id) <==> has_id(areas, id) by {
        if has_id(res, id) {
            let w = choose|i: int| 0 <= i < res.len() && res[i].area.id == id;
            assert(areas.contains(res[w]));
            let v = choose|i: int| 0 <= i < areas.len() && areas[i] == res[w];
            assert(areas[v].area.id == id);
        }
        if has_id(areas, id) {
            let w = choose|i: int| 0 <= i < areas.len() && areas[i].area.id == id;
            assert(res.contains(areas[w]));
            let v = choose|i: int| 0 <= i < res.len() && res[i] == areas[w];
            assert(res[v].area.id == id);
        }
    }
    // rank sortedness across the two parts
    assert forall|i: int, j: int|
        0 <= i < j < res.len() implies host_rank(
        host,
        (#[trigger] res[i]).area.id.layer_id,
    ) <= host_rank(host, (#[trigger] res[j]).area.id.layer_id) by {
        if j < pre.len() {
            assert(pre[i] == res[i] && pre[j] == res[j]);
        } else if i >= pre.len() {
            assert(rank_at_least(host, len)(left[i - pre.len()]));
            assert(rank_at_least(host, len)(left[j - pre.len()]));
        } else {
            assert(host_rank(host, res[i].area.id.layer_id) < len);
            assert(rank_at_least(host, len)(left[j - pre.len()]));
        }
    }
    // length: consequence of a one-to-one identity-preserving map; derived
    // directly by counting the partition
    lemma_reconcile_len(areas, host);
}

/// The reconciled sequence has exactly as many areas as the input.
proof fn lemma_reconcile_len(areas: Seq<TrackedArea>, host: Seq<u64>)
    requires
        unique_ids(areas),
    ensures
        spec_reconcile(areas, host).len() == areas.len(),
{
    broadcast use lemma_host_rank_bounds;

    let len = host.len() as int;
    lemma_partition_len(areas, host, len);
    lemma_rank_at_least_zero(areas, host);
}

/// Areas all have rank at least zero, so that filter keeps everything.
proof fn lemma_rank_at_least_zero(areas: Seq<TrackedArea>, host: Seq<u64>)
    ensures
        areas.filter(rank_at_least(host, 0)) == areas,
{
    broadcast use lemma_host_rank_bounds;

    lemma_filter_all_true(areas, rank_at_least(host, 0));
}

/// Counting the partition: the prefix for the first `k` ranks plus the
/// areas of rank at least `k` account for every area exactly once.
proof fn lemma_partition_len(areas: Seq<TrackedArea>, host: Seq<u64>, k: int)
    requires
        0 <= k <= host.len(),
    ensures
        spec_reconcile_prefix(areas, host, k).len() + areas.filter(rank_at_least(host, k)).len()
            == areas.len(),
    decreases k,
{
    broadcast use vstd::seq_lib::group_filter_ensures;
    broadcast use lemma_host_rank_bounds;

    if k == 0 {
        lemma_rank_at_least_zero(areas, host);
    } else {
        lemma_partition_len(areas, host, k - 1);
        // rank >= k-1 splits into rank == k-1 (whole, then sub) and rank >= k
        lemma_filter_split_len(areas, host, k - 1);
    }
}

/// Splitting the areas of rank at least `k` into the two groups of rank
/// exactly `k` and the areas of rank at least `k + 1` preserves the count.
proof fn lemma_filter_split_len(areas: Seq<TrackedArea>, host: Seq<u64>, k: int)
    ensures
        areas.filter(rank_at_least(host, k)).len() == areas.filter(in_group(host, k, true)).len()
            + areas.filter(in_group(host, k, false)).len() + areas.filter(
            rank_at_least(host, k + 1),
        ).len(),
    decreases areas.len(),
{
    broadcast use vstd::seq_lib::group_filter_ensures;

    if areas.len() == 0 {
        reveal(Seq::filter);
    } else {
        let pre = areas.drop_last();
        let l = areas.last();
        lemma_filter_split_len(pre, host, k);
        assert(pre.push(l) =~= areas);
        pre.lemma_filter_push(l, rank_at_least(host, k));
        pre.lemma_filter_push(l, in_group(host, k, true));
        pre.lemma_filter_push(l, in_group(host, k, false));
        pre.lemma_filter_push(l, rank_at_least(host, k + 1));
    }
}

/// Extracts from `pending` every area in the group `(k, whole)`, in order,
/// appending them to `out`; the others stay in `pending`, in order.
fn extract_group(
    pending: &mut Vec<TrackedArea>,
    host: &Vec<u64>,
    k: usize,
    whole: bool,
    out: &mut Vec<TrackedArea>,
)
    ensures
        final(out)@ == old(out)@ + old(pending)@.filter(in_group(host@, k as int, whole)),
        final(pending)@ == old(pending)@.filter(outside_group(host@, k as int, whole)),
{
    let ghost orig = old(pending)@;
    let ghost keep = in_group(host@, k as int, whole);
    let ghost leave = outside_group(host@, k as int, whole);
    let mut work: Vec<TrackedArea> = Vec::new();
    core::mem::swap(pending, &mut work);
    let ghost mut seen: Seq<TrackedArea> = Seq::empty();
    proof {
        assert(seen.filter(keep) =~= Seq::<TrackedArea>::empty());
        assert(seen.filter(leave) =~= Seq::<TrackedArea>::empty());
        assert(out@ =~= old(out)@ + seen.filter(keep));
        assert(pending@ =~= seen.filter(leave));
    }
    while work.len() > 0
        invariant
            orig =~= seen + work@,
            out@ == old(out)@ + seen.filter(keep),
            pending@ == seen.filter(leave),
            keep == in_group(host@, k as int, whole),
            leave == outside_group(host@, k as int, whole),
        decreases work@.len(),
    {
        let entry = work.remove(0);
        let rank = host_rank_exec(host, entry.area.id.layer_id);
        let entry_whole = entry.area.id.widget_id.is_none();
        let matched = rank == k && entry_whole == whole;
        proof {
            assert(matched == keep(entry));
            assert(seen.push(entry).drop_last() =~= seen);
            seen.lemma_filter_push(entry, keep);
            seen.lemma_filter_push(entry, leave);
        }
        proof {
            seen = seen.push(entry);
            assert(orig =~= seen + work@);
        }
        if matched {
            out.push(entry);
        } else {
            pending.push(entry);
        }
    }
    proof {
        assert(orig =~= seen);
    }
}

/// Reorders `areas` to the permutation implied by the host's back-to-front
/// layer order.
pub fn reconcile_areas(areas: Vec<TrackedArea>, host: &Vec<u64>) -> (r: Vec<TrackedArea>)
    ensures
        r@ == spec_reconcile(areas@, host@),
{
    let ghost orig = areas@;
    let mut pending = areas;
    let mut result: Vec<TrackedArea> = Vec::new();
    proof {
        lemma_rank_at_least_zero(orig, host@);
        assert(result@ =~= spec_reconcile_prefix(orig, host@, 0));
    }
    let mut k: usize = 0;
    while k < host.len()
        invariant
            k <= host@.len(),
            result@ == spec_reconcile_prefix(orig, host@, k as int),
            pending@ == orig.filter(rank_at_least(host@, k as int)),
        decreases host@.len() - k,
    {
        let ghost pend_k = pending@;
        let ghost res_k = result@;
        extract_group(&mut pending, host, k, true, &mut result);
        let ghost pend_mid = pending@;
        let ghost res_mid = result@;
        extract_group(&mut pending, host, k, false, &mut result);
        proof {
            let ki = k as int;
            let ge_k = rank_at_least(host@, ki);
            let ge_k1 = rank_at_least(host@, ki + 1);
            let gw = in_group(host@, ki, true);
            let gs = in_group(host@, ki, false);
            let ow = outside_group(host@, ki, true);
            let os = outside_group(host@, ki, false);
            let sv = surviving_whole(host@, ki);
            broadcast use lemma_host_rank_bounds;
            // what the first extraction appended
            lemma_filter_filter_ext(orig, ge_k, gw, gw);
            assert(res_mid == res_k + orig.filter(gw));
            // what the first extraction left behind
            lemma_filter_filter_ext(orig, ge_k, ow, sv);
            assert(pend_mid == orig.filter(sv));
            // what the second extraction appended
            lemma_filter_filter_ext(orig, sv, gs, gs);
            assert(result@ == res_mid + orig.filter(gs));
            // what the second extraction left behind
            lemma_filter_filter_ext(orig, sv, os, ge_k1);
            assert(pending@ == orig.filter(ge_k1));
            // the two groups appended in order form the rank's group
            assert(result@ =~= res_k + spec_group(orig, host@, ki));
            assert(result@ =~= spec_reconcile_prefix(orig, host@, ki + 1));
        }
        k = k + 1;
    }
    result.append(&mut pending);
    proof {
        assert(result@ =~= spec_reconcile(orig, host@));
    }
    result
}

} // verus!
