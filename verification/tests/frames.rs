use hframe::area::{ComposedArea, ComposedAreaId, ComposedHtml, ComposedHtmlStatus};
use hframe::aware::AreaReport;
use hframe::geometry::Rect;
use hframe::mask_strategies::{Nop, Strategy};
use hframe::registry::{set_mask_strategy, sync, DomCommand, HostFrame, Registry};

const FIREFOX_UA: &str =
    "mozilla/5.0 (macintosh; intel mac os x 10.15; rv:123.0) gecko/20100101 firefox/123.0";
const CHROME_UA: &str = "mozilla/5.0 (macintosh; intel mac os x 10_15_7) applewebkit/537.36 (khtml, like gecko) chrome/122.0.0.0 safari/537.36";

fn rect(x: i64, y: i64, w: i64, h: i64) -> Rect {
    Rect { min_x: x, min_y: y, max_x: x + w, max_y: y + h }
}

fn content_area(layer: u64, element_id: &str, r: Rect) -> ComposedArea {
    ComposedArea {
        id: ComposedAreaId { layer_id: layer, widget_id: None },
        rect: r,
        html: Some(ComposedHtml {
            id: element_id.to_string(),
            content: "<div>hello</div>".to_string(),
            rect: r,
            status: ComposedHtmlStatus { visible: true, interactive: true },
        }),
    }
}

fn canvas_area(layer: u64, r: Rect) -> ComposedArea {
    ComposedArea {
        id: ComposedAreaId { layer_id: layer, widget_id: None },
        rect: r,
        html: None,
    }
}

fn frame(z_order: Vec<u64>, pointer_down: bool, top_layer_id: Option<u64>) -> HostFrame {
    HostFrame { z_order, pointer_down, top_layer_id }
}

fn style_for<'c>(cmds: &'c [DomCommand], id: &str) -> Option<&'c str> {
    for cmd in cmds {
        if let DomCommand::SetStyle { element_id, style } = cmd {
            if element_id == id {
                return Some(style);
            }
        }
    }
    None
}

fn hides(cmds: &[DomCommand], id: &str) -> bool {
    cmds.iter().any(|cmd| matches!(cmd, DomCommand::HideElement { element_id } if element_id == id))
}

fn removes(cmds: &[DomCommand], id: &str) -> bool {
    cmds.iter().any(|cmd| matches!(cmd, DomCommand::Remove { element_id } if element_id == id))
}

#[test]
fn no_occluders_yields_no_hole_mask() {
    // scenario: W with rect (0,0)-(100,100) and content, nothing on top
    let mut reg = Registry::new(CHROME_UA);
    reg.put(content_area(1, "w", rect(0, 0, 100, 100)));
    let cmds = reg.sync(&frame(vec![1], false, Some(1)));
    let style = style_for(&cmds, "w").expect("W must be styled");
    let svg = "<svg xmlns=\"http://www.w3.org/2000/svg\" viewBox=\"0 0 100 100\"><defs><mask id=\"mask\" x=\"0\" y=\"0\" width=\"100\" height=\"100\"><rect x=\"0\" y=\"0\" width=\"100\" height=\"100\" fill=\"white\" /></mask></defs><rect x=\"0\" y=\"0\" width=\"100\" height=\"100\" fill=\"blue\" mask=\"url(#mask)\" /></svg>";
    let enc = urlencoding::encode(svg);
    let expected = format!(
        "top: 0px; left: 0px; width: 100px; height: 100px; mask: url(data:image/svg+xml,{enc}); -webkit-mask: url(data:image/svg+xml,{enc});"
    );
    assert_eq!(style, expected);
    assert!(!hides(&cmds, "w"));
}

#[test]
fn occluder_in_front_cuts_a_hole() {
    // scenario: W (content, order index 0) and O (canvas, order index 1)
    // with rects (0,0)-(100,100) and (50,50)-(100,100)
    let mut reg = Registry::new(CHROME_UA);
    reg.put(content_area(1, "w", rect(0, 0, 100, 100)));
    reg.aware(Some(AreaReport {
        layer_id: 2,
        rect: Rect { min_x: 50, min_y: 50, max_x: 100, max_y: 100 },
    }));
    reg.reconcile_order(&vec![1, 2]);
    let occ = reg.occluders_of(ComposedAreaId { layer_id: 1, widget_id: None });
    assert_eq!(occ.len(), 1);
    assert_eq!(occ[0].id, ComposedAreaId { layer_id: 2, widget_id: None });
    let cmds = reg.sync(&frame(vec![1, 2], false, Some(2)));
    let style = style_for(&cmds, "w").expect("W must be styled");
    let svg = "<svg xmlns=\"http://www.w3.org/2000/svg\" viewBox=\"0 0 100 100\"><defs><mask id=\"mask\" x=\"0\" y=\"0\" width=\"100\" height=\"100\"><rect x=\"0\" y=\"0\" width=\"100\" height=\"100\" fill=\"white\" /><rect x=\"50\" y=\"50\" width=\"50\" height=\"50\" rx=\"5\" fill=\"black\" /></mask></defs><rect x=\"0\" y=\"0\" width=\"100\" height=\"100\" fill=\"blue\" mask=\"url(#mask)\" /></svg>";
    let enc = urlencoding::encode(svg);
    let expected = format!(
        "top: 0px; left: 0px; width: 100px; height: 100px; mask: url(data:image/svg+xml,{enc}); -webkit-mask: url(data:image/svg+xml,{enc});"
    );
    assert_eq!(style, expected);
}

#[test]
fn purged_occluder_reverts_the_mask() {
    // scenario: O from the previous frame is not reported again, so W's
    // occluders vanish and its mask reverts to "no holes"
    let mut reg = Registry::new(CHROME_UA);
    reg.put(content_area(1, "w", rect(0, 0, 100, 100)));
    reg.aware(Some(AreaReport {
        layer_id: 2,
        rect: Rect { min_x: 50, min_y: 50, max_x: 100, max_y: 100 },
    }));
    reg.sync(&frame(vec![1, 2], false, Some(2)));
    // next frame: only W is reported
    reg.put(content_area(1, "w", rect(0, 0, 100, 100)));
    let cmds = reg.sync(&frame(vec![1], false, Some(1)));
    let occ = reg.occluders_of(ComposedAreaId { layer_id: 1, widget_id: None });
    assert_eq!(occ.len(), 0);
    let style = style_for(&cmds, "w").expect("W must be restyled");
    assert!(!style.contains("rx=")); // encoded or not, no hole rect is left
    let svg = "<svg xmlns=\"http://www.w3.org/2000/svg\" viewBox=\"0 0 100 100\"><defs><mask id=\"mask\" x=\"0\" y=\"0\" width=\"100\" height=\"100\"><rect x=\"0\" y=\"0\" width=\"100\" height=\"100\" fill=\"white\" /></mask></defs><rect x=\"0\" y=\"0\" width=\"100\" height=\"100\" fill=\"blue\" mask=\"url(#mask)\" /></svg>";
    let enc = urlencoding::encode(svg);
    let expected = format!(
        "top: 0px; left: 0px; width: 100px; height: 100px; mask: url(data:image/svg+xml,{enc}); -webkit-mask: url(data:image/svg+xml,{enc});"
    );
    assert_eq!(style, expected);
}

#[test]
fn drag_over_content_suppresses_remasking() {
    // scenario: pointer down, the topmost area overlaps W's content and
    // the engine lacks synchronous mask updates: W is forced invisible
    // rather than remasked, until pointer-up
    let mut reg = Registry::new(FIREFOX_UA);
    reg.put(content_area(1, "w", rect(0, 0, 100, 100)));
    reg.aware(Some(AreaReport {
        layer_id: 2,
        rect: Rect { min_x: 50, min_y: 50, max_x: 100, max_y: 100 },
    }));
    let cmds = reg.sync(&frame(vec![1, 2], true, Some(2)));
    assert!(hides(&cmds, "w"));
    assert!(style_for(&cmds, "w").is_none());
    // pointer released: the mask is written again
    reg.put(content_area(1, "w", rect(0, 0, 100, 100)));
    reg.aware(Some(AreaReport {
        layer_id: 2,
        rect: Rect { min_x: 50, min_y: 50, max_x: 100, max_y: 100 },
    }));
    let cmds = reg.sync(&frame(vec![1, 2], false, Some(2)));
    assert!(!hides(&cmds, "w"));
    assert!(style_for(&cmds, "w").is_some());
}

#[test]
fn second_put_wins_and_returns_the_first() {
    // scenario: two reports of the same id within one frame: the registry
    // keeps the second value and hands the first back
    let mut reg = Registry::new(CHROME_UA);
    let first = content_area(1, "w", rect(0, 0, 100, 100));
    let second = content_area(1, "w", rect(10, 10, 50, 50));
    assert!(reg.put(first).is_none());
    let prev = reg.put(second).expect("the first report is returned");
    assert_eq!(prev.rect, rect(0, 0, 100, 100));
    assert_eq!(reg.areas.len(), 1);
    assert_eq!(reg.areas[0].area.rect, rect(10, 10, 50, 50));
}

#[test]
fn registry_holds_exactly_the_touched_ids() {
    // after reconcile and purge the registry contains exactly the ids
    // reported this frame
    let mut reg = Registry::new(CHROME_UA);
    reg.put(content_area(1, "a", rect(0, 0, 10, 10)));
    reg.put(canvas_area(2, rect(20, 0, 10, 10)));
    reg.put(content_area(3, "c", rect(40, 0, 10, 10)));
    reg.sync(&frame(vec![3, 1], false, None));
    // unreported layers sort last but still survive if touched; all three
    // were touched, so all three remain
    assert_eq!(reg.areas.len(), 3);
    assert_eq!(reg.areas[0].area.id.layer_id, 3);
    assert_eq!(reg.areas[1].area.id.layer_id, 1);
    assert_eq!(reg.areas[2].area.id.layer_id, 2);
    // next frame, only one id is reported
    reg.put(canvas_area(2, rect(20, 0, 10, 10)));
    let cmds = reg.sync(&frame(vec![2], false, None));
    assert_eq!(reg.areas.len(), 1);
    assert_eq!(reg.areas[0].area.id.layer_id, 2);
    assert!(removes(&cmds, "a"));
    assert!(removes(&cmds, "c"));
}

#[test]
fn occlusion_is_one_directional() {
    let mut reg = Registry::new(CHROME_UA);
    reg.put(content_area(1, "a", rect(0, 0, 100, 100)));
    reg.put(content_area(2, "b", rect(50, 50, 100, 100)));
    reg.reconcile_order(&vec![1, 2]);
    let of_a = reg.occluders_of(ComposedAreaId { layer_id: 1, widget_id: None });
    let of_b = reg.occluders_of(ComposedAreaId { layer_id: 2, widget_id: None });
    assert_eq!(of_a.len(), 1);
    assert_eq!(of_a[0].id.layer_id, 2);
    assert_eq!(of_b.len(), 0);
    // disjoint rectangles occlude nothing
    let mut reg = Registry::new(CHROME_UA);
    reg.put(content_area(1, "a", rect(0, 0, 10, 10)));
    reg.put(content_area(2, "b", rect(50, 50, 10, 10)));
    reg.reconcile_order(&vec![1, 2]);
    assert_eq!(reg.occluders_of(ComposedAreaId { layer_id: 1, widget_id: None }).len(), 0);
}

#[test]
fn unchanged_artifact_is_not_rewritten() {
    // the same state twice: the second frame reorders and re-ensures, but
    // performs no style write
    let mut reg = Registry::new(CHROME_UA);
    reg.put(content_area(1, "w", rect(0, 0, 100, 100)));
    let first = reg.sync(&frame(vec![1], false, Some(1)));
    assert!(style_for(&first, "w").is_some());
    reg.put(content_area(1, "w", rect(0, 0, 100, 100)));
    let second = reg.sync(&frame(vec![1], false, Some(1)));
    assert!(style_for(&second, "w").is_none());
    assert!(!hides(&second, "w"));
    // moving the area changes the artifact, so it is written again
    reg.put(content_area(1, "w", rect(5, 0, 100, 100)));
    let third = reg.sync(&frame(vec![1], false, Some(1)));
    assert!(style_for(&third, "w").is_some());
}

#[test]
fn purge_then_put_behaves_as_fresh() {
    // an area purged and reported again later starts over: no stale
    // artifact is carried, so its mask is written like a creation
    let mut reg = Registry::new(CHROME_UA);
    reg.put(content_area(1, "w", rect(0, 0, 100, 100)));
    reg.sync(&frame(vec![1], false, Some(1)));
    // a frame without W purges it
    let gone = reg.sync(&frame(vec![], false, None));
    assert!(removes(&gone, "w"));
    assert_eq!(reg.areas.len(), 0);
    // W returns: tracked afresh, mask written again
    reg.put(content_area(1, "w", rect(0, 0, 100, 100)));
    assert!(reg.areas[0].applied.is_none());
    assert!(!reg.areas[0].content_dirty);
    let back = reg.sync(&frame(vec![1], false, Some(1)));
    assert!(style_for(&back, "w").is_some());
}

#[test]
fn content_change_rewrites_markup() {
    let mut reg = Registry::new(CHROME_UA);
    reg.put(content_area(1, "w", rect(0, 0, 100, 100)));
    let first = reg.sync(&frame(vec![1], false, Some(1)));
    assert!(!first.iter().any(|c| matches!(c, DomCommand::SetContent { .. })));
    let mut changed = content_area(1, "w", rect(0, 0, 100, 100));
    if let Some(h) = changed.html.as_mut() {
        h.content = "<div>changed</div>".to_string();
    }
    reg.put(changed);
    let second = reg.sync(&frame(vec![1], false, Some(1)));
    assert!(second.iter().any(|c| matches!(
        c,
        DomCommand::SetContent { element_id, html }
            if element_id == "w" && html == "<div>changed</div>"
    )));
}

#[test]
fn whole_window_sorts_before_sub_widgets() {
    // within one layer, the whole-window area precedes its sub-widgets
    let mut reg = Registry::new(CHROME_UA);
    let widget = ComposedArea {
        id: ComposedAreaId { layer_id: 1, widget_id: Some(7) },
        rect: rect(10, 10, 10, 10),
        html: None,
    };
    reg.put(widget);
    reg.put(canvas_area(1, rect(0, 0, 100, 100)));
    reg.reconcile_order(&vec![1]);
    assert_eq!(reg.areas[0].area.id.widget_id, None);
    assert_eq!(reg.areas[1].area.id.widget_id, Some(7));
}

#[test]
fn switching_strategies_invalidates_caches() {
    let mut reg = Registry::new(CHROME_UA);
    assert_eq!(reg.mask_strategy_meta().name, "data_mask (auto)");
    reg.put(content_area(1, "w", rect(0, 0, 100, 100)));
    reg.sync(&frame(vec![1], false, Some(1)));
    set_mask_strategy(&mut reg, Strategy::Nop(Nop::new()));
    assert_eq!(reg.mask_strategy_meta().name, "nop");
    assert!(reg.areas[0].applied.is_none());
    reg.put(content_area(1, "w", rect(0, 0, 100, 100)));
    let host = frame(vec![1], false, Some(1));
    let cmds = sync(&mut reg, &host);
    assert_eq!(
        style_for(&cmds, "w").expect("the new strategy restyles W"),
        "top: 0px; left: 0px; width: 100px; height: 100px;"
    );
}

#[test]
fn dragged_area_is_topmost_while_pointer_down() {
    let mut reg = Registry::new(CHROME_UA);
    reg.put(content_area(1, "w", rect(0, 0, 100, 100)));
    reg.put(canvas_area(2, rect(50, 50, 100, 100)));
    reg.reconcile_order(&vec![1, 2]);
    assert!(reg.dragged_area(false, Some(2)).is_none());
    assert!(reg.dragged_area(true, None).is_none());
    let dragged = reg.dragged_area(true, Some(2)).expect("the top layer's area");
    assert_eq!(dragged.id.layer_id, 2);
}
