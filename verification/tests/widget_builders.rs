use hframe::aware::{Aware, AreaReport};
use hframe::geometry::Rect;
use hframe::html_window_state::HtmlWindowState;
use hframe::registry::Registry;
use hframe::widgets::bare_html::BareHtml;
use hframe::widgets::bare_html_overlay::BareHtmlOverlay;
use hframe::widgets::html_frame::HtmlFrame;
use hframe::widgets::html_window::HtmlWindow;
use hframe::widgets::window::Window;
use hframe::widgets::{WidgetResponse, WindowResponse};
use hframe::window_state::WindowState;

const CHROME_UA: &str = "mozilla/5.0 (macintosh; intel mac os x 10_15_7) applewebkit/537.36 (khtml, like gecko) chrome/122.0.0.0 safari/537.36";

fn rect(x: i64, y: i64, w: i64, h: i64) -> Rect {
    Rect { min_x: x, min_y: y, max_x: x + w, max_y: y + h }
}

fn window_response(layer: u64) -> WindowResponse {
    WindowResponse {
        layer_id: layer,
        window_rect: rect(0, 0, 200, 150),
        inner_rect: Some(rect(10, 30, 180, 110)),
        is_top_layer: true,
        pointer_down: false,
    }
}

#[test]
fn html_window_builder_chains() {
    let w = HtmlWindow::new("My Window").content("<p>hi</p>");
    assert_eq!(w.id, "my-window");
    assert_eq!(w.title, "My Window");
    assert_eq!(w.content, "<p>hi</p>");
    let w = w.id("explicit");
    assert_eq!(w.id, "explicit");
    let w = w.open(true);
    assert_eq!(w.open, Some(true));
}

#[test]
fn html_window_show_reports_its_area() {
    let mut reg = Registry::new(CHROME_UA);
    HtmlWindow::new("My Window").content("<p>hi</p>").show(&mut reg, Some(window_response(4)));
    assert_eq!(reg.areas.len(), 1);
    let area = &reg.areas[0].area;
    assert_eq!(area.id.layer_id, 4);
    assert_eq!(area.id.widget_id, None);
    assert_eq!(area.rect, rect(0, 0, 200, 150));
    let html = area.html.as_ref().expect("the window carries content");
    assert_eq!(html.id, "my-window");
    assert_eq!(html.rect, rect(10, 30, 180, 110));
    assert!(html.status.visible);
    assert!(html.status.interactive);
}

#[test]
fn closed_html_window_reports_nothing() {
    let mut reg = Registry::new(CHROME_UA);
    HtmlWindow::new("W").open(false).show(&mut reg, Some(window_response(4)));
    assert_eq!(reg.areas.len(), 0);
    HtmlWindow::new("W").show(&mut reg, None);
    assert_eq!(reg.areas.len(), 0);
}

#[test]
fn collapsed_html_window_hides_content() {
    let mut reg = Registry::new(CHROME_UA);
    let mut resp = window_response(4);
    resp.inner_rect = None;
    HtmlWindow::new("W").show(&mut reg, Some(resp));
    let html = reg.areas[0].area.html.as_ref().unwrap();
    assert!(!html.status.visible);
    assert_eq!(html.rect, rect(0, 0, 0, 0));
}

#[test]
fn window_builder_and_show() {
    let mut reg = Registry::new(CHROME_UA);
    let w = reg.window("w-id", "Title", "<p>x</p>");
    assert_eq!(w.id, "w-id");
    assert_eq!(w.title, "Title");
    assert_eq!(w.content, "<p>x</p>");
    let mut resp = window_response(9);
    resp.inner_rect = None;
    w.show(&mut reg, Some(resp));
    // a plain window falls back to its whole rectangle while collapsed
    let html = reg.areas[0].area.html.as_ref().unwrap();
    assert_eq!(html.rect, rect(0, 0, 200, 150));
    let w2 = Window::new("Other Window");
    assert_eq!(w2.id, "other-window");
}

#[test]
fn bare_widgets_report_sub_identities() {
    let mut reg = Registry::new(CHROME_UA);
    let resp = WidgetResponse {
        layer_id: 3,
        rect: rect(5, 5, 40, 20),
        is_top_layer: false,
        pointer_down: false,
    };
    BareHtml::new("Some Widget").content("<i>a</i>").show(&mut reg, resp);
    BareHtmlOverlay::new("over").content("<i>b</i>").show(&mut reg, resp);
    HtmlFrame::new("frame").content("<i>c</i>").show(&mut reg, resp);
    assert_eq!(reg.areas.len(), 3);
    assert_eq!(reg.areas[0].area.html.as_ref().unwrap().id, "some-widget");
    assert!(reg.areas[0].area.id.widget_id.is_some());
    // not the host's top layer, so the bare widget is not interactive
    assert!(!reg.areas[0].area.html.as_ref().unwrap().status.interactive);
    // overlays and frames stay interactive
    assert!(reg.areas[1].area.html.as_ref().unwrap().status.interactive);
    assert!(reg.areas[2].area.html.as_ref().unwrap().status.interactive);
    assert_eq!(reg.areas[2].area.html.as_ref().unwrap().id, "frame");
}

#[test]
fn aware_trait_registers_canvas_areas() {
    let mut reg = Registry::new(CHROME_UA);
    let report = Some(AreaReport { layer_id: 2, rect: rect(0, 0, 10, 10) });
    let back = report.aware(&mut reg);
    assert_eq!(back.unwrap().layer_id, 2);
    assert_eq!(reg.areas.len(), 1);
    assert!(reg.areas[0].area.html.is_none());
    let nothing: Option<AreaReport> = None;
    assert!(nothing.aware(&mut reg).is_none());
    assert_eq!(reg.areas.len(), 1);
}

#[test]
fn aware_trait_ignores_out_of_range_rects() {
    // a rectangle beyond the coordinate range cannot be tracked: the
    // report is handed back but the registry is left untouched
    let mut reg = Registry::new(CHROME_UA);
    let report = Some(AreaReport {
        layer_id: 2,
        rect: Rect { min_x: 10, min_y: 0, max_x: 0, max_y: 10 },
    });
    let back = report.aware(&mut reg);
    assert_eq!(back.unwrap().layer_id, 2);
    assert_eq!(reg.areas.len(), 0);
    assert_eq!(reg.touched.len(), 0);
}

#[test]
fn window_states_start_fresh() {
    let s = WindowState::new("id", "Title", "<p>x</p>");
    assert_eq!(s.id, "id");
    assert_eq!(s.title, "Title");
    assert_eq!(s.content, "<p>x</p>");
    assert_eq!(s.rect, rect(0, 0, 0, 0));
    assert!(s.interactable);
    assert!(s.visible);
    assert!(s.mask.is_none());
    assert!(!s.content_changed);
    let h = HtmlWindowState::new("id", "Title", "<p>x</p>");
    assert_eq!(h.z_index, 0);
    assert!(!h.content_changed);
}
