use hframe::area::{ComposedHtml, ComposedHtmlStatus};
use hframe::geometry::Rect;
use hframe::mask_strategies::auto::AutoDelegate;
use hframe::mask_strategies::{Auto, DataMask, DocumentMask, Hide, Nop};
use hframe::mask_strategy::MaskStrategy;

const FIREFOX_UA: &str =
    "mozilla/5.0 (macintosh; intel mac os x 10.15; rv:123.0) gecko/20100101 firefox/123.0";
const CHROME_UA: &str = "mozilla/5.0 (macintosh; intel mac os x 10_15_7) applewebkit/537.36 (khtml, like gecko) chrome/122.0.0.0 safari/537.36";

fn content_at(id: &str, rect: Rect) -> ComposedHtml {
    ComposedHtml {
        id: id.to_string(),
        content: "<div>hello</div>".to_string(),
        rect,
        status: ComposedHtmlStatus { visible: true, interactive: true },
    }
}

fn rect(x: i64, y: i64, w: i64, h: i64) -> Rect {
    Rect { min_x: x, min_y: y, max_x: x + w, max_y: y + h }
}

fn no_hole_svg(w: i64, h: i64) -> String {
    format!(
        "<svg xmlns=\"http://www.w3.org/2000/svg\" viewBox=\"0 0 {w} {h}\"><defs><mask id=\"mask\" x=\"0\" y=\"0\" width=\"{w}\" height=\"{h}\"><rect x=\"0\" y=\"0\" width=\"{w}\" height=\"{h}\" fill=\"white\" /></mask></defs><rect x=\"0\" y=\"0\" width=\"{w}\" height=\"{h}\" fill=\"blue\" mask=\"url(#mask)\" /></svg>"
    )
}

fn one_hole_svg(w: i64, h: i64, hx: i64, hy: i64, hw: i64, hh: i64) -> String {
    format!(
        "<svg xmlns=\"http://www.w3.org/2000/svg\" viewBox=\"0 0 {w} {h}\"><defs><mask id=\"mask\" x=\"0\" y=\"0\" width=\"{w}\" height=\"{h}\"><rect x=\"0\" y=\"0\" width=\"{w}\" height=\"{h}\" fill=\"white\" /><rect x=\"{hx}\" y=\"{hy}\" width=\"{hw}\" height=\"{hh}\" rx=\"5\" fill=\"black\" /></mask></defs><rect x=\"0\" y=\"0\" width=\"{w}\" height=\"{h}\" fill=\"blue\" mask=\"url(#mask)\" /></svg>"
    )
}

#[test]
fn data_mask_no_occluders_is_no_holes() {
    // scenario: a 100 by 100 content area with no occluders reported
    let html = content_at("w", rect(0, 0, 100, 100));
    let artifact = DataMask::new().compute_mask(&html, &vec![]);
    let enc = urlencoding::encode(&no_hole_svg(100, 100)).into_owned();
    let expected = format!(
        "top: 0px; left: 0px; width: 100px; height: 100px; mask: url(data:image/svg+xml,{enc}); -webkit-mask: url(data:image/svg+xml,{enc});"
    );
    assert_eq!(artifact.style, expected);
    assert!(artifact.mask_def.is_none());
}

#[test]
fn data_mask_occluder_becomes_relative_hole() {
    // scenario: the occluder (50,50)-(100,100) over a 100 by 100 area cuts
    // the relative hole at (50,50) sized 50 by 50
    let html = content_at("w", rect(0, 0, 100, 100));
    let occluder = Rect { min_x: 50, min_y: 50, max_x: 100, max_y: 100 };
    let artifact = DataMask::new().compute_mask(&html, &vec![occluder]);
    let enc = urlencoding::encode(&one_hole_svg(100, 100, 50, 50, 50, 50)).into_owned();
    let expected = format!(
        "top: 0px; left: 0px; width: 100px; height: 100px; mask: url(data:image/svg+xml,{enc}); -webkit-mask: url(data:image/svg+xml,{enc});"
    );
    assert_eq!(artifact.style, expected);
}

#[test]
fn data_mask_identical_occluder_fully_hides() {
    // an occluder identical to the area is a full-size hole: zero visible
    // area is a valid outcome, not an error
    let html = content_at("w", rect(10, 10, 80, 40));
    let occluder = rect(10, 10, 80, 40);
    let artifact = DataMask::new().compute_mask(&html, &vec![occluder]);
    let enc = urlencoding::encode(&one_hole_svg(80, 40, 0, 0, 80, 40)).into_owned();
    let expected = format!(
        "top: 10px; left: 10px; width: 80px; height: 40px; mask: url(data:image/svg+xml,{enc}); -webkit-mask: url(data:image/svg+xml,{enc});"
    );
    assert_eq!(artifact.style, expected);
}

#[test]
fn compute_mask_is_deterministic() {
    // identical inputs give bit-identical artifacts
    let html = content_at("w", rect(0, 0, 100, 100));
    let holes = vec![rect(25, 25, 10, 10)];
    let a = DataMask::new().compute_mask(&html, &holes);
    let b = DataMask::new().compute_mask(&html, &holes);
    assert_eq!(a, b);
    let c = DocumentMask::new().compute_mask(&html, &holes);
    let d = DocumentMask::new().compute_mask(&html, &holes);
    assert_eq!(c, d);
}

#[test]
fn document_mask_references_definition_by_id() {
    let html = content_at("w", rect(0, 0, 100, 100));
    let occluder = Rect { min_x: 50, min_y: 50, max_x: 100, max_y: 100 };
    let artifact = DocumentMask::new().compute_mask(&html, &vec![occluder]);
    assert_eq!(
        artifact.style,
        "top: 0px; left: 0px; width: 100px; height: 100px; mask: url(#w-mask);"
    );
    let svg = artifact.mask_def.expect("the document strategy keeps a mask node");
    let expected_svg = "<svg id=\"w-svg\" class=\"hframe-mask-svg\" xmlns=\"http://www.w3.org/2000/svg\" viewBox=\"0 0 100 100\"><defs><mask id=\"w-mask\" x=\"0\" y=\"0\" width=\"100\" height=\"100\"><rect x=\"0\" y=\"0\" width=\"100\" height=\"100\" fill=\"white\" /><rect x=\"50\" y=\"50\" width=\"50\" height=\"50\" rx=\"5\" fill=\"black\" /></mask></defs></svg>";
    assert_eq!(svg, expected_svg);
}

#[test]
fn hide_hides_on_any_occluder() {
    let html = content_at("w", rect(0, 0, 100, 100));
    let clear = Hide::new().compute_mask(&html, &vec![]);
    assert_eq!(clear.style, "top: 0px; left: 0px; width: 100px; height: 100px;");
    let hidden = Hide::new().compute_mask(&html, &vec![rect(0, 0, 1, 1)]);
    assert_eq!(
        hidden.style,
        "top: 0px; left: 0px; width: 100px; height: 100px; pointer-events: none; visibility: hidden;"
    );
}

#[test]
fn nop_only_positions() {
    let mut html = content_at("w", rect(5, -7, 10, 10));
    html.status.interactive = false;
    let artifact = Nop::new().compute_mask(&html, &vec![rect(0, 0, 100, 100)]);
    assert_eq!(
        artifact.style,
        "top: -7px; left: 5px; width: 10px; height: 10px; pointer-events: none;"
    );
    assert!(artifact.mask_def.is_none());
}

#[test]
fn auto_picks_by_engine() {
    let on_gecko = Auto::new(FIREFOX_UA);
    assert!(matches!(on_gecko.delegate, AutoDelegate::Document(_)));
    assert_eq!(on_gecko.meta().name, "document_mask (auto)");
    let elsewhere = Auto::new(CHROME_UA);
    assert!(matches!(elsewhere.delegate, AutoDelegate::Data(_)));
    assert_eq!(elsewhere.meta().name, "data_mask (auto)");
}

#[test]
fn strategy_meta_names() {
    assert_eq!(DataMask::new().meta().name, "data_mask");
    assert_eq!(DocumentMask::new().meta().name, "document_mask");
    assert_eq!(Hide::new().meta().name, "hide");
    assert_eq!(Nop::new().meta().name, "nop");
}
