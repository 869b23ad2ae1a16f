use hframe::browser_detection::{is_blink, is_gecko};
use hframe::encode::encode_data_uri;
use hframe::hashing::{hash_into_rgb, hash_into_rgba, str_hash};
use hframe::text::{dec_i64, slug, str_contains};

const FIREFOX_UA: &str =
    "mozilla/5.0 (macintosh; intel mac os x 10.15; rv:123.0) gecko/20100101 firefox/123.0";
const CHROME_UA: &str = "mozilla/5.0 (macintosh; intel mac os x 10_15_7) applewebkit/537.36 (khtml, like gecko) chrome/122.0.0.0 safari/537.36";
const SAFARI_UA: &str = "mozilla/5.0 (macintosh; intel mac os x 10_15_7) applewebkit/605.1.15 (khtml, like gecko) version/17.1.2 safari/605.1.15";

#[test]
fn decimal_rendering() {
    assert_eq!(dec_i64(0), "0");
    assert_eq!(dec_i64(7), "7");
    assert_eq!(dec_i64(100), "100");
    assert_eq!(dec_i64(-25), "-25");
    assert_eq!(dec_i64(1073741824), "1073741824");
}

#[test]
fn slug_normalises_titles() {
    assert_eq!(slug("My Window"), "my-window");
    assert_eq!(slug("already-slugged"), "already-slugged");
    assert_eq!(slug(""), "");
    assert_eq!(slug("A B C"), "a-b-c");
}

#[test]
fn substring_search() {
    assert!(str_contains("hello world", "world"));
    assert!(str_contains("hello", ""));
    assert!(str_contains("aaa", "aaa"));
    assert!(!str_contains("hello", "worlds"));
    assert!(!str_contains("ab", "abc"));
}

#[test]
fn engine_detection() {
    assert!(is_gecko(FIREFOX_UA));
    assert!(!is_gecko(CHROME_UA));
    assert!(!is_gecko(SAFARI_UA));
    assert!(is_blink(CHROME_UA));
    assert!(!is_blink(FIREFOX_UA));
    assert!(!is_blink(SAFARI_UA));
}

#[test]
fn hash_is_fnv1a() {
    // FNV-1a 64-bit reference values
    assert_eq!(str_hash(""), 0xcbf2_9ce4_8422_2325);
    assert_eq!(str_hash("a"), 0xaf63_dc4c_8601_ec8c);
    assert_eq!(str_hash("hello"), str_hash("hello"));
    assert_ne!(str_hash("hello"), str_hash("world"));
}

#[test]
fn hash_colors() {
    let h = str_hash("a");
    let (r, g, b) = hash_into_rgb("a");
    assert_eq!(r, (h & 0xFF) as u8);
    assert_eq!(g, ((h >> 8) & 0xFF) as u8);
    assert_eq!(b, ((h >> 16) & 0xFF) as u8);
    assert_eq!(hash_into_rgba(""), (0, 0, 0, 0));
    assert_eq!(hash_into_rgba("a"), (r, g, b, 255));
}

#[test]
fn data_uri_percent_encodes() {
    let svg = "<svg a=\"1\"/>";
    let expected = format!("data:image/svg+xml,{}", urlencoding::encode(svg));
    let uri = encode_data_uri(svg);
    assert_eq!(uri, expected);
    // safe characters stay, everything else is escaped with upper-case hex
    assert_eq!(encode_data_uri("abc-._~09"), "data:image/svg+xml,abc-._~09");
    assert_eq!(encode_data_uri("<>"), "data:image/svg+xml,%3C%3E");
}
