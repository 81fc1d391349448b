use ghrs::json::{find_member, same_text, Json};
use ghrs::numfmt::{decimal_text, two_decimals_text};
use ghrs::release::{decode_asset, decode_release, decode_releases, Asset, DecodeError, Release};
use ghrs::render::{render_listing, report};
use ghrs::request::{cache_file_name, per_page, releases_url, repo_id, USER_AGENT};

fn text(s: &str) -> Json {
    Json::Str(s.to_string())
}

fn object(members: Vec<(&str, Json)>) -> Json {
    Json::Object(members.into_iter().map(|(k, v)| (k.to_string(), v)).collect())
}

fn asset_json(name: &str, size: u64, downloads: u64) -> Json {
    object(vec![
        ("name", text(name)),
        ("size", Json::UInt(size)),
        ("download_count", Json::UInt(downloads)),
    ])
}

fn release_json(name: Json, tag: Json, assets: Vec<Json>) -> Json {
    object(vec![
        ("name", name),
        ("tag_name", tag),
        ("assets", Json::Array(assets)),
    ])
}

const BOX: &str = "\u{1F4E6}";
const ARROW: &str = "\u{2198}\u{FE0F}";

fn asset_block(name: &str, mb: &str, k: &str) -> String {
    format!("{name}\n  {BOX}  {mb}MB\n  {ARROW}  {k}k\n")
}

#[test]
fn decimal_text_values() {
    assert_eq!(decimal_text(0), "0");
    assert_eq!(decimal_text(7), "7");
    assert_eq!(decimal_text(10), "10");
    assert_eq!(decimal_text(1234567890), "1234567890");
    assert_eq!(decimal_text(u64::MAX), u64::MAX.to_string());
}

#[test]
fn two_decimals_of_megabytes_and_thousands() {
    assert_eq!(two_decimals_text(1_500_000, 10_000), "1.50");
    assert_eq!(two_decimals_text(2_500, 10), "2.50");
    assert_eq!(two_decimals_text(50_000_000, 10_000), "50.00");
    assert_eq!(two_decimals_text(12_000, 10), "12.00");
    assert_eq!(two_decimals_text(0, 10_000), "0.00");
    assert_eq!(two_decimals_text(1_234, 10_000), "0.00");
}

#[test]
fn two_decimals_round_half_up() {
    assert_eq!(two_decimals_text(5_000, 10_000), "0.01");
    assert_eq!(two_decimals_text(4_999, 10_000), "0.00");
    assert_eq!(two_decimals_text(1_005, 10), "1.01");
    assert_eq!(two_decimals_text(1_004, 10), "1.00");
    assert_eq!(two_decimals_text(999_999_999, 10_000), "1000.00");
    assert_eq!(two_decimals_text(u64::MAX, 1), format!("{}.{:02}", u64::MAX / 100, u64::MAX % 100));
}

#[test]
fn asset_render_shows_metrics() {
    let a = Asset::new("tool.zip".to_string(), 1_500_000, 2_500);
    assert_eq!(a.render(), asset_block("tool.zip", "1.50", "2.50"));
}

#[test]
fn release_render_with_placeholders() {
    let r = Release::new(None, None, None, vec![]);
    assert_eq!(r.render(), "Release <unnamed>\nTag     <untagged>\n");
}

#[test]
fn release_render_with_created_and_assets() {
    let r = Release::new(
        Some("v1".to_string()),
        Some("t1".to_string()),
        Some("2023-01-02T03:04:05Z".to_string()),
        vec![Asset::new("a".to_string(), 1_000_000, 1_000), Asset::new("b".to_string(), 0, 0)],
    );
    let expected = format!(
        "Release v1\nTag     t1\nCreated 2023-01-02T03:04:05Z\nAssets\n\u{2022} {}\n\u{2022} {}\n",
        asset_block("a", "1.00", "1.00"),
        asset_block("b", "0.00", "0.00")
    );
    assert_eq!(r.render(), expected);
}

#[test]
fn release_without_assets_has_no_section() {
    let r = Release::new(Some("x".to_string()), Some("y".to_string()), None, vec![]);
    let out = r.render();
    assert_eq!(out, "Release x\nTag     y\n");
    assert!(!out.contains("Assets"));
}

#[test]
fn find_member_takes_first_match() {
    let members = vec![
        ("a".to_string(), Json::UInt(1)),
        ("b".to_string(), Json::UInt(2)),
        ("a".to_string(), Json::UInt(3)),
    ];
    assert!(matches!(find_member(&members, "a"), Some(Json::UInt(1))));
    assert!(matches!(find_member(&members, "b"), Some(Json::UInt(2))));
    assert!(find_member(&members, "c").is_none());
    assert!(same_text("\u{2198}x", "\u{2198}x"));
    assert!(!same_text("ab", "abc"));
    assert!(!same_text("abd", "abc"));
}

#[test]
fn decode_asset_shapes() {
    let a = decode_asset(&asset_json("f", 3, 4)).unwrap();
    assert_eq!(a.name, "f");
    assert_eq!(a.size, 3);
    assert_eq!(a.download_count, 4);
    let negative = object(vec![
        ("name", text("f")),
        ("size", Json::OtherNumber),
        ("download_count", Json::UInt(1)),
    ]);
    assert!(decode_asset(&negative).is_none());
    let missing = object(vec![("name", text("f")), ("size", Json::UInt(1))]);
    assert!(decode_asset(&missing).is_none());
    assert!(decode_asset(&Json::Null).is_none());
}

#[test]
fn decode_release_optional_fields() {
    let j = object(vec![
        ("name", Json::Null),
        ("id", Json::UInt(99)),
        ("assets", Json::Array(vec![])),
    ]);
    let r = decode_release(&j).unwrap();
    assert!(r.name.is_none());
    assert!(r.tag_name.is_none());
    assert!(r.created_at.is_none());
    assert!(r.assets.is_empty());
    let bad_name = release_json(Json::UInt(1), Json::Null, vec![]);
    assert!(decode_release(&bad_name).is_none());
    let no_assets = object(vec![("name", text("n"))]);
    assert!(decode_release(&no_assets).is_none());
    let bad_asset = release_json(Json::Null, Json::Null, vec![Json::Bool(true)]);
    assert!(decode_release(&bad_asset).is_none());
}

#[test]
fn decode_errors() {
    let error_object = object(vec![("message", text("Not Found"))]);
    assert_eq!(decode_releases(&error_object).err(), Some(DecodeError::NotAList));
    let doc = Json::Array(vec![
        release_json(Json::Null, Json::Null, vec![]),
        Json::Str("x".to_string()),
        Json::Null,
    ]);
    assert_eq!(decode_releases(&doc).err(), Some(DecodeError::BadRelease { index: 1 }));
    assert!(decode_releases(&Json::Array(vec![])).unwrap().is_empty());
}

#[test]
fn malformed_response_gives_no_output() {
    let error_object = object(vec![
        ("message", text("Not Found")),
        ("documentation_url", text("https://example.invalid")),
    ]);
    assert_eq!(report(&error_object, false), Err(DecodeError::NotAList));
    assert_eq!(report(&error_object, true), Err(DecodeError::NotAList));
}

fn scenario_doc() -> Json {
    Json::Array(vec![
        release_json(text("1.75.0"), text("1.75.0"), vec![]),
        release_json(
            Json::Null,
            text("1.74.0"),
            vec![asset_json("rust-1.74.0.tar.gz", 50_000_000, 12_000)],
        ),
    ])
}

#[test]
fn end_to_end_two_releases() {
    let out = report(&scenario_doc(), false).unwrap();
    let expected = format!(
        "Release 1.75.0\nTag     1.75.0\n\nRelease <unnamed>\nTag     1.74.0\nAssets\n\u{2022} {}\n\n",
        asset_block("rust-1.74.0.tar.gz", "50.00", "12.00")
    );
    assert_eq!(out, expected);
    assert_eq!(out.matches("Release ").count(), 2);
    assert!(out.contains("50.00MB"));
    assert!(out.contains("12.00k"));
    assert_eq!(releases_url("rust-lang", "rust", false), "https://api.github.com/repos/rust-lang/rust/releases?per_page=5");
}

#[test]
fn latest_shows_only_first() {
    let out = report(&scenario_doc(), true).unwrap();
    assert_eq!(out, "Release 1.75.0\nTag     1.75.0\n\n");
    let empty = report(&Json::Array(vec![]), true).unwrap();
    assert_eq!(empty, "");
}

#[test]
fn listing_keeps_order() {
    let rs = vec![
        Release::new(Some("c".to_string()), None, None, vec![]),
        Release::new(Some("a".to_string()), None, None, vec![]),
        Release::new(Some("b".to_string()), None, None, vec![]),
    ];
    let out = render_listing(&rs, false);
    let ic = out.find("Release c").unwrap();
    let ia = out.find("Release a").unwrap();
    let ib = out.find("Release b").unwrap();
    assert!(ic < ia && ia < ib);
    assert_eq!(out.matches("Release ").count(), 3);
}

#[test]
fn request_and_cache_names() {
    assert_eq!(per_page(true), 1);
    assert_eq!(per_page(false), 5);
    assert_eq!(repo_id("rust-lang", "rust"), "rust-lang/rust");
    assert_eq!(
        releases_url("rust-lang", "rust", true),
        "https://api.github.com/repos/rust-lang/rust/releases?per_page=1"
    );
    assert_eq!(cache_file_name("rust-lang", "rust"), "rust-lang.rust.cache");
    assert_eq!(cache_file_name("a/b", "c"), "a.b.c.cache");
    assert_eq!(cache_file_name("\u{e9}", ""), "\u{e9}..cache");
    assert_eq!(USER_AGENT, "ghrs");
}
