use webp_cache::policy::image_hint_code;
use webp_cache::policy::preset_code;
use webp_cache::policy::DirectoryLevelConfig;

fn sample_global() -> DirectoryLevelConfig {
    let mut g = DirectoryLevelConfig::new();
    g.lossless = Some(1);
    g.near_lossless = Some(100);
    g.quality = Some(50);
    g.preset = Some(String::from("photo"));
    g.thread_level = Some(2);
    g
}

#[test]
fn test_detect_absent_sidecar_is_global() {
    let g = sample_global();
    let r = DirectoryLevelConfig::detect(None, &g);
    assert_eq!(r, g);
}

#[test]
fn test_detect_malformed_sidecar_is_global() {
    let g = sample_global();
    let r = DirectoryLevelConfig::detect(Some("this is not json {"), &g);
    assert_eq!(r, g);
}

#[test]
fn test_detect_type_error_is_global() {
    let g = sample_global();
    // A string where an integer belongs rejects the whole file.
    let r = DirectoryLevelConfig::detect(Some("{\"quality\": \"high\"}"), &g);
    assert_eq!(r, g);
    // An integer out of the field's range as well.
    let r = DirectoryLevelConfig::detect(Some("{\"method\": 5000000000}"), &g);
    assert_eq!(r, g);
    // A fractional number is not an integer tunable.
    let r = DirectoryLevelConfig::detect(Some("{\"quality\": 40.5}"), &g);
    assert_eq!(r, g);
    // A sidecar that is not an object sets nothing.
    let r = DirectoryLevelConfig::detect(Some("[1, 2]"), &g);
    assert_eq!(r, g);
}

#[test]
fn test_detect_partial_override_single_field() {
    let g = sample_global();
    let r = DirectoryLevelConfig::detect(Some("{\"quality\": 40}"), &g);
    let mut expected = sample_global();
    expected.quality = Some(40);
    assert_eq!(r, expected);
}

#[test]
fn test_detect_merges_field_by_field() {
    let g = sample_global();
    let r = DirectoryLevelConfig::detect(
        Some("{\"lossless\": 0, \"preset\": \"icon\", \"segments\": 4, \"unknown_key\": true}"),
        &g,
    );
    assert_eq!(r.lossless, Some(0));
    assert_eq!(r.preset, Some(String::from("icon")));
    assert_eq!(r.segments, Some(4));
    // Everything the sidecar does not set falls through.
    assert_eq!(r.quality, Some(50));
    assert_eq!(r.near_lossless, Some(100));
    assert_eq!(r.thread_level, Some(2));
    assert_eq!(r.method, None);
}

#[test]
fn test_detect_null_field_is_unset() {
    let g = sample_global();
    let r = DirectoryLevelConfig::detect(Some("{\"quality\": null, \"lossless\": 0}"), &g);
    assert_eq!(r.lossless, Some(0));
    assert_eq!(r.quality, Some(50));
}

#[test]
fn test_new_sets_nothing() {
    let p = DirectoryLevelConfig::new();
    assert_eq!(p.lossless, None);
    assert_eq!(p.quality, None);
    assert_eq!(p.preset, None);
    assert_eq!(p.use_sharp_yuv, None);
}

#[test]
fn test_duplicate_equals_original() {
    let g = sample_global();
    let d = g.duplicate();
    assert_eq!(d, g);
}

#[test]
fn test_preset_codes() {
    assert_eq!(preset_code(&Some(String::from("picture"))), 2);
    assert_eq!(preset_code(&Some(String::from("photo"))), 3);
    assert_eq!(preset_code(&Some(String::from("drawing"))), 4);
    assert_eq!(preset_code(&Some(String::from("icon"))), 5);
    assert_eq!(preset_code(&Some(String::from("text"))), 6);
    assert_eq!(preset_code(&Some(String::from("anything else"))), 1);
    assert_eq!(preset_code(&None), 1);
}

#[test]
fn test_image_hint_codes() {
    assert_eq!(image_hint_code(&Some(String::from("picture"))), 2);
    assert_eq!(image_hint_code(&Some(String::from("photo"))), 3);
    assert_eq!(image_hint_code(&Some(String::from("graph"))), 4);
    assert_eq!(image_hint_code(&Some(String::from("mystery"))), 1);
    assert_eq!(image_hint_code(&None), 1);
}

#[test]
fn test_effective_quality_default() {
    let mut p = DirectoryLevelConfig::new();
    assert_eq!(p.effective_quality(), 75);
    p.quality = Some(30);
    assert_eq!(p.effective_quality(), 30);
}
