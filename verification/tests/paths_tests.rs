use webp_cache::paths::generate_webp_paths;
use webp_cache::paths::join_path;
use webp_cache::text::u64_to_dec_string;

#[test]
fn test_generate_webp_paths() {
    let (img, dir, src_dir) = generate_webp_paths(
        "./images/webp-server.jpg",
        "/webp-server.jpg",
        "./cache",
        1582735380,
    );
    assert_eq!(img, "./cache/webp-server.jpg.1582735380.webp");
    assert_eq!(dir, "./cache");
    assert_eq!(src_dir, "./images");
}

#[test]
fn test_scenario_new_mtime_new_path() {
    let (img1, dir1, src_dir1) =
        generate_webp_paths("/images/a.jpg", "/images/a.jpg", "/cache", 1700000000);
    assert_eq!(img1, "/cache/images/a.jpg.1700000000.webp");
    assert_eq!(dir1, "/cache/images");
    assert_eq!(src_dir1, "/images");

    let (img2, _, _) = generate_webp_paths("/images/a.jpg", "/images/a.jpg", "/cache", 1700000500);
    assert_eq!(img2, "/cache/images/a.jpg.1700000500.webp");
    assert_ne!(img1, img2);
}

#[test]
fn test_resolve_is_deterministic() {
    let a = generate_webp_paths("/img/deep/tree/x.png", "/deep/tree/x.png", "/var/cache", 42);
    let b = generate_webp_paths("/img/deep/tree/x.png", "/deep/tree/x.png", "/var/cache", 42);
    assert_eq!(a.0, b.0);
    assert_eq!(a.1, b.1);
    assert_eq!(a.2, b.2);
    assert_eq!(a.0, "/var/cache/deep/tree/x.png.42.webp");
    assert_eq!(a.1, "/var/cache/deep/tree");
    assert_eq!(a.2, "/img/deep/tree");
}

#[test]
fn test_mtime_zero_still_resolves() {
    // An unreadable mtime is treated as zero by the caller; the path is
    // still deterministic.
    let (img, _, _) = generate_webp_paths("/images/a.jpg", "/images/a.jpg", "/cache", 0);
    assert_eq!(img, "/cache/images/a.jpg.0.webp");
}

#[test]
fn test_join_path_edges() {
    assert_eq!(join_path("/cache", "images"), "/cache/images");
    assert_eq!(join_path("/cache/", "images"), "/cache/images");
    assert_eq!(join_path("/cache", ""), "/cache");
    assert_eq!(join_path("", "images"), "images");
}

#[test]
fn test_u64_to_dec_string() {
    assert_eq!(u64_to_dec_string(0), "0");
    assert_eq!(u64_to_dec_string(7), "7");
    assert_eq!(u64_to_dec_string(1700000000), "1700000000");
    assert_eq!(u64_to_dec_string(u64::MAX), "18446744073709551615");
}
