use webp_cache::cache::cache_outcome;
use webp_cache::cache::matches_derivatives_of;
use webp_cache::cache::select_stale_derivatives;
use webp_cache::cache::CacheOutcome;
use webp_cache::request::serve_derivative;

#[test]
fn test_matches_derivatives_of() {
    assert!(matches_derivatives_of("a.jpg.123.webp", "a.jpg"));
    assert!(matches_derivatives_of("a.jpg.1700000000.webp", "a.jpg"));
    // The middle part may be empty or arbitrary.
    assert!(matches_derivatives_of("a.jpg..webp", "a.jpg"));
    assert!(matches_derivatives_of("a.jpg.old.backup.webp", "a.jpg"));
    // Other sources, missing dot, or wrong suffix do not match.
    assert!(!matches_derivatives_of("b.jpg.123.webp", "a.jpg"));
    assert!(!matches_derivatives_of("a.jpg.webp", "a.jpg"));
    assert!(!matches_derivatives_of("a.jpg.123.webpx", "a.jpg"));
    assert!(!matches_derivatives_of("a.jpg", "a.jpg"));
    assert!(!matches_derivatives_of("notes.txt", "a.jpg"));
}

#[test]
fn test_select_stale_removes_only_superseded() {
    let entries = vec![
        String::from("a.jpg.100.webp"),
        String::from("a.jpg.200.webp"),
        String::from("a.jpg.300.webp"),
        String::from("b.jpg.100.webp"),
        String::from("notes.txt"),
    ];
    let stale = select_stale_derivatives(&entries, "a.jpg", "a.jpg.300.webp");
    assert_eq!(
        stale,
        vec![String::from("a.jpg.100.webp"), String::from("a.jpg.200.webp")]
    );
}

#[test]
fn test_select_stale_after_n_regenerations_one_derivative_remains() {
    // Derivatives of three earlier mtimes pile up; a regeneration at the
    // fourth collects all but the current one.
    let mut dir: Vec<String> = vec![
        String::from("a.jpg.1.webp"),
        String::from("a.jpg.2.webp"),
        String::from("a.jpg.3.webp"),
    ];
    dir.push(String::from("a.jpg.4.webp"));
    let stale = select_stale_derivatives(&dir, "a.jpg", "a.jpg.4.webp");
    for name in &stale {
        dir.retain(|e| e != name);
    }
    assert_eq!(dir, vec![String::from("a.jpg.4.webp")]);
}

#[test]
fn test_select_stale_keeps_unrelated_cache_entries() {
    let entries = vec![
        String::from("x.png.10.webp"),
        String::from("y.png.20.webp"),
    ];
    let stale = select_stale_derivatives(&entries, "a.jpg", "a.jpg.1.webp");
    assert!(stale.is_empty());
}

#[test]
fn test_cache_outcome_classification() {
    assert_eq!(cache_outcome(true, false, false), CacheOutcome::Hit);
    assert_eq!(cache_outcome(false, false, false), CacheOutcome::DirectoryError);
    assert_eq!(cache_outcome(false, true, false), CacheOutcome::EncodeError);
    assert_eq!(cache_outcome(false, true, true), CacheOutcome::Regenerated);
}

#[test]
fn test_serve_derivative_fallback() {
    assert!(serve_derivative(CacheOutcome::Hit));
    assert!(serve_derivative(CacheOutcome::Regenerated));
    assert!(!serve_derivative(CacheOutcome::DirectoryError));
    assert!(!serve_derivative(CacheOutcome::EncodeError));
}
