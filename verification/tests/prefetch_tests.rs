use webp_cache::prefetch::clamp_jobs;
use webp_cache::prefetch::prefetch_jobs;
use webp_cache::prefetch::PrefetchMonitor;
use webp_cache::prefetch::PrefetchPoll;

#[test]
fn test_clamp_jobs() {
    assert_eq!(clamp_jobs(0, 8), 1);
    assert_eq!(clamp_jobs(1, 8), 1);
    assert_eq!(clamp_jobs(4, 8), 4);
    assert_eq!(clamp_jobs(8, 8), 8);
    assert_eq!(clamp_jobs(99, 8), 8);
    assert_eq!(clamp_jobs(99, 1), 1);
}

#[test]
fn test_prefetch_jobs_at_least_one() {
    assert!(prefetch_jobs(Some(0)) >= 1);
    assert!(prefetch_jobs(Some(1)) == 1);
    assert!(prefetch_jobs(None) >= 1);
}

#[test]
fn test_prefetch_completion_fires_exactly_once() {
    let mut m = PrefetchMonitor::new(4);

    let (p, fire) = m.poll(2, 2);
    assert_eq!(p, PrefetchPoll::InProgress(0));
    assert!(!fire);

    let (p, fire) = m.poll(1, 2);
    assert_eq!(p, PrefetchPoll::InProgress(1));
    assert!(!fire);

    let (p, fire) = m.poll(0, 1);
    assert_eq!(p, PrefetchPoll::InProgress(3));
    assert!(!fire);

    // The pool drains: the callback fires now, and never again.
    let (p, fire) = m.poll(0, 0);
    assert_eq!(p, PrefetchPoll::Done);
    assert!(fire);

    let (p, fire) = m.poll(0, 0);
    assert_eq!(p, PrefetchPoll::Done);
    assert!(!fire);
}

#[test]
fn test_prefetch_empty_walk_completes() {
    let mut m = PrefetchMonitor::new(0);
    let (p, fire) = m.poll(0, 0);
    assert_eq!(p, PrefetchPoll::Done);
    assert!(fire);
}
