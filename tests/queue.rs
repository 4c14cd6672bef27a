use walrus::queue::decrement_index;
use walrus::queue::increment_index;
use walrus::queue::Queue;
use walrus::queue::WalkEntry;

fn paths(names: &[&str]) -> Vec<String> {
    names.iter().map(|s| s.to_string()).collect()
}

fn current(q: &Queue) -> Option<String> {
    q.get_current().cloned()
}

#[test]
fn next_wraps_around() {
    let mut q = Queue::from_paths(paths(&["A", "B", "C"]));
    let alive = vec![true; 3];
    assert_eq!(q.index(), 0);
    assert!(q.advance(true, &alive));
    assert_eq!((q.index(), current(&q)), (1, Some("B".to_string())));
    assert!(q.advance(true, &alive));
    assert_eq!((q.index(), current(&q)), (2, Some("C".to_string())));
    assert!(q.advance(true, &alive));
    assert_eq!((q.index(), current(&q)), (0, Some("A".to_string())));
}

#[test]
fn forward_then_backward_returns() {
    for start in 0..4 {
        let mut q = Queue::from_paths(paths(&["a", "b", "c", "d"]));
        for _ in 0..start {
            q.next();
        }
        let alive = vec![true; 4];
        assert!(q.advance(true, &alive));
        assert!(q.advance(false, &alive));
        assert_eq!(q.index(), start);
        assert_eq!(q.paths(), &paths(&["a", "b", "c", "d"]));
    }
}

#[test]
fn previous_wraps_to_the_end() {
    let mut q = Queue::from_paths(paths(&["A", "B", "C"]));
    q.previous();
    assert_eq!(q.index(), 2);
    q.next();
    assert_eq!(q.index(), 0);
}

#[test]
fn advance_drops_dead_entries_passed_over() {
    let mut q = Queue::from_paths(paths(&["a", "b", "c", "d", "e"]));
    // From a: b and c are gone, d is next.
    assert!(q.advance(true, &vec![true, false, false, true, true]));
    assert_eq!(q.paths(), &paths(&["a", "d", "e"]));
    assert_eq!(current(&q), Some("d".to_string()));
}

#[test]
fn advance_wraps_past_dead_entries() {
    let mut q = Queue::from_paths(paths(&["a", "b", "c", "d"]));
    q.next();
    q.next();
    // At c: d and a are gone, b is next.
    assert!(q.advance(true, &vec![false, true, true, false]));
    assert_eq!(q.paths(), &paths(&["b", "c"]));
    assert_eq!(current(&q), Some("b".to_string()));
}

#[test]
fn backward_skips_dead_entries() {
    let mut q = Queue::from_paths(paths(&["a", "b", "c", "d"]));
    // From a backward: d is gone, c is next.
    assert!(q.advance(false, &vec![true, true, true, false]));
    assert_eq!(q.paths(), &paths(&["a", "b", "c"]));
    assert_eq!(current(&q), Some("c".to_string()));
}

#[test]
fn advance_keeps_the_only_live_entry() {
    let mut q = Queue::from_paths(paths(&["a", "b", "c"]));
    q.next();
    assert!(q.advance(true, &vec![false, true, false]));
    assert_eq!(q.paths(), &paths(&["b"]));
    assert_eq!(q.index(), 0);
}

#[test]
fn advance_empties_a_dead_queue() {
    let mut q = Queue::from_paths(paths(&["a", "b"]));
    assert!(!q.advance(true, &vec![false, false]));
    assert!(q.is_empty());
    assert_eq!(current(&q), None);
    let mut empty = Queue::from_paths(Vec::new());
    assert!(!empty.advance(false, &Vec::new()));
}

#[test]
fn cleanup_drops_dead_and_clamps_index() {
    let mut q = Queue::from_paths(paths(&["a", "b", "c"]));
    q.next();
    q.next();
    assert!(q.cleanup_invalid_files(&vec![true, true, false]));
    assert_eq!(q.paths(), &paths(&["a", "b"]));
    assert_eq!(q.index(), 1);
    assert!(!q.cleanup_invalid_files(&vec![true, true]));
}

#[test]
fn sort_orders_by_text() {
    let mut q = Queue::from_paths(paths(&["/w/b.png", "/w/a/z.png", "/w/a.png", "/w/B.png"]));
    q.next();
    q.sort();
    assert_eq!(q.paths(), &paths(&["/w/B.png", "/w/a.png", "/w/a/z.png", "/w/b.png"]));
    assert_eq!(q.index(), 0);
}

#[test]
fn shuffle_keeps_entries() {
    let mut q = Queue::from_paths(paths(&["a", "b", "c", "d", "e"]));
    q.next();
    q.shuffle();
    assert_eq!(q.index(), 0);
    let mut got = q.paths().clone();
    got.sort();
    assert_eq!(got, paths(&["a", "b", "c", "d", "e"]));
}

#[test]
fn walk_skips_directories_and_categories() {
    let walk = vec![
        WalkEntry { path: "/w".to_string(), is_file: false },
        WalkEntry { path: "/w/a.png".to_string(), is_file: true },
        WalkEntry { path: "/w/.like".to_string(), is_file: false },
        WalkEntry { path: "/w/.like/a.png".to_string(), is_file: true },
        WalkEntry { path: "/w/sub/.b.png".to_string(), is_file: true },
        WalkEntry { path: "/w/sub".to_string(), is_file: false },
    ];
    let q = Queue::new("/w/", &walk);
    assert_eq!(q.paths(), &paths(&["/w/a.png", "/w/sub/.b.png"]));
}

#[test]
fn index_helpers() {
    assert_eq!(increment_index(0, 3), 1);
    assert_eq!(increment_index(2, 3), 0);
    assert_eq!(increment_index(usize::MAX, 1), 0);
    assert_eq!(decrement_index(0, 3), 2);
    assert_eq!(decrement_index(2, 3), 1);
    assert_eq!(decrement_index(7, 3), 0);
}

#[test]
fn listing_numbers_entries() {
    let q = Queue::from_paths(paths(&["/a.png", "/b.png"]));
    assert_eq!(q.listing(), "0 - /a.png\n1 - /b.png\n");
}
