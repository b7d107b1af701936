use kaleidux::config::SortingStrategy;
use kaleidux::content::ContentType;
use kaleidux::queue::{candidates, is_video_cycle, SmartQueue, HISTORY_LIMIT};

fn pool(n: usize) -> Vec<String> {
    (0..n).map(|i| format!("/w/{:03}.png", i)).collect()
}

#[test]
fn cursor_starts_at_the_right_end() {
    assert_eq!(SmartQueue::new(pool(3), 50, SortingStrategy::Ascending).current_index, 0);
    assert_eq!(SmartQueue::new(pool(3), 50, SortingStrategy::Descending).current_index, 2);
    assert_eq!(SmartQueue::new(pool(3), 50, SortingStrategy::Random).current_index, 0);
    assert_eq!(SmartQueue::new(pool(3), 50, SortingStrategy::Loveit).current_index, 0);
    assert_eq!(SmartQueue::new(pool(0), 50, SortingStrategy::Descending).current_index, 0);
}

#[test]
fn ascending_walk_wraps_around() {
    let mut q = SmartQueue::new(pool(3), 0, SortingStrategy::Ascending);
    let picks: Vec<String> = (0..7).map(|_| q.pick_sequential(false).unwrap()).collect();
    assert_eq!(
        picks,
        vec!["/w/000.png", "/w/001.png", "/w/002.png", "/w/000.png", "/w/001.png", "/w/002.png", "/w/000.png"]
    );
    assert_eq!(q.current_index, 1);
}

#[test]
fn descending_walk_wraps_around() {
    let mut q = SmartQueue::new(pool(3), 0, SortingStrategy::Descending);
    let picks: Vec<String> = (0..4).map(|_| q.pick_sequential(true).unwrap()).collect();
    assert_eq!(picks, vec!["/w/002.png", "/w/001.png", "/w/000.png", "/w/002.png"]);
}

#[test]
fn empty_pool_gives_nothing() {
    let mut q = SmartQueue::new(pool(0), 0, SortingStrategy::Ascending);
    assert_eq!(q.pick_sequential(false), None);
    assert_eq!(q.pick_sequential(true), None);
    assert_eq!(q.pick_prev(), None);
    assert_eq!(q.current_index, 0);
}

#[test]
fn previous_in_a_sequential_order_walks_the_other_way() {
    let mut q = SmartQueue::new(pool(3), 0, SortingStrategy::Ascending);
    q.pick_sequential(false);
    q.pick_sequential(false);
    assert_eq!(q.current_index, 2);
    assert_eq!(q.pick_prev().as_deref(), Some("/w/002.png"));
    assert_eq!(q.current_index, 1);
    let mut d = SmartQueue::new(pool(3), 0, SortingStrategy::Descending);
    assert_eq!(d.pick_prev().as_deref(), Some("/w/002.png"));
    assert_eq!(d.current_index, 0);
}

#[test]
fn history_leads_back_for_the_other_orders() {
    let mut q = SmartQueue::new(pool(5), 0, SortingStrategy::Random);
    assert_eq!(q.pick_prev(), None);
    q.remember("/w/003.png");
    assert_eq!(q.pick_prev(), None);
    q.remember("/w/001.png");
    q.remember("/w/004.png");
    assert_eq!(q.pick_prev().as_deref(), Some("/w/001.png"));
    assert_eq!(q.history, vec!["/w/003.png", "/w/001.png"]);
    assert_eq!(q.step_back().as_deref(), Some("/w/003.png"));
    assert_eq!(q.step_back(), None);
    assert_eq!(q.history, vec!["/w/003.png"]);
    assert_eq!(q.current_index, 0);
}

#[test]
fn history_remembers_fifty_and_no_repeats() {
    let mut q = SmartQueue::new(pool(1), 0, SortingStrategy::Loveit);
    q.remember("a");
    q.remember("a");
    q.remember("b");
    q.remember("a");
    assert_eq!(q.history, vec!["a", "b", "a"]);
    for i in 0..60 {
        q.remember(&format!("f{}", i));
    }
    assert_eq!(HISTORY_LIMIT, 50);
    assert_eq!(q.history.len(), 50);
    assert_eq!(q.history[0], "f10");
    assert_eq!(q.history[49], "f59");
}

#[test]
fn share_of_video() {
    assert!(!is_video_cycle(0, 0));
    assert!(is_video_cycle(0, 1));
    assert!(is_video_cycle(49, 50));
    assert!(!is_video_cycle(50, 50));
    assert!(is_video_cycle(99, 100));
}

#[test]
fn candidates_are_the_files_of_the_kind_asked_for() {
    let (i, v) = (ContentType::Image, ContentType::Video);
    assert_eq!(candidates(&vec![i, v, v, i, v], true), vec![1, 2, 4]);
    assert_eq!(candidates(&vec![i, v, v, i, v], false), vec![0, 3]);
    // Where there is none of the kind, every file is a candidate.
    assert_eq!(candidates(&vec![i, i, i], true), vec![0, 1, 2]);
    assert_eq!(candidates(&vec![v], false), vec![0]);
    assert_eq!(candidates(&vec![], true), Vec::<usize>::new());
}
