use audio_player::queue::{shuffle_candidates, PlayQueue};

fn queue_of(n: usize) -> PlayQueue<String> {
    let mut q = PlayQueue::new();
    for i in 0..n {
        q.add(format!("track {}", i));
    }
    q
}

#[test]
fn first_track_added_starts_playing() {
    let mut q: PlayQueue<&str> = PlayQueue::new();
    assert!(q.is_empty());
    assert_eq!(q.current(), None);
    assert!(q.add("a"));
    assert_eq!(q.current(), Some(0));
    assert!(!q.add("b"));
    assert_eq!(q.current(), Some(0));
    assert_eq!(q.len(), 2);
    assert_eq!(*q.get(1), "b");
}

#[test]
fn next_wraps_to_first() {
    let mut q = queue_of(3);
    assert!(q.next_track());
    assert_eq!(q.current(), Some(1));
    assert!(q.next_track());
    assert_eq!(q.current(), Some(2));
    assert!(q.next_track());
    assert_eq!(q.current(), Some(0));
}

#[test]
fn prev_wraps_to_last() {
    let mut q = queue_of(3);
    assert!(q.prev_track());
    assert_eq!(q.current(), Some(2));
    assert!(q.prev_track());
    assert_eq!(q.current(), Some(1));
}

#[test]
fn empty_queue_does_not_move() {
    let mut q: PlayQueue<u8> = PlayQueue::new();
    assert!(!q.next_track());
    assert!(!q.prev_track());
    assert_eq!(q.current(), None);
}

#[test]
fn shuffle_moves_to_another_track() {
    let mut q = queue_of(4);
    q.set_shuffle(true);
    assert!(q.shuffle());
    for _ in 0..50 {
        let before = q.current().unwrap();
        assert!(q.next_track());
        let after = q.current().unwrap();
        assert!(after < 4);
        assert_ne!(after, before);
        assert!(q.prev_track());
        assert_ne!(q.current().unwrap(), after);
    }
}

#[test]
fn shuffle_with_one_track_stays() {
    let mut q = queue_of(1);
    q.set_shuffle(true);
    assert!(q.next_track());
    assert_eq!(q.current(), Some(0));
}

#[test]
fn shuffle_candidates_skip_current() {
    assert_eq!(shuffle_candidates(4, Some(2)), vec![0, 1, 3]);
    assert_eq!(shuffle_candidates(3, None), vec![0, 1, 2]);
    assert_eq!(shuffle_candidates(0, None), Vec::<usize>::new());
}

#[test]
fn shuffle_to_takes_the_drawn_position() {
    let mut q = queue_of(3);
    q.shuffle_to(Some(2));
    assert_eq!(q.current(), Some(2));
    q.shuffle_to(Some(9));
    assert_eq!(q.current(), Some(2));
    q.shuffle_to(None);
    assert_eq!(q.current(), Some(2));
}

#[test]
fn play_now_puts_track_in_front() {
    let mut q = queue_of(2);
    q.select(1);
    q.play_now("new".to_string());
    assert_eq!(q.current(), Some(0));
    assert_eq!(q.get(0), "new");
    assert_eq!(q.get(2), "track 1");
}
