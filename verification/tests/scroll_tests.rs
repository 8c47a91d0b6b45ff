use logview::scroll::ScrollState;

#[test]
fn follow_tail_recomputes_offset_every_tick() {
    let mut scroll = ScrollState::new();
    assert!(scroll.follow_tail);
    // After any append, a tick puts the offset at max(0, total - height).
    scroll.tick(100, 30);
    assert_eq!(scroll.offset, 70);
    scroll.tick(101, 30);
    assert_eq!(scroll.offset, 71);
    // Fewer lines than the viewport: the offset floors at zero.
    scroll.tick(10, 30);
    assert_eq!(scroll.offset, 0);
}

#[test]
fn manual_scroll_steps_by_exactly_one_and_clamps() {
    let mut scroll = ScrollState::new();
    scroll.tick(100, 30);
    assert_eq!(scroll.offset, 70);
    scroll.scroll_up();
    assert!(!scroll.follow_tail);
    assert_eq!(scroll.offset, 69);
    scroll.scroll_down(100, 30);
    assert_eq!(scroll.offset, 70);
    // Already at the bottom: clamped at maxScroll.
    scroll.scroll_down(100, 30);
    assert_eq!(scroll.offset, 70);
    // Horizontal inputs step the same offset.
    scroll.scroll_left();
    assert_eq!(scroll.offset, 69);
    scroll.scroll_right(100, 30);
    assert_eq!(scroll.offset, 70);
}

#[test]
fn manual_scroll_clamps_at_zero() {
    let mut scroll = ScrollState::new();
    scroll.tick(5, 30);
    assert_eq!(scroll.offset, 0);
    scroll.scroll_up();
    assert!(!scroll.follow_tail);
    assert_eq!(scroll.offset, 0);
}

#[test]
fn manual_offset_is_clamped_when_content_shrinks() {
    let mut scroll = ScrollState::new();
    scroll.tick(100, 10);
    scroll.scroll_up();
    assert_eq!(scroll.offset, 89);
    // The viewport grew: the offset is pulled back into range.
    scroll.tick(100, 95);
    assert_eq!(scroll.offset, 5);
    assert!(!scroll.follow_tail);
}

#[test]
fn visible_window_ends_at_total_while_following() {
    let mut scroll = ScrollState::new();
    scroll.tick(100, 30);
    let (start, end) = scroll.visible_window(100, 30);
    assert_eq!((start, end), (70, 100));
    scroll.tick(10, 30);
    let (start, end) = scroll.visible_window(10, 30);
    assert_eq!((start, end), (0, 10));
}

#[test]
fn note_evicted_floors_at_zero() {
    let mut scroll = ScrollState::new();
    scroll.follow_tail = false;
    scroll.offset = 3;
    scroll.note_evicted(2);
    assert_eq!(scroll.offset, 1);
    scroll.note_evicted(5);
    assert_eq!(scroll.offset, 0);
    assert!(!scroll.follow_tail);
}
