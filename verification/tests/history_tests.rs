use logview::mailbox::mailbox_new;
use logview::scroll::ScrollState;
use logview::scrollback::ScrollbackBuffer;
use logview::MAX_LINES;

#[test]
fn append_keeps_length_within_capacity() {
    let mut buffer = ScrollbackBuffer::new();
    let extra = 100;
    for i in 0..MAX_LINES + extra {
        let evicted = buffer.append(format!("line{}", i));
        if i < MAX_LINES {
            assert_eq!(evicted, 0);
        } else {
            assert_eq!(evicted, 1);
        }
    }
    // Exactly the capacity remains: the most recent lines, oldest first.
    assert_eq!(buffer.len(), MAX_LINES);
    assert_eq!(buffer.line(0), &format!("line{}", extra));
    assert_eq!(buffer.line(1), &format!("line{}", extra + 1));
    assert_eq!(buffer.line(MAX_LINES - 1), &format!("line{}", MAX_LINES + extra - 1));
}

#[test]
fn eviction_pulls_scroll_offset_down() {
    let (tx, rx) = mailbox_new();
    let mut buffer = ScrollbackBuffer::new();
    let mut scroll = ScrollState::new();
    for i in 0..MAX_LINES {
        buffer.append(format!("old{}", i));
    }
    // A manual position near the top of the history.
    scroll.follow_tail = false;
    scroll.offset = 5;
    for i in 0..8 {
        tx.send(format!("new{}", i)).unwrap();
    }
    let drained = buffer.drain_all(&rx, &mut scroll);
    assert_eq!(drained, 8);
    assert_eq!(buffer.len(), MAX_LINES);
    // Eight oldest lines were evicted, so the offset moved up with them.
    assert_eq!(scroll.offset, 0);
    assert_eq!(buffer.line(0), "old8");
    assert_eq!(buffer.line(MAX_LINES - 1), "new7");
}

#[test]
fn drain_all_takes_queued_lines_in_arrival_order() {
    let (tx, rx) = mailbox_new();
    let mut buffer = ScrollbackBuffer::new();
    let mut scroll = ScrollState::new();
    tx.send("first".to_string()).unwrap();
    tx.send("second".to_string()).unwrap();
    tx.send("third".to_string()).unwrap();
    let drained = buffer.drain_all(&rx, &mut scroll);
    assert_eq!(drained, 3);
    assert_eq!(buffer.len(), 3);
    assert_eq!(buffer.line(0), "first");
    assert_eq!(buffer.line(1), "second");
    assert_eq!(buffer.line(2), "third");
}

#[test]
fn drain_all_on_empty_mailbox_returns_immediately() {
    let (tx, rx) = mailbox_new();
    let mut buffer = ScrollbackBuffer::new();
    let mut scroll = ScrollState::new();
    assert_eq!(buffer.drain_all(&rx, &mut scroll), 0);
    assert_eq!(buffer.len(), 0);
    drop(tx);
    assert_eq!(buffer.drain_all(&rx, &mut scroll), 0);
}

#[test]
fn drain_all_after_producer_dropped_takes_remaining_lines() {
    let (tx, rx) = mailbox_new();
    let mut buffer = ScrollbackBuffer::new();
    let mut scroll = ScrollState::new();
    tx.send("last words".to_string()).unwrap();
    drop(tx);
    assert_eq!(buffer.drain_all(&rx, &mut scroll), 1);
    assert_eq!(buffer.line(0), "last words");
}
