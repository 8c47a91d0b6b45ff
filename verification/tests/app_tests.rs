use logview::app::{handle_ui_event, App};
use logview::events::{
    classify_event, KeyCode, KeyEvent, KeyKind, StreamStep, TermEvent, TuiEvent,
};
use logview::mailbox::mailbox_new;

fn titles() -> Vec<String> {
    vec!["TRAINING".to_string(), "LOGS".to_string()]
}

fn key(code: KeyCode) -> TermEvent {
    TermEvent::Key(KeyEvent { code, ctrl: false, kind: KeyKind::Press })
}

#[test]
fn tick_keeps_tail_visible_after_appends() {
    let (tx, rx) = mailbox_new();
    let mut app = App::new(titles());
    app.set_viewport_height(10);
    for i in 0..25 {
        tx.send(format!("line{}", i)).unwrap();
    }
    assert_eq!(app.on_tick(&rx), 25);
    // followTail holds, so the offset is max(0, total - height).
    assert!(app.scroll.follow_tail);
    assert_eq!(app.scroll.offset, 15);
    tx.send("one more".to_string()).unwrap();
    app.on_tick(&rx);
    assert_eq!(app.scroll.offset, 16);
}

#[test]
fn scroll_keys_leave_tail_follow_and_step_once() {
    let (tx, rx) = mailbox_new();
    let mut app = App::new(titles());
    app.set_viewport_height(10);
    for i in 0..20 {
        tx.send(format!("line{}", i)).unwrap();
    }
    app.on_tick(&rx);
    assert_eq!(app.scroll.offset, 10);
    handle_ui_event(&mut app, &key(KeyCode::Char('k')));
    assert!(!app.scroll.follow_tail);
    assert_eq!(app.scroll.offset, 9);
    handle_ui_event(&mut app, &key(KeyCode::Up));
    assert_eq!(app.scroll.offset, 8);
    handle_ui_event(&mut app, &key(KeyCode::Char('j')));
    assert_eq!(app.scroll.offset, 9);
    handle_ui_event(&mut app, &key(KeyCode::Down));
    assert_eq!(app.scroll.offset, 10);
    // Clamped at maxScroll.
    handle_ui_event(&mut app, &key(KeyCode::Char('j')));
    assert_eq!(app.scroll.offset, 10);
    // Horizontal keys step the same offset.
    handle_ui_event(&mut app, &key(KeyCode::Char('h')));
    assert_eq!(app.scroll.offset, 9);
    handle_ui_event(&mut app, &key(KeyCode::Char('l')));
    assert_eq!(app.scroll.offset, 10);
    // The wheel scrolls too.
    handle_ui_event(&mut app, &TermEvent::MouseScrollUp);
    assert_eq!(app.scroll.offset, 9);
    handle_ui_event(&mut app, &TermEvent::MouseScrollDown);
    assert_eq!(app.scroll.offset, 10);
}

#[test]
fn q_quits_and_tab_switches_view() {
    let mut app = App::new(titles());
    assert!(!app.should_quit);
    handle_ui_event(&mut app, &key(KeyCode::Tab));
    assert_eq!(app.tabs.index, 1);
    handle_ui_event(&mut app, &key(KeyCode::Tab));
    assert_eq!(app.tabs.index, 0);
    handle_ui_event(&mut app, &key(KeyCode::Char('x')));
    assert!(!app.should_quit);
    handle_ui_event(&mut app, &key(KeyCode::Char('q')));
    assert!(app.should_quit);
}

#[test]
fn ctrl_z_press_suspends_and_resize_redraws() {
    let ctrl_z = TermEvent::Key(KeyEvent {
        code: KeyCode::Char('z'),
        ctrl: true,
        kind: KeyKind::Press,
    });
    assert!(matches!(classify_event(ctrl_z), StreamStep::Suspend));
    // A Ctrl-Z release does not suspend; it is forwarded like any key.
    let ctrl_z_release = TermEvent::Key(KeyEvent {
        code: KeyCode::Char('z'),
        ctrl: true,
        kind: KeyKind::Release,
    });
    assert!(matches!(classify_event(ctrl_z_release), StreamStep::Emit(TuiEvent::Key(_))));
    assert!(matches!(classify_event(TermEvent::Resize(80, 24)), StreamStep::Emit(TuiEvent::Draw)));
    match classify_event(TermEvent::Paste("pasted".to_string())) {
        StreamStep::Emit(TuiEvent::Paste(p)) => assert_eq!(p, "pasted"),
        _ => panic!("paste must be forwarded"),
    }
    // Ctrl-V is reserved for image attachment and currently ignored.
    let ctrl_v = TermEvent::Key(KeyEvent {
        code: KeyCode::Char('v'),
        ctrl: true,
        kind: KeyKind::Press,
    });
    assert!(matches!(classify_event(ctrl_v), StreamStep::Ignore));
    assert!(matches!(classify_event(TermEvent::Other), StreamStep::Ignore));
}

#[test]
fn shrinking_viewport_clamps_manual_offset() {
    let (tx, rx) = mailbox_new();
    let mut app = App::new(titles());
    app.set_viewport_height(5);
    for i in 0..30 {
        tx.send(format!("line{}", i)).unwrap();
    }
    app.on_tick(&rx);
    handle_ui_event(&mut app, &key(KeyCode::Char('k')));
    assert_eq!(app.scroll.offset, 24);
    // The viewport grows: maxScroll shrinks and the offset is clamped.
    app.set_viewport_height(28);
    assert_eq!(app.scroll.offset, 2);
    assert!(!app.scroll.follow_tail);
}
