//! UI-side application state: the scrollback history, the scroll policy,
//! the tab strip and the quit flag, with the input handling that mutates
//! them.

use vstd::prelude::*;

use crate::events::{KeyCode, TermEvent};
use crate::scroll::{spec_max_scroll, ScrollState};
use crate::scrollback::{appended, ScrollbackBuffer};

verus! {

/// The tab strip: a non-empty list of titles and the selected index.
pub struct TabsState {
    pub titles: Vec<String>,
    pub index: usize,
}

impl TabsState {
    /// There is at least one tab and the selection points at one.
    pub open spec fn wf(self) -> bool {
        0 < self.titles@.len() && self.index < self.titles@.len()
    }

    /// A fresh strip selecting the first tab.
    pub fn new(titles: Vec<String>) -> (r: TabsState)
        requires
            titles@.len() > 0,
        ensures
            r.wf(),
            r.titles == titles,
            r.index == 0,
    {
        TabsState { titles, index: 0 }
    }

    /// Select the next tab, wrapping around.
    pub fn next(&mut self)
        requires
            old(self).wf(),
        ensures
            final(self).wf(),
            final(self).titles == old(self).titles,
            final(self).index as int == (old(self).index + 1) % (old(self).titles@.len() as int),
    {
        let n: usize = self.titles.len();
        self.index = (self.index + 1) % n;
    }
}

/// The offset after one manual scroll step toward older lines.
pub open spec fn spec_offset_up(o: int) -> int {
    if o > 0 {
        o - 1
    } else {
        0
    }
}

/// The offset after one manual scroll step toward newer lines.
pub open spec fn spec_offset_down(o: int, total: int, height: int) -> int {
    if o < spec_max_scroll(total, height) {
        o + 1
    } else {
        o
    }
}

/// Application state owned by the UI context.
pub struct App {
    pub should_quit: bool,
    pub tabs: TabsState,
    pub scroll: ScrollState,
    pub buffer: ScrollbackBuffer,
    /// Rows of log lines the viewport showed at the last draw.
    pub viewport_height: usize,
}

impl App {
    /// The history is within capacity, the tab strip is consistent, and
    /// the scroll offset is within its range.
    pub open spec fn wf(self) -> bool {
        &&& self.buffer.wf()
        &&& self.tabs.wf()
        &&& self.scroll.in_range(self.buffer@.len() as int, self.viewport_height as int)
    }

    /// A fresh application: empty history, tail followed, first tab.
    pub fn new(titles: Vec<String>) -> (r: App)
        requires
            titles@.len() > 0,
        ensures
            r.wf(),
            !r.should_quit,
            r.buffer@ == Seq::<Seq<char>>::empty(),
            r.scroll.follow_tail,
            r.scroll.offset == 0,
            r.tabs.index == 0,
            r.tabs.titles == titles,
    {
        App {
            should_quit: false,
            tabs: TabsState::new(titles),
            scroll: ScrollState::new(),
            buffer: ScrollbackBuffer::new(),
            viewport_height: 0,
        }
    }

    /// A plain key: `q` asks the application to quit.
    pub fn on_key(&mut self, c: char)
        ensures
            final(self).should_quit == (old(self).should_quit || c == 'q'),
            final(self).tabs == old(self).tabs,
            final(self).scroll == old(self).scroll,
            final(self).buffer == old(self).buffer,
            final(self).viewport_height == old(self).viewport_height,
    {
        if c == 'q' {
            self.should_quit = true;
        }
    }

    /// The view-switch key: select the next tab.
    pub fn on_right(&mut self)
        requires
            old(self).wf(),
        ensures
            final(self).wf(),
            final(self).tabs.index as int == (old(self).tabs.index + 1) % (
            old(self).tabs.titles@.len() as int),
            final(self).tabs.titles == old(self).tabs.titles,
            final(self).should_quit == old(self).should_quit,
            final(self).scroll == old(self).scroll,
            final(self).buffer == old(self).buffer,
            final(self).viewport_height == old(self).viewport_height,
    {
        self.tabs.next();
    }

    /// Manual scroll toward older lines.
    pub fn scroll_up(&mut self)
        requires
            old(self).wf(),
        ensures
            final(self).wf(),
            !final(self).scroll.follow_tail,
            final(self).scroll.offset as int == spec_offset_up(old(self).scroll.offset as int),
            final(self).buffer == old(self).buffer,
            final(self).tabs == old(self).tabs,
            final(self).should_quit == old(self).should_quit,
            final(self).viewport_height == old(self).viewport_height,
    {
        self.scroll.scroll_up();
    }

    /// Manual scroll toward newer lines, clamped at the bottom.
    pub fn scroll_down(&mut self)
        requires
            old(self).wf(),
        ensures
            final(self).wf(),
            !final(self).scroll.follow_tail,
            final(self).scroll.offset as int == spec_offset_down(
                old(self).scroll.offset as int,
                old(self).buffer@.len() as int,
                old(self).viewport_height as int,
            ),
            final(self).buffer == old(self).buffer,
            final(self).tabs == old(self).tabs,
            final(self).should_quit == old(self).should_quit,
            final(self).viewport_height == old(self).viewport_height,
    {
        let total: usize = self.buffer.len();
        self.scroll.scroll_down(total, self.viewport_height);
    }

    /// Horizontal scroll input toward the left; the single offset steps
    /// as for `scroll_up`.
    pub fn scroll_left(&mut self)
        requires
            old(self).wf(),
        ensures
            final(self).wf(),
            !final(self).scroll.follow_tail,
            final(self).scroll.offset as int == spec_offset_up(old(self).scroll.offset as int),
            final(self).buffer == old(self).buffer,
            final(self).tabs == old(self).tabs,
            final(self).should_quit == old(self).should_quit,
            final(self).viewport_height == old(self).viewport_height,
    {
        self.scroll.scroll_left();
    }

    /// Horizontal scroll input toward the right; the single offset steps
    /// as for `scroll_down`.
    pub fn scroll_right(&mut self)
        requires
            old(self).wf(),
        ensures
            final(self).wf(),
            !final(self).scroll.follow_tail,
            final(self).scroll.offset as int == spec_offset_down(
                old(self).scroll.offset as int,
                old(self).buffer@.len() as int,
                old(self).viewport_height as int,
            ),
            final(self).buffer == old(self).buffer,
            final(self).tabs == old(self).tabs,
            final(self).should_quit == old(self).should_quit,
            final(self).viewport_height == old(self).viewport_height,
    {
        let total: usize = self.buffer.len();
        self.scroll.scroll_right(total, self.viewport_height);
    }

    /// The viewport was measured at a draw: record its height and realign
    /// the scroll offset to it (tail kept at the bottom, manual offsets
    /// clamped).
    pub fn set_viewport_height(&mut self, height: usize)
        requires
            old(self).wf(),
        ensures
            final(self).wf(),
            final(self).viewport_height == height,
            final(self).scroll.follow_tail == old(self).scroll.follow_tail,
            old(self).scroll.follow_tail ==> final(self).scroll.offset as int == spec_max_scroll(
                old(self).buffer@.len() as int,
                height as int,
            ),
            !old(self).scroll.follow_tail ==> final(self).scroll.offset as int == ({
                let limit = spec_max_scroll(old(self).buffer@.len() as int, height as int);
                if old(self).scroll.offset as int <= limit {
                    old(self).scroll.offset as int
                } else {
                    limit
                }
            }),
            final(self).buffer == old(self).buffer,
            final(self).tabs == old(self).tabs,
            final(self).should_quit == old(self).should_quit,
    {
        self.viewport_height = height;
        let total: usize = self.buffer.len();
        self.scroll.tick(total, height);
    }

    /// One UI tick: drain every line currently queued in the mailbox into
    /// the history (evicting the oldest past capacity and realigning the
    /// offset), then recompute the offset — while the tail is followed it
    /// lands exactly on `max(0, total - height)`, so the newest content
    /// stays visible after any append.
    pub fn on_tick(&mut self, rx: &std::sync::mpsc::Receiver<String>) -> (drained: usize)
        requires
            old(self).wf(),
        ensures
            final(self).wf(),
            exists|rcv: Seq<Seq<char>>|
                rcv.len() == drained && final(self)@ == appended(old(self)@, rcv),
            final(self).scroll.follow_tail == old(self).scroll.follow_tail,
            final(self).scroll.follow_tail ==> final(self).scroll.offset as int == spec_max_scroll(
                final(self).buffer@.len() as int,
                final(self).viewport_height as int,
            ),
            !old(self).scroll.follow_tail ==> final(self).scroll.offset as int == ({
                let evicted = old(self).buffer@.len() + drained as int
                    - final(self).buffer@.len();
                let realigned = if old(self).scroll.offset as int >= evicted {
                    old(self).scroll.offset as int - evicted
                } else {
                    0int
                };
                let limit = spec_max_scroll(
                    final(self).buffer@.len() as int,
                    final(self).viewport_height as int,
                );
                if realigned <= limit {
                    realigned
                } else {
                    limit
                }
            }),
            final(self).tabs == old(self).tabs,
            final(self).should_quit == old(self).should_quit,
            final(self).viewport_height == old(self).viewport_height,
    {
        let drained: usize = self.buffer.drain_all(rx, &mut self.scroll);
        let total: usize = self.buffer.len();
        self.scroll.tick(total, self.viewport_height);
        drained
    }
}

impl View for App {
    type V = Seq<Seq<char>>;

    /// An application is viewed as its buffered history.
    open spec fn view(&self) -> Seq<Seq<char>> {
        self.buffer@
    }
}

/// Route one terminal event into the application state: `j`/Down and the
/// wheel scroll down, `k`/Up and the wheel scroll up, `h`/Left and
/// `l`/Right step the same offset, Tab switches the view, any other
/// character goes to `on_key` (`q` quits), and everything else is
/// ignored.
pub fn handle_ui_event(app: &mut App, event: &TermEvent)
    requires
        old(app).wf(),
    ensures
        final(app).wf(),
        final(app).buffer == old(app).buffer,
        final(app).viewport_height == old(app).viewport_height,
        match *event {
            TermEvent::Key(k) => match k.code {
                KeyCode::Char(c) => {
                    if c == 'j' {
                        spec_scrolled_down(*old(app), *final(app))
                    } else if c == 'k' {
                        spec_scrolled_up(*old(app), *final(app))
                    } else if c == 'h' {
                        spec_scrolled_up(*old(app), *final(app))
                    } else if c == 'l' {
                        spec_scrolled_down(*old(app), *final(app))
                    } else {
                        spec_keyed(*old(app), *final(app), c)
                    }
                },
                KeyCode::Down => spec_scrolled_down(*old(app), *final(app)),
                KeyCode::Up => spec_scrolled_up(*old(app), *final(app)),
                KeyCode::Left => spec_scrolled_up(*old(app), *final(app)),
                KeyCode::Right => spec_scrolled_down(*old(app), *final(app)),
                KeyCode::Tab => spec_tab_switched(*old(app), *final(app)),
                _ => *final(app) == *old(app),
            },
            TermEvent::MouseScrollUp => spec_scrolled_up(*old(app), *final(app)),
            TermEvent::MouseScrollDown => spec_scrolled_down(*old(app), *final(app)),
            _ => *final(app) == *old(app),
        },
{
    match event {
        TermEvent::Key(k) => {
            match k.code {
                KeyCode::Char(c) => {
                    if c == 'j' {
                        app.scroll_down();
                    } else if c == 'k' {
                        app.scroll_up();
                    } else if c == 'h' {
                        app.scroll_left();
                    } else if c == 'l' {
                        app.scroll_right();
                    } else {
                        app.on_key(c);
                    }
                },
                KeyCode::Down => app.scroll_down(),
                KeyCode::Up => app.scroll_up(),
                KeyCode::Left => app.scroll_left(),
                KeyCode::Right => app.scroll_right(),
                KeyCode::Tab => app.on_right(),
                _ => {},
            }
        },
        TermEvent::MouseScrollUp => app.scroll_up(),
        TermEvent::MouseScrollDown => app.scroll_down(),
        _ => {},
    }
}

/// One manual scroll step toward older lines happened; nothing else
/// changed.
pub open spec fn spec_scrolled_up(pre: App, post: App) -> bool {
    &&& !post.scroll.follow_tail
    &&& post.scroll.offset as int == spec_offset_up(pre.scroll.offset as int)
    &&& post.tabs == pre.tabs
    &&& post.should_quit == pre.should_quit
}

/// One manual scroll step toward newer lines happened; nothing else
/// changed.
pub open spec fn spec_scrolled_down(pre: App, post: App) -> bool {
    &&& !post.scroll.follow_tail
    &&& post.scroll.offset as int == spec_offset_down(
        pre.scroll.offset as int,
        pre.buffer@.len() as int,
        pre.viewport_height as int,
    )
    &&& post.tabs == pre.tabs
    &&& post.should_quit == pre.should_quit
}

/// The view-switch key was handled; nothing else changed.
pub open spec fn spec_tab_switched(pre: App, post: App) -> bool {
    &&& post.tabs.index as int == (pre.tabs.index + 1) % (pre.tabs.titles@.len() as int)
    &&& post.tabs.titles == pre.tabs.titles
    &&& post.scroll == pre.scroll
    &&& post.should_quit == pre.should_quit
}

/// A plain character was handled: `q` quits; nothing else changed.
pub open spec fn spec_keyed(pre: App, post: App, c: char) -> bool {
    &&& post.should_quit == (pre.should_quit || c == 'q')
    &&& post.tabs == pre.tabs
    &&& post.scroll == pre.scroll
}

} // verus!
