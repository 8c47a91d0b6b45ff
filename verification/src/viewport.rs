//! Terminal viewport state machine: inline viewport vs. alternate
//! screen, resize realignment, and suspend/resume intents.
//!
//! The controller never touches the terminal itself. Every transition
//! returns the list of terminal operations to perform, in order, and the
//! caller carries them out; queries (current size, cursor position) are
//! handed in as plain values.

use vstd::prelude::*;

verus! {

/// Terminal dimensions in character cells.
#[derive(Clone, Copy, Debug, PartialEq, Eq, Structural)]
pub struct Size {
    pub width: u16,
    pub height: u16,
}

/// A rectangle of character cells; `x`, `y` is its top-left corner.
#[derive(Clone, Copy, Debug, PartialEq, Eq, Structural)]
pub struct Rect {
    pub x: u16,
    pub y: u16,
    pub width: u16,
    pub height: u16,
}

/// The rectangle covering the whole terminal.
pub open spec fn spec_full_rect(size: Size) -> Rect {
    Rect { x: 0u16, y: 0u16, width: size.width, height: size.height }
}

/// Which drawing surface is active.
#[derive(Clone, Copy, Debug, PartialEq, Eq, Structural)]
pub enum Mode {
    Inline,
    Alternate,
}

/// What a resume after a process suspension must do. Encoded as `0`
/// (nothing), `1` (realign the inline viewport) or `2` (restore the
/// alternate screen) in the controller's pending-intent cell.
#[derive(Clone, Copy, Debug, PartialEq, Eq, Structural)]
pub enum ResumeAction {
    Nothing,
    RealignInline,
    RestoreAlt,
}

/// A resume decision with its cursor query already taken.
#[derive(Clone, Copy, Debug, PartialEq, Eq, Structural)]
pub enum PreparedResumeAction {
    RestoreAltScreen,
    RealignViewport(Rect),
}

/// One terminal operation the controller asks its caller to perform.
#[derive(Clone, Copy, Debug, PartialEq, Eq, Structural)]
pub enum TermAction {
    EnterAltScreen,
    LeaveAltScreen,
    EnableAltScroll,
    DisableAltScroll,
    ClearViewport,
    MoveCursorTo(u16, u16),
    ShowCursor,
    ScrollRegionUp { top: u16, lines: u16 },
}

/// The resume intent encoded by a pending-intent cell.
pub open spec fn spec_resume_action(v: u8) -> ResumeAction {
    if v == 1 {
        ResumeAction::RealignInline
    } else if v == 2 {
        ResumeAction::RestoreAlt
    } else {
        ResumeAction::Nothing
    }
}

/// Takes the pending resume intent and leaves the cell empty, so the
/// intent is applied at most once; a later take finds nothing to do.
pub fn take_resume_action(pending: &mut u8) -> (r: ResumeAction)
    ensures
        *final(pending) == 0u8,
        r == spec_resume_action(*old(pending)),
{
    let v: u8 = *pending;
    *pending = 0;
    match v {
        1u8 => ResumeAction::RealignInline,
        2u8 => ResumeAction::RestoreAlt,
        _ => ResumeAction::Nothing,
    }
}

/// A second resume with nothing pending is a no-op: the empty cell
/// encodes no action.
pub proof fn lemma_second_resume_is_noop()
    ensures
        spec_resume_action(0) == ResumeAction::Nothing,
{
}

/// The last row of a rectangle, `y + height - 1`, floored at zero and
/// capped at the largest terminal row.
pub open spec fn spec_last_row(r: Rect) -> u16 {
    if r.y + r.height == 0 {
        0u16
    } else if r.y + r.height - 1 > u16::MAX {
        u16::MAX
    } else {
        (r.y + r.height - 1) as u16
    }
}

/// The viewport row `y` shifted by the cursor-row delta `last -> now`,
/// clamped to the valid row range.
pub open spec fn spec_shift_row(y: u16, last: u16, now: u16) -> u16 {
    if now >= last {
        if y + (now - last) > u16::MAX {
            u16::MAX
        } else {
            (y + (now - last)) as u16
        }
    } else {
        if y >= last - now {
            (y - (last - now)) as u16
        } else {
            0u16
        }
    }
}

/// The viewport rectangle refitted for a frame `desired` rows tall on a
/// `screen`-sized terminal, with the number of rows the region above must
/// scroll up when the fitted area would run past the bottom.
pub open spec fn spec_fit(vp: Rect, desired: u16, screen: Size) -> (Rect, u16) {
    let h: u16 = if desired < screen.height {
        desired
    } else {
        screen.height
    };
    if vp.y + h > screen.height {
        (
            Rect { x: vp.x, y: (screen.height - h) as u16, width: screen.width, height: h },
            (vp.y + h - screen.height) as u16,
        )
    } else {
        (Rect { x: vp.x, y: vp.y, width: screen.width, height: h }, 0u16)
    }
}

/// Terminal state machine over the inline and alternate surfaces.
pub struct ViewportController {
    /// Which surface is active.
    pub mode: Mode,
    /// The inline rectangle saved when the alternate screen was entered.
    pub saved_inline: Option<Rect>,
    /// The rectangle frames are drawn into.
    pub viewport: Rect,
    /// Terminal size at the last completed frame.
    pub last_size: Size,
    /// Cursor row at the last completed frame.
    pub last_cursor_row: u16,
    /// Encoded resume intent, set on suspend and consumed on resume.
    pub pending_resume: u8,
    /// Row the cursor is parked on while the process is suspended.
    pub suspend_cursor_row: u16,
}

/// The controller after entering the alternate screen: the inline
/// rectangle is saved and the viewport covers the whole terminal.
pub open spec fn spec_enter_alt(s: ViewportController, size: Size) -> ViewportController {
    ViewportController {
        mode: Mode::Alternate,
        saved_inline: Option::Some(s.viewport),
        viewport: spec_full_rect(size),
        ..s
    }
}

/// The controller after leaving the alternate screen: the saved inline
/// rectangle, if any, becomes the viewport again.
pub open spec fn spec_leave_alt(s: ViewportController) -> ViewportController {
    ViewportController {
        mode: Mode::Inline,
        saved_inline: Option::None,
        viewport: match s.saved_inline {
            Option::Some(saved) => saved,
            Option::None => s.viewport,
        },
        ..s
    }
}

/// Entering the alternate screen and then leaving it restores the exact
/// inline rectangle that was active immediately before entering, and
/// ends back on the inline surface.
pub proof fn lemma_alt_screen_round_trip(s: ViewportController, size: Size)
    ensures
        spec_leave_alt(spec_enter_alt(s, size)).viewport == s.viewport,
        spec_leave_alt(spec_enter_alt(s, size)).mode == Mode::Inline,
        spec_leave_alt(spec_enter_alt(s, size)).saved_inline is None,
{
}

/// The realignment a draw must apply when the terminal was resized and
/// the cursor row moved with terminal-native scrolling: the viewport
/// shifted by the same row delta.
pub open spec fn spec_plan_realign(s: ViewportController, screen: Size, cursor_row: u16) -> Option<
    Rect,
> {
    if screen != s.last_size && cursor_row != s.last_cursor_row {
        Option::Some(
            Rect {
                x: s.viewport.x,
                y: spec_shift_row(s.viewport.y, s.last_cursor_row, cursor_row),
                width: s.viewport.width,
                height: s.viewport.height,
            },
        )
    } else {
        Option::None
    }
}

/// The row the cursor is parked on during a suspension: the bottom row of
/// the inline rectangle (the saved one while the alternate screen is
/// active, when present).
pub open spec fn spec_suspend_row(s: ViewportController, area: Rect) -> u16 {
    if s.mode == Mode::Alternate {
        match s.saved_inline {
            Option::Some(saved) => spec_last_row(saved),
            Option::None => spec_last_row(area),
        }
    } else {
        spec_last_row(area)
    }
}

/// The controller after the resize-realignment check: the viewport
/// shifted with the cursor row when the terminal was resized.
pub open spec fn spec_realigned(s: ViewportController, screen: Size, cursor_row: u16) -> ViewportController {
    match spec_plan_realign(s, screen, cursor_row) {
        Option::Some(area) => ViewportController { viewport: area, ..s },
        Option::None => s,
    }
}

/// One whole frame's plan: the controller after realignment, refit,
/// suspend-row bookkeeping and frame recording, with the terminal
/// operations to perform before drawing — clear after a realignment,
/// scroll the region above the old top row when the fitted viewport ran
/// past the bottom, and clear again when the viewport moved.
pub open spec fn spec_frame_plan(
    s: ViewportController,
    screen: Size,
    cursor_row: u16,
    desired: u16,
) -> (ViewportController, Seq<TermAction>) {
    let realigned = spec_realigned(s, screen, cursor_row);
    let fit = spec_fit(realigned.viewport, desired, screen);
    let refitted = ViewportController { viewport: fit.0, ..realigned };
    let parked = ViewportController {
        suspend_cursor_row: spec_suspend_row(refitted, fit.0),
        ..refitted
    };
    let done = ViewportController { last_size: screen, last_cursor_row: cursor_row, ..parked };
    let acts = (if spec_plan_realign(s, screen, cursor_row) is Some {
        seq![TermAction::ClearViewport]
    } else {
        Seq::<TermAction>::empty()
    }) + (if fit.1 > 0 {
        seq![TermAction::ScrollRegionUp { top: realigned.viewport.y, lines: fit.1 }]
    } else {
        Seq::<TermAction>::empty()
    }) + (if fit.0 != realigned.viewport {
        seq![TermAction::ClearViewport]
    } else {
        Seq::<TermAction>::empty()
    });
    (done, acts)
}

impl ViewportController {
    /// The saved inline rectangle exists only while the alternate screen
    /// is active, and the pending intent is a valid encoding.
    pub open spec fn wf(self) -> bool {
        &&& (self.saved_inline is Some ==> self.mode == Mode::Alternate)
        &&& self.pending_resume <= 2
    }

    /// A fresh controller on the inline surface, drawing into `viewport`.
    pub fn new(viewport: Rect, size: Size, cursor_row: u16) -> (r: ViewportController)
        ensures
            r.wf(),
            r.mode == Mode::Inline,
            r.saved_inline is None,
            r.viewport == viewport,
            r.last_size == size,
            r.last_cursor_row == cursor_row,
            r.pending_resume == 0,
    {
        ViewportController {
            mode: Mode::Inline,
            saved_inline: None,
            viewport,
            last_size: size,
            last_cursor_row: cursor_row,
            pending_resume: 0,
            suspend_cursor_row: 0,
        }
    }

    /// Enter the alternate screen: save the inline rectangle, expand the
    /// viewport to the full terminal, and ask the caller to switch
    /// surfaces, enable wheel-to-arrow translation and clear.
    pub fn enter_alt_screen(&mut self, size: Size) -> (acts: Vec<TermAction>)
        requires
            old(self).wf(),
            old(self).mode == Mode::Inline,
        ensures
            final(self).wf(),
            *final(self) == spec_enter_alt(*old(self), size),
            acts@ == seq![
                TermAction::EnterAltScreen,
                TermAction::EnableAltScroll,
                TermAction::ClearViewport,
            ],
    {
        self.saved_inline = Some(self.viewport);
        self.viewport = Rect { x: 0, y: 0, width: size.width, height: size.height };
        self.mode = Mode::Alternate;
        let mut acts: Vec<TermAction> = Vec::new();
        acts.push(TermAction::EnterAltScreen);
        acts.push(TermAction::EnableAltScroll);
        acts.push(TermAction::ClearViewport);
        proof {
            assert(acts@ =~= seq![
                TermAction::EnterAltScreen,
                TermAction::EnableAltScroll,
                TermAction::ClearViewport,
            ]);
        }
        acts
    }

    /// Leave the alternate screen: restore the saved inline rectangle if
    /// present, and ask the caller to disable wheel translation and
    /// switch back to the primary surface.
    pub fn leave_alt_screen(&mut self) -> (acts: Vec<TermAction>)
        requires
            old(self).wf(),
            old(self).mode == Mode::Alternate,
        ensures
            final(self).wf(),
            *final(self) == spec_leave_alt(*old(self)),
            acts@ == seq![TermAction::DisableAltScroll, TermAction::LeaveAltScreen],
    {
        match self.saved_inline {
            Some(saved) => {
                self.viewport = saved;
            },
            None => {},
        }
        self.saved_inline = None;
        self.mode = Mode::Inline;
        let mut acts: Vec<TermAction> = Vec::new();
        acts.push(TermAction::DisableAltScroll);
        acts.push(TermAction::LeaveAltScreen);
        proof {
            assert(acts@ =~= seq![TermAction::DisableAltScroll, TermAction::LeaveAltScreen]);
        }
        acts
    }

    /// Decide whether the viewport must shift before this frame: only
    /// when the terminal size changed since the last frame and the cursor
    /// row moved with it.
    pub fn plan_realign(&self, screen: Size, cursor_row: u16) -> (r: Option<Rect>)
        ensures
            r == spec_plan_realign(*self, screen, cursor_row),
    {
        let size_changed: bool = screen.width != self.last_size.width || screen.height
            != self.last_size.height;
        if size_changed && cursor_row != self.last_cursor_row {
            let y: u16 = if cursor_row >= self.last_cursor_row {
                let d: u16 = cursor_row - self.last_cursor_row;
                if self.viewport.y <= u16::MAX - d {
                    self.viewport.y + d
                } else {
                    u16::MAX
                }
            } else {
                let d: u16 = self.last_cursor_row - cursor_row;
                if self.viewport.y >= d {
                    self.viewport.y - d
                } else {
                    0
                }
            };
            Some(
                Rect {
                    x: self.viewport.x,
                    y,
                    width: self.viewport.width,
                    height: self.viewport.height,
                },
            )
        } else {
            None
        }
    }

    /// Point frames at a new rectangle.
    pub fn set_viewport_area(&mut self, area: Rect)
        ensures
            *final(self) == (ViewportController { viewport: area, ..*old(self) }),
    {
        self.viewport = area;
    }

    /// Refit the viewport for a frame `desired` rows tall: full terminal
    /// width, height capped by the terminal, and pushed up (scrolling the
    /// region above) when it would run past the bottom. Returns the rows
    /// to scroll and whether the viewport changed (the caller must clear
    /// it then).
    pub fn fit_viewport(&mut self, desired: u16, screen: Size) -> (r: (u16, bool))
        ensures
            *final(self) == (ViewportController {
                viewport: spec_fit(old(self).viewport, desired, screen).0,
                ..*old(self)
            }),
            r.0 == spec_fit(old(self).viewport, desired, screen).1,
            r.1 == (final(self).viewport != old(self).viewport),
            final(self).viewport.y + final(self).viewport.height <= screen.height,
    {
        let h: u16 = if desired < screen.height {
            desired
        } else {
            screen.height
        };
        let bottom: u32 = self.viewport.y as u32 + h as u32;
        let fitted: Rect = if bottom > screen.height as u32 {
            Rect { x: self.viewport.x, y: screen.height - h, width: screen.width, height: h }
        } else {
            Rect { x: self.viewport.x, y: self.viewport.y, width: screen.width, height: h }
        };
        let scroll: u16 = if bottom > screen.height as u32 {
            (bottom - screen.height as u32) as u16
        } else {
            0
        };
        let changed: bool = fitted.x != self.viewport.x || fitted.y != self.viewport.y
            || fitted.width != self.viewport.width || fitted.height != self.viewport.height;
        self.viewport = fitted;
        (scroll, changed)
    }

    /// Record the terminal size and cursor row this frame was drawn at,
    /// for the next frame's realignment check.
    pub fn note_frame(&mut self, screen: Size, cursor_row: u16)
        ensures
            *final(self) == (ViewportController {
                last_size: screen,
                last_cursor_row: cursor_row,
                ..*old(self)
            }),
    {
        self.last_size = screen;
        self.last_cursor_row = cursor_row;
    }

    /// Record where the cursor must be parked if the process is suspended
    /// after this frame: the bottom row of the inline rectangle.
    pub fn record_suspend_row(&mut self, area: Rect)
        ensures
            *final(self) == (ViewportController {
                suspend_cursor_row: spec_suspend_row(*old(self), area),
                ..*old(self)
            }),
    {
        let base: Rect = if matches!(self.mode, Mode::Alternate) {
            match self.saved_inline {
                Some(saved) => saved,
                None => area,
            }
        } else {
            area
        };
        let sum: u32 = base.y as u32 + base.height as u32;
        let row: u32 = if sum == 0 {
            0
        } else {
            sum - 1
        };
        self.suspend_cursor_row = if row > u16::MAX as u32 {
            u16::MAX
        } else {
            row as u16
        };
    }

    /// Plan one whole frame: realign after a resize when the cursor row
    /// moved, refit the viewport to the desired height, remember where
    /// the cursor parks on a suspension, and record this frame's size and
    /// cursor row. Returns the terminal operations to perform, in order,
    /// before drawing.
    pub fn plan_frame(&mut self, screen: Size, cursor_row: u16, desired: u16) -> (acts: Vec<
        TermAction,
    >)
        requires
            old(self).wf(),
        ensures
            final(self).wf(),
            *final(self) == spec_frame_plan(*old(self), screen, cursor_row, desired).0,
            acts@ == spec_frame_plan(*old(self), screen, cursor_row, desired).1,
            final(self).viewport.y + final(self).viewport.height <= screen.height,
    {
        let mut acts: Vec<TermAction> = Vec::new();
        match self.plan_realign(screen, cursor_row) {
            Some(area) => {
                self.set_viewport_area(area);
                acts.push(TermAction::ClearViewport);
            },
            None => {},
        }
        let top: u16 = self.viewport.y;
        let (scrolled, changed) = self.fit_viewport(desired, screen);
        if scrolled > 0 {
            acts.push(TermAction::ScrollRegionUp { top, lines: scrolled });
        }
        if changed {
            acts.push(TermAction::ClearViewport);
        }
        let area: Rect = self.viewport;
        self.record_suspend_row(area);
        self.note_frame(screen, cursor_row);
        proof {
            assert(acts@ =~= spec_frame_plan(*old(self), screen, cursor_row, desired).1);
        }
        acts
    }

    /// Prepare a process suspension: record the resume intent (restore
    /// the alternate screen, or realign the inline viewport), and ask the
    /// caller to leave the alternate surface when it is active, park the
    /// cursor and show it. The intent is set exactly once per suspend.
    pub fn prepare_suspend(&mut self) -> (acts: Vec<TermAction>)
        requires
            old(self).wf(),
        ensures
            final(self).wf(),
            *final(self) == (ViewportController {
                pending_resume: if old(self).mode == Mode::Alternate {
                    2u8
                } else {
                    1u8
                },
                ..*old(self)
            }),
            acts@ == if old(self).mode == Mode::Alternate {
                seq![
                    TermAction::DisableAltScroll,
                    TermAction::LeaveAltScreen,
                    TermAction::MoveCursorTo(0u16, old(self).suspend_cursor_row),
                    TermAction::ShowCursor,
                ]
            } else {
                seq![
                    TermAction::MoveCursorTo(0u16, old(self).suspend_cursor_row),
                    TermAction::ShowCursor,
                ]
            },
    {
        let mut acts: Vec<TermAction> = Vec::new();
        if matches!(self.mode, Mode::Alternate) {
            acts.push(TermAction::DisableAltScroll);
            acts.push(TermAction::LeaveAltScreen);
            self.pending_resume = 2;
        } else {
            self.pending_resume = 1;
        }
        acts.push(TermAction::MoveCursorTo(0, self.suspend_cursor_row));
        acts.push(TermAction::ShowCursor);
        proof {
            if old(self).mode == Mode::Alternate {
                assert(acts@ =~= seq![
                    TermAction::DisableAltScroll,
                    TermAction::LeaveAltScreen,
                    TermAction::MoveCursorTo(0u16, old(self).suspend_cursor_row),
                    TermAction::ShowCursor,
                ]);
            } else {
                assert(acts@ =~= seq![
                    TermAction::MoveCursorTo(0u16, old(self).suspend_cursor_row),
                    TermAction::ShowCursor,
                ]);
            }
        }
        acts
    }

    /// Turn a taken resume intent into a prepared action, querying
    /// nothing: the current cursor row is handed in. Realigning yields
    /// the rectangle anchored at that row; restoring the alternate
    /// screen first re-anchors the saved inline rectangle to it.
    pub fn prepare_resume(&mut self, action: ResumeAction, cursor_row: u16) -> (r: Option<
        PreparedResumeAction,
    >)
        requires
            old(self).wf(),
        ensures
            final(self).wf(),
            match action {
                ResumeAction::Nothing => r is None && *final(self) == *old(self),
                ResumeAction::RealignInline => {
                    &&& r == Option::Some(
                        PreparedResumeAction::RealignViewport(
                            Rect { x: 0u16, y: cursor_row, width: 0u16, height: 0u16 },
                        ),
                    )
                    &&& *final(self) == *old(self)
                },
                ResumeAction::RestoreAlt => {
                    &&& r == Option::Some(PreparedResumeAction::RestoreAltScreen)
                    &&& *final(self) == (ViewportController {
                        saved_inline: match old(self).saved_inline {
                            Option::Some(saved) => Option::Some(
                                Rect { y: cursor_row, ..saved },
                            ),
                            Option::None => Option::None,
                        },
                        ..*old(self)
                    })
                },
            },
    {
        match action {
            ResumeAction::Nothing => None,
            ResumeAction::RealignInline => Some(
                PreparedResumeAction::RealignViewport(
                    Rect { x: 0, y: cursor_row, width: 0, height: 0 },
                ),
            ),
            ResumeAction::RestoreAlt => {
                match self.saved_inline {
                    Some(saved) => {
                        self.saved_inline = Some(
                            Rect { x: saved.x, y: cursor_row, width: saved.width, height: saved.height },
                        );
                    },
                    None => {},
                }
                Some(PreparedResumeAction::RestoreAltScreen)
            },
        }
    }

    /// Apply a prepared resume action exactly once: realign the inline
    /// viewport, or restore the alternate surface at the current size and
    /// clear it.
    pub fn apply_resume(&mut self, prepared: PreparedResumeAction, size: Size) -> (acts: Vec<
        TermAction,
    >)
        requires
            old(self).wf(),
        ensures
            final(self).wf(),
            match prepared {
                PreparedResumeAction::RealignViewport(area) => {
                    &&& *final(self) == (ViewportController { viewport: area, ..*old(self) })
                    &&& acts@ == Seq::<TermAction>::empty()
                },
                PreparedResumeAction::RestoreAltScreen => {
                    &&& *final(self) == (ViewportController {
                        viewport: spec_full_rect(size),
                        ..*old(self)
                    })
                    &&& acts@ == seq![
                        TermAction::EnterAltScreen,
                        TermAction::EnableAltScroll,
                        TermAction::ClearViewport,
                    ]
                },
            },
    {
        let mut acts: Vec<TermAction> = Vec::new();
        match prepared {
            PreparedResumeAction::RealignViewport(area) => {
                self.viewport = area;
                proof {
                    assert(acts@ =~= Seq::<TermAction>::empty());
                }
            },
            PreparedResumeAction::RestoreAltScreen => {
                acts.push(TermAction::EnterAltScreen);
                acts.push(TermAction::EnableAltScroll);
                self.viewport = Rect { x: 0, y: 0, width: size.width, height: size.height };
                acts.push(TermAction::ClearViewport);
                proof {
                    assert(acts@ =~= seq![
                        TermAction::EnterAltScreen,
                        TermAction::EnableAltScroll,
                        TermAction::ClearViewport,
                    ]);
                }
            },
        }
        acts
    }
}

} // verus!
