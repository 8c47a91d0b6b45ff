//! Bounded, ordered in-memory history of decoded log lines.
//!
//! The buffer holds at most [`crate::MAX_LINES`] lines; appending beyond
//! that evicts the oldest lines, and the externally tracked scroll offset
//! is pulled down by the eviction count so the apparent view position is
//! preserved.

use vstd::prelude::*;

use crate::MAX_LINES;
use crate::mailbox::{mailbox_poll, RecvPoll};
use crate::scroll::ScrollState;

verus! {

/// One line appended to a capacity-capped history: the oldest lines are
/// evicted until at most `MAX_LINES` remain.
pub open spec fn cap_push(s: Seq<Seq<char>>, l: Seq<char>) -> Seq<Seq<char>> {
    if s.len() + 1 > MAX_LINES as int {
        s.push(l).skip(s.len() + 1 - MAX_LINES as int)
    } else {
        s.push(l)
    }
}

/// The lines `ls` appended one by one, each with capacity eviction.
pub open spec fn appended(s: Seq<Seq<char>>, ls: Seq<Seq<char>>) -> Seq<Seq<char>>
    decreases ls.len(),
{
    if ls.len() == 0 {
        s
    } else {
        appended(cap_push(s, ls[0]), ls.skip(1))
    }
}

/// Appending any run of lines to a history within capacity leaves exactly
/// the most recent `MAX_LINES` lines of the concatenation, oldest first
/// (and everything, when it all fits).
pub proof fn lemma_appended_keeps_most_recent(s: Seq<Seq<char>>, ls: Seq<Seq<char>>)
    requires
        s.len() <= MAX_LINES as int,
    ensures
        appended(s, ls) == (s + ls).skip(
            if s.len() + ls.len() > MAX_LINES as int {
                s.len() + ls.len() - MAX_LINES as int
            } else {
                0
            },
        ),
        appended(s, ls).len() == if s.len() + ls.len() > MAX_LINES as int {
            MAX_LINES as int
        } else {
            s.len() + ls.len() as int
        },
    decreases ls.len(),
{
    if ls.len() == 0 {
        assert((s + ls).skip(0) =~= s);
    } else {
        let l = ls[0];
        let s1 = cap_push(s, l);
        let d0: int = if s.len() + 1 > MAX_LINES as int {
            s.len() + 1 - MAX_LINES as int
        } else {
            0
        };
        assert(s1.len() <= MAX_LINES as int);
        lemma_appended_keeps_most_recent(s1, ls.skip(1));
        let d1: int = if s1.len() + ls.skip(1).len() > MAX_LINES as int {
            s1.len() + ls.skip(1).len() - MAX_LINES as int
        } else {
            0
        };
        // cap_push(s, l) + ls.skip(1) is (s + ls) with the first d0 lines cut.
        assert(s.push(l) + ls.skip(1) =~= s + ls);
        assert(s1 + ls.skip(1) =~= (s + ls).skip(d0));
        assert((s + ls).skip(d0).skip(d1) =~= (s + ls).skip(d0 + d1));
        assert(appended(s, ls) == appended(s1, ls.skip(1)));
    }
}

/// Capacity-capped, ordered history of log lines, viewed as the sequence
/// of their character contents, oldest first.
pub struct ScrollbackBuffer {
    lines: Vec<String>,
}

impl View for ScrollbackBuffer {
    type V = Seq<Seq<char>>;

    closed spec fn view(&self) -> Seq<Seq<char>> {
        self.lines@.map_values(|l: String| l@)
    }
}

impl ScrollbackBuffer {
    /// The capacity invariant: never more than `MAX_LINES` lines.
    pub open spec fn wf(self) -> bool {
        self@.len() <= MAX_LINES as int
    }

    /// A fresh, empty history.
    pub fn new() -> (r: ScrollbackBuffer)
        ensures
            r@ == Seq::<Seq<char>>::empty(),
            r.wf(),
    {
        let r = ScrollbackBuffer { lines: Vec::new() };
        proof {
            assert(r@ =~= Seq::<Seq<char>>::empty());
        }
        r
    }

    /// Number of buffered lines.
    pub fn len(&self) -> (n: usize)
        ensures
            n == self@.len(),
    {
        proof {
            assert(self@.len() == self.lines@.len());
        }
        self.lines.len()
    }

    /// The `i`-th buffered line, oldest first.
    pub fn line(&self, i: usize) -> (l: &String)
        requires
            i < self@.len(),
        ensures
            l@ == self@[i as int],
    {
        proof {
            assert(self@.len() == self.lines@.len());
        }
        &self.lines[i]
    }

    /// Appends one line at the tail; when the capacity is exceeded the
    /// oldest line is evicted, and the eviction count is returned so the
    /// caller can realign its scroll offset.
    pub fn append(&mut self, line: String) -> (evicted: usize)
        requires
            old(self).wf(),
        ensures
            final(self).wf(),
            final(self)@ == cap_push(old(self)@, line@),
            evicted as int == if old(self)@.len() + 1 > MAX_LINES as int {
                old(self)@.len() + 1 - MAX_LINES as int
            } else {
                0
            },
            final(self)@.len() == old(self)@.len() + 1 - evicted,
    {
        let ghost before = self@;
        self.lines.push(line);
        proof {
            assert(self@ =~= before.push(line@));
            assert(self@.len() == self.lines@.len());
        }
        if self.lines.len() > MAX_LINES {
            let ghost pushed = self@;
            self.lines.remove(0);
            proof {
                assert(self@ =~= pushed.skip(1));
                assert(cap_push(before, line@) =~= pushed.skip(1));
            }
            1
        } else {
            0
        }
    }

    /// One UI tick's drain: non-blockingly pulls every currently queued
    /// line from the mailbox and appends each in arrival order, pulling
    /// the scroll offset down by the total eviction count. Never blocks;
    /// an empty or closed mailbox returns immediately. Returns how many
    /// lines were taken.
    pub fn drain_all(
        &mut self,
        rx: &std::sync::mpsc::Receiver<String>,
        scroll: &mut ScrollState,
    ) -> (drained: usize)
        requires
            old(self).wf(),
        ensures
            final(self).wf(),
            exists|rcv: Seq<Seq<char>>|
                rcv.len() == drained && final(self)@ == appended(old(self)@, rcv),
            final(scroll).follow_tail == old(scroll).follow_tail,
            final(scroll).offset as int == if old(scroll).offset as int >= old(self)@.len()
                + drained - final(self)@.len() {
                old(scroll).offset as int - (old(self)@.len() + drained - final(self)@.len())
            } else {
                0
            },
    {
        let ghost start = self@;
        let ghost start_offset = scroll.offset as int;
        let ghost mut rcv: Seq<Seq<char>> = Seq::<Seq<char>>::empty();
        let mut drained: usize = 0;
        proof {
            assert(appended(start, rcv) == start);
        }
        while drained < usize::MAX
            invariant
                self.wf(),
                rcv.len() == drained as int,
                self@ == appended(start, rcv),
                start.len() <= MAX_LINES as int,
                scroll.follow_tail == old(scroll).follow_tail,
                scroll.offset as int == if start_offset >= start.len() + drained - self@.len() {
                    start_offset - (start.len() + drained - self@.len())
                } else {
                    0
                },
                start_offset == old(scroll).offset as int,
                start == old(self)@,
            decreases usize::MAX - drained,
        {
            match mailbox_poll(rx) {
                RecvPoll::Line(line) => {
                    let ghost line_view = line@;
                    let ghost before = self@;
                    let evicted: usize = self.append(line);
                    scroll.note_evicted(evicted);
                    proof {
                        let prev = rcv;
                        rcv = rcv.push(line_view);
                        lemma_appended_snoc(start, prev, line_view);
                    }
                    drained = drained + 1;
                },
                RecvPoll::Empty => {
                    return drained;
                },
                RecvPoll::Closed => {
                    return drained;
                },
            }
        }
        drained
    }
}

/// Appending the lines `ls` and then one more line `l` is appending
/// `ls.push(l)` at once.
proof fn lemma_appended_snoc(s: Seq<Seq<char>>, ls: Seq<Seq<char>>, l: Seq<char>)
    ensures
        appended(s, ls.push(l)) == cap_push(appended(s, ls), l),
    decreases ls.len(),
{
    if ls.len() == 0 {
        assert(ls.push(l)[0] == l);
        assert(ls.push(l).skip(1) =~= Seq::<Seq<char>>::empty());
        reveal_with_fuel(appended, 2);
    } else {
        assert(ls.push(l)[0] == ls[0]);
        assert(ls.push(l).skip(1) =~= ls.skip(1).push(l));
        lemma_appended_snoc(cap_push(s, ls[0]), ls.skip(1), l);
    }
}

} // verus!
