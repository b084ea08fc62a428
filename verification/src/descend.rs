//! `GetDescendantWindow`: finds the control with a given ID among the
//! descendants of a window.
use vstd::prelude::*;
use crate::cwindow::CWindow;
use crate::request::{reply_handle, Reply, Request, Step};
use crate::win::{GW_HWNDNEXT, NULL_HWND};

verus! {

/// What one level of the search is doing. Each level searches below one
/// window, and a level that waits for a deeper one sits under it.
#[derive(Clone, Copy, Debug, PartialEq, Eq, Structural)]
pub enum FramePhase {
    /// Asking for the dialog item with the ID.
    DlgItem,
    /// The item `child` was found; asking whether it has children.
    ChildTop { child: usize },
    /// Waiting for the search below the found item `child`.
    AwaitChild { child: usize },
    /// No such item: asking for the window's first child.
    LoopTop,
    /// Asking for the window after `first`, the first child.
    LoopNext { first: usize },
    /// Waiting for the search below that window.
    AwaitLoop,
}

/// One level of the search: the window searched below, and what it does.
#[derive(Clone, Copy, Debug, PartialEq, Eq, Structural)]
pub struct Frame {
    pub hwnd: usize,
    pub phase: FramePhase,
}

/// Whether a level waits for a deeper one.
pub open spec fn is_waiting(f: Frame) -> bool {
    f.phase is AwaitChild || f.phase is AwaitLoop
}

/// The call that the deepest level `top` waits for.
pub open spec fn frame_request(top: Frame, id: i32) -> Request {
    match top.phase {
        FramePhase::DlgItem => Request::GetDlgItem { hwnd: top.hwnd, id },
        FramePhase::ChildTop { child } => Request::GetTopWindow { hwnd: child },
        FramePhase::LoopTop => Request::GetTopWindow { hwnd: top.hwnd },
        FramePhase::LoopNext { first } => Request::GetWindow { hwnd: first, cmd: GW_HWNDNEXT },
        _ => Request::GetTopWindow { hwnd: top.hwnd },
    }
}

/// A level finished with result `v`: the levels waiting under it take it
/// up. Below a found item, a null result is replaced by the item itself;
/// below a window that was looking at its children, a non-null result is
/// passed on, and a null one sends that window back to its first child.
/// The result is `None` when a level goes on searching, and the final
/// result when no level is left.
pub open spec fn unwind(frames: Seq<Frame>, v: usize) -> (Seq<Frame>, Option<usize>)
    decreases frames.len(),
{
    if frames.len() == 0 {
        (frames, Some(v))
    } else {
        let p = frames.last();
        match p.phase {
            FramePhase::AwaitChild { child } => unwind(frames.drop_last(), if v != NULL_HWND { v } else { child }),
            FramePhase::AwaitLoop => if v != NULL_HWND {
                unwind(frames.drop_last(), v)
            } else {
                (frames.drop_last().push(Frame { hwnd: p.hwnd, phase: FramePhase::LoopTop }), None)
            },
            _ => (frames, Some(v)),
        }
    }
}

/// The levels after the deepest one got the answer `h`, and the final
/// result if the search ended.
pub open spec fn step_frames(frames: Seq<Frame>, h: usize) -> (Seq<Frame>, Option<usize>) {
    let top = frames.last();
    let rest = frames.drop_last();
    match top.phase {
        FramePhase::DlgItem => if h != NULL_HWND {
            (rest.push(Frame { hwnd: top.hwnd, phase: FramePhase::ChildTop { child: h } }), None)
        } else {
            (rest.push(Frame { hwnd: top.hwnd, phase: FramePhase::LoopTop }), None)
        },
        FramePhase::ChildTop { child } => if h != NULL_HWND {
            (rest.push(Frame { hwnd: top.hwnd, phase: FramePhase::AwaitChild { child } }).push(
                Frame { hwnd: child, phase: FramePhase::DlgItem },
            ), None)
        } else {
            unwind(rest, child)
        },
        FramePhase::LoopTop => if h == NULL_HWND {
            unwind(rest, NULL_HWND)
        } else {
            (rest.push(Frame { hwnd: top.hwnd, phase: FramePhase::LoopNext { first: h } }), None)
        },
        FramePhase::LoopNext { first } => (rest.push(Frame { hwnd: top.hwnd, phase: FramePhase::AwaitLoop }).push(
            Frame { hwnd: h, phase: FramePhase::DlgItem },
        ), None),
        _ => (frames, None),
    }
}

/// Levels that all wait, and that wait below found items only for items in
/// `found`.
pub open spec fn waiting_ok(frames: Seq<Frame>, found: Set<usize>) -> bool {
    forall|i: int| 0 <= i < frames.len() ==> {
        &&& is_waiting(#[trigger] frames[i])
        &&& (frames[i].phase matches FramePhase::AwaitChild { child } ==> found.contains(child))
    }
}

/// A running search: waiting levels under one active level, and every item
/// it refers to is in `found`.
pub open spec fn frames_ok(frames: Seq<Frame>, found: Set<usize>) -> bool {
    &&& frames.len() >= 1
    &&& waiting_ok(frames.drop_last(), found)
    &&& !is_waiting(frames.last())
    &&& (frames.last().phase matches FramePhase::ChildTop { child } ==> found.contains(child))
}

proof fn lemma_unwind_ok(frames: Seq<Frame>, v: usize, found: Set<usize>)
    requires
        waiting_ok(frames, found),
        v == NULL_HWND || found.contains(v),
    ensures
        unwind(frames, v).1 matches Some(r) ==> (r == NULL_HWND || found.contains(r)),
        unwind(frames, v).1 is None ==> frames_ok(unwind(frames, v).0, found),
    decreases frames.len(),
{
    if frames.len() > 0 {
        let p = frames.last();
        let rest = frames.drop_last();
        assert(is_waiting(frames[frames.len() - 1]));
        assert(waiting_ok(rest, found)) by {
            assert forall|i: int| 0 <= i < rest.len() implies {
                &&& is_waiting(#[trigger] rest[i])
                &&& (rest[i].phase matches FramePhase::AwaitChild { child } ==> found.contains(child))
            } by {
                assert(rest[i] == frames[i]);
            }
        }
        match p.phase {
            FramePhase::AwaitChild { child } => {
                lemma_unwind_ok(rest, if v != NULL_HWND { v } else { child }, found);
            },
            FramePhase::AwaitLoop => {
                if v != NULL_HWND {
                    lemma_unwind_ok(rest, v, found);
                } else {
                    let nf = rest.push(Frame { hwnd: p.hwnd, phase: FramePhase::LoopTop });
                    assert(nf.drop_last() =~= rest);
                }
            },
            _ => {},
        }
    }
}

proof fn lemma_step_ok(frames: Seq<Frame>, h: usize, found: Set<usize>)
    requires
        frames_ok(frames, found),
    ensures
        ({
            let found2 = if frames.last().phase is DlgItem && h != NULL_HWND { found.insert(h) } else { found };
            &&& (step_frames(frames, h).1 matches Some(r) ==> (r == NULL_HWND || found2.contains(r)))
            &&& (step_frames(frames, h).1 is None ==> frames_ok(step_frames(frames, h).0, found2))
        }),
{
    let top = frames.last();
    let rest = frames.drop_last();
    let found2 = if top.phase is DlgItem && h != NULL_HWND { found.insert(h) } else { found };
    assert(waiting_ok(rest, found2)) by {
        assert forall|i: int| 0 <= i < rest.len() implies {
            &&& is_waiting(#[trigger] rest[i])
            &&& (rest[i].phase matches FramePhase::AwaitChild { child } ==> found2.contains(child))
        } by {
            assert(is_waiting(rest[i]));
        }
    }
    match top.phase {
        FramePhase::DlgItem => {
            let nf = if h != NULL_HWND {
                rest.push(Frame { hwnd: top.hwnd, phase: FramePhase::ChildTop { child: h } })
            } else {
                rest.push(Frame { hwnd: top.hwnd, phase: FramePhase::LoopTop })
            };
            assert(nf.drop_last() =~= rest);
        },
        FramePhase::ChildTop { child } => {
            if h != NULL_HWND {
                let mid = rest.push(Frame { hwnd: top.hwnd, phase: FramePhase::AwaitChild { child } });
                let nf = mid.push(Frame { hwnd: child, phase: FramePhase::DlgItem });
                assert(nf.drop_last() =~= mid);
                assert(waiting_ok(mid, found2)) by {
                    assert forall|i: int| 0 <= i < mid.len() implies {
                        &&& is_waiting(#[trigger] mid[i])
                        &&& (mid[i].phase matches FramePhase::AwaitChild { child } ==> found2.contains(child))
                    } by {
                        if i < rest.len() {
                            assert(mid[i] == rest[i]);
                        }
                    }
                }
            } else {
                lemma_unwind_ok(rest, child, found2);
            }
        },
        FramePhase::LoopTop => {
            if h == NULL_HWND {
                lemma_unwind_ok(rest, NULL_HWND, found2);
            } else {
                let nf = rest.push(Frame { hwnd: top.hwnd, phase: FramePhase::LoopNext { first: h } });
                assert(nf.drop_last() =~= rest);
            }
        },
        FramePhase::LoopNext { first } => {
            let mid = rest.push(Frame { hwnd: top.hwnd, phase: FramePhase::AwaitLoop });
            let nf = mid.push(Frame { hwnd: h, phase: FramePhase::DlgItem });
            assert(nf.drop_last() =~= mid);
            assert(waiting_ok(mid, found2)) by {
                assert forall|i: int| 0 <= i < mid.len() implies {
                    &&& is_waiting(#[trigger] mid[i])
                    &&& (mid[i].phase matches FramePhase::AwaitChild { child } ==> found2.contains(child))
                } by {
                    if i < rest.len() {
                        assert(mid[i] == rest[i]);
                    }
                }
            }
        },
        _ => {},
    }
}

/// Law: the calls the search makes at one level, and when it ends. A found
/// item is asked for its children, and searched below when it has some;
/// without an item, the level goes through the window's children; a level
/// alone (no level waiting under it) ends with the found item when that has
/// no children, and with null when the window has none.
pub proof fn lemma_descend_level(w: usize, id: i32, h: usize, t: usize)
    ensures
        h != NULL_HWND ==> frame_request(step_frames(seq![Frame { hwnd: w, phase: FramePhase::DlgItem }], h).0.last(), id)
            == (Request::GetTopWindow { hwnd: h }),
        h == NULL_HWND ==> frame_request(step_frames(seq![Frame { hwnd: w, phase: FramePhase::DlgItem }], h).0.last(), id)
            == (Request::GetTopWindow { hwnd: w }),
        t != NULL_HWND ==> ({
            let r = step_frames(seq![Frame { hwnd: w, phase: FramePhase::ChildTop { child: h } }], t);
            r.1 is None && frame_request(r.0.last(), id) == (Request::GetDlgItem { hwnd: h, id })
                && r.0[0] == Frame { hwnd: w, phase: FramePhase::AwaitChild { child: h } }
        }),
        step_frames(seq![Frame { hwnd: w, phase: FramePhase::ChildTop { child: h } }], NULL_HWND).1 == Some(h),
        step_frames(seq![Frame { hwnd: w, phase: FramePhase::LoopTop }], NULL_HWND).1 == Some(NULL_HWND),
        h != NULL_HWND ==> frame_request(step_frames(seq![Frame { hwnd: w, phase: FramePhase::LoopTop }], h).0.last(), id)
            == (Request::GetWindow { hwnd: h, cmd: GW_HWNDNEXT }),
        frame_request(step_frames(seq![Frame { hwnd: w, phase: FramePhase::LoopNext { first: h } }], h).0.last(), id)
            == (Request::GetDlgItem { hwnd: h, id }),
{
    let one = seq![Frame { hwnd: w, phase: FramePhase::ChildTop { child: h } }];
    assert(one.drop_last() =~= Seq::<Frame>::empty());
    let lt = seq![Frame { hwnd: w, phase: FramePhase::LoopTop }];
    assert(lt.drop_last() =~= Seq::<Frame>::empty());
}

/// Law: what a level waiting for a deeper one does with the deeper result
/// `v`: below a found item `c`, a non-null `v` is the answer and a null one
/// gives `c`; below a window going through its children, a non-null `v` is
/// the answer and a null one sends that window back to its first child.
pub proof fn lemma_descend_waiting(w: usize, c: usize, v: usize)
    ensures
        unwind(seq![Frame { hwnd: w, phase: FramePhase::AwaitChild { child: c } }], v).1
            == Some(if v != NULL_HWND { v } else { c }),
        v != NULL_HWND ==> unwind(seq![Frame { hwnd: w, phase: FramePhase::AwaitLoop }], v).1 == Some(v),
        v == NULL_HWND ==> unwind(seq![Frame { hwnd: w, phase: FramePhase::AwaitLoop }], v).1 is None
            && unwind(seq![Frame { hwnd: w, phase: FramePhase::AwaitLoop }], v).0 == seq![Frame { hwnd: w, phase: FramePhase::LoopTop }],
{
    let a = seq![Frame { hwnd: w, phase: FramePhase::AwaitChild { child: c } }];
    assert(a.drop_last() =~= Seq::<Frame>::empty());
    reveal_with_fuel(unwind, 2);
    assert(unwind(Seq::<Frame>::empty(), if v != NULL_HWND { v } else { c }).1 == Some(if v != NULL_HWND { v } else { c }));
    assert(unwind(Seq::<Frame>::empty(), v).1 == Some(v));
    let b = seq![Frame { hwnd: w, phase: FramePhase::AwaitLoop }];
    assert(b.drop_last() =~= Seq::<Frame>::empty());
    assert(b.drop_last().push(Frame { hwnd: w, phase: FramePhase::LoopTop }) =~= seq![Frame { hwnd: w, phase: FramePhase::LoopTop }]);
}

fn unwind_exec(frames: &mut Vec<Frame>, v: usize) -> (r: Option<usize>)
    ensures
        final(frames)@ == unwind(old(frames)@, v).0,
        r == unwind(old(frames)@, v).1,
    decreases old(frames)@.len(),
{
    let n = frames.len();
    if n == 0 {
        return Some(v);
    }
    let p = frames[n - 1];
    match p.phase {
        FramePhase::AwaitChild { child } => {
            frames.pop();
            unwind_exec(frames, if v != NULL_HWND { v } else { child })
        },
        FramePhase::AwaitLoop => {
            frames.pop();
            if v != NULL_HWND {
                unwind_exec(frames, v)
            } else {
                frames.push(Frame { hwnd: p.hwnd, phase: FramePhase::LoopTop });
                None
            }
        },
        _ => Some(v),
    }
}

/// The operation `GetDescendantWindow` in progress.
pub struct DescendantSearch {
    id: i32,
    frames: Vec<Frame>,
    found: Ghost<Set<usize>>,
}

impl DescendantSearch {
    /// The control ID searched for.
    pub closed spec fn id(&self) -> i32 {
        self.id
    }

    /// The levels of the search, outermost first.
    pub closed spec fn frames(&self) -> Seq<Frame> {
        self.frames@
    }

    /// Every non-null window that a `GetDlgItem` call of this search has
    /// answered.
    pub closed spec fn found(&self) -> Set<usize> {
        self.found@
    }

    /// The search is still running and consistent.
    pub open spec fn running(&self) -> bool {
        frames_ok(self.frames(), self.found())
    }

    /// The call this operation waits for.
    pub open spec fn pending(&self) -> Request {
        frame_request(self.frames().last(), self.id())
    }

    /// The call this operation waits for.
    pub fn request(&self) -> (r: Request)
        requires
            self.running(),
        ensures
            r == self.pending(),
    {
        let top = self.frames[self.frames.len() - 1];
        match top.phase {
            FramePhase::DlgItem => Request::GetDlgItem { hwnd: top.hwnd, id: self.id },
            FramePhase::ChildTop { child } => Request::GetTopWindow { hwnd: child },
            FramePhase::LoopTop => Request::GetTopWindow { hwnd: top.hwnd },
            FramePhase::LoopNext { first } => Request::GetWindow { hwnd: first, cmd: GW_HWNDNEXT },
            _ => Request::GetTopWindow { hwnd: top.hwnd },
        }
    }

    /// Takes the window that the pending call answered. The search ends with
    /// the null handle, or with a window that `GetDlgItem` reported for the
    /// control ID.
    pub fn advance(&mut self, reply: Reply) -> (s: Step<CWindow>)
        requires
            old(self).running(),
            reply is Handle,
        ensures
            final(self).id() == old(self).id(),
            final(self).frames() == step_frames(old(self).frames(), reply->Handle_0).0,
            final(self).found() == if old(self).frames().last().phase is DlgItem && reply->Handle_0 != NULL_HWND {
                old(self).found().insert(reply->Handle_0)
            } else {
                old(self).found()
            },
            step_frames(old(self).frames(), reply->Handle_0).1 matches Some(r) ==> (s matches Step::Done(w) && w@ == r
                && (r == NULL_HWND || final(self).found().contains(r))),
            step_frames(old(self).frames(), reply->Handle_0).1 is None ==> final(self).running()
                && s == Step::<CWindow>::Call(final(self).pending()),
    {
        let h = reply_handle(&reply);
        proof {
            lemma_step_ok(self.frames@, h, self.found@);
        }
        let n = self.frames.len();
        let top = self.frames[n - 1];
        let ghost old_frames = self.frames@;
        assert(old_frames.drop_last().push(top) =~= old_frames);
        self.frames.pop();
        let result: Option<usize> = match top.phase {
            FramePhase::DlgItem => {
                if h != NULL_HWND {
                    self.found = Ghost(self.found@.insert(h));
                    self.frames.push(Frame { hwnd: top.hwnd, phase: FramePhase::ChildTop { child: h } });
                } else {
                    self.frames.push(Frame { hwnd: top.hwnd, phase: FramePhase::LoopTop });
                }
                None
            },
            FramePhase::ChildTop { child } => {
                if h != NULL_HWND {
                    self.frames.push(Frame { hwnd: top.hwnd, phase: FramePhase::AwaitChild { child } });
                    self.frames.push(Frame { hwnd: child, phase: FramePhase::DlgItem });
                    None
                } else {
                    unwind_exec(&mut self.frames, child)
                }
            },
            FramePhase::LoopTop => {
                if h == NULL_HWND {
                    unwind_exec(&mut self.frames, NULL_HWND)
                } else {
                    self.frames.push(Frame { hwnd: top.hwnd, phase: FramePhase::LoopNext { first: h } });
                    None
                }
            },
            FramePhase::LoopNext { first } => {
                self.frames.push(Frame { hwnd: top.hwnd, phase: FramePhase::AwaitLoop });
                self.frames.push(Frame { hwnd: h, phase: FramePhase::DlgItem });
                None
            },
            _ => None,
        };
        match result {
            Some(r) => Step::Done(CWindow::new(r)),
            None => Step::Call(self.request()),
        }
    }
}

impl CWindow {
    /// Starts the search for the control `nID` below this window: the
    /// dialog item with that ID (or, when that item has children, a match
    /// below it first). Without such an item, the search goes below the
    /// window that follows the first child, and after a fruitless search
    /// there it starts over from the first child; it ends with null only
    /// when the window has no children.
    pub fn GetDescendantWindow(&self, nID: i32) -> (op: DescendantSearch)
        ensures
            op.running(),
            op.id() == nID,
            op.frames() == seq![Frame { hwnd: self@, phase: FramePhase::DlgItem }],
            op.found() == Set::<usize>::empty(),
            op.pending() == (Request::GetDlgItem { hwnd: self@, id: nID }),
    {
        let mut frames: Vec<Frame> = Vec::new();
        frames.push(Frame { hwnd: self.GetHwnd(), phase: FramePhase::DlgItem });
        let op = DescendantSearch { id: nID, frames, found: Ghost(Set::empty()) };
        proof {
            assert(op.frames@.drop_last() =~= Seq::<Frame>::empty());
        }
        op
    }
}

} // verus!
