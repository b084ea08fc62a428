//! `SendMessageToDescendants`: sends one message to every child of a window
//! and, when asked to, to their children in turn.
use vstd::prelude::*;
use crate::cwindow::CWindow;
use crate::request::{fits, reply_handle, Reply, Request, Step};
use crate::win::{GW_HWNDNEXT, NULL_HWND};

verus! {

/// What one level of the walk is doing with the children of its window.
#[derive(Clone, Copy, Debug, PartialEq, Eq, Structural)]
pub enum BroadcastPhase {
    /// Asking for the first child.
    Top,
    /// Sending the message to the child `child`.
    Send { child: usize },
    /// Asking whether `child` has children of its own.
    Deep { child: usize },
    /// Waiting for the walk below `child`.
    AwaitChild { child: usize },
    /// Asking for the child after `child`.
    Next { child: usize },
}

/// One level of the walk: the window whose children it visits.
#[derive(Clone, Copy, Debug, PartialEq, Eq, Structural)]
pub struct BroadcastFrame {
    pub hwnd: usize,
    pub phase: BroadcastPhase,
}

/// The handle that a phase is about, when it is about a child.
pub open spec fn phase_child(p: BroadcastPhase) -> Option<usize> {
    match p {
        BroadcastPhase::Top => None,
        BroadcastPhase::Send { child } => Some(child),
        BroadcastPhase::Deep { child } => Some(child),
        BroadcastPhase::AwaitChild { child } => Some(child),
        BroadcastPhase::Next { child } => Some(child),
    }
}

/// A consistent walk: levels that wait for deeper ones under one active
/// level, and every child they refer to is a real (non-null) window.
pub open spec fn broadcast_ok(frames: Seq<BroadcastFrame>) -> bool {
    &&& frames.len() >= 1
    &&& forall|i: int| 0 <= i < frames.len() - 1 ==> (#[trigger] frames[i]).phase is AwaitChild
    &&& !(frames.last().phase is AwaitChild)
    &&& forall|i: int| 0 <= i < frames.len() ==> (phase_child((#[trigger] frames[i]).phase) matches Some(c) ==> c != NULL_HWND)
}

/// The message being sent.
#[derive(Clone, Copy, Debug, PartialEq, Eq, Structural)]
pub struct Message {
    pub msg: u32,
    pub wparam: usize,
    pub lparam: isize,
}

/// The call the active level `top` waits for.
pub open spec fn broadcast_request(top: BroadcastFrame, m: Message) -> Request {
    match top.phase {
        BroadcastPhase::Top => Request::GetTopWindow { hwnd: top.hwnd },
        BroadcastPhase::Send { child } => Request::SendMessage { hwnd: child, msg: m.msg, wparam: m.wparam, lparam: m.lparam },
        BroadcastPhase::Deep { child } => Request::GetTopWindow { hwnd: child },
        BroadcastPhase::Next { child } => Request::GetWindow { hwnd: child, cmd: GW_HWNDNEXT },
        BroadcastPhase::AwaitChild { child } => Request::GetTopWindow { hwnd: child },
    }
}

/// The level under a finished one resumes with the sibling after the child
/// it had descended into; with no level left, the walk is over (`None`).
pub open spec fn broadcast_pop(rest: Seq<BroadcastFrame>) -> Option<Seq<BroadcastFrame>> {
    if rest.len() == 0 {
        None
    } else {
        let p = rest.last();
        Some(rest.drop_last().push(BroadcastFrame { hwnd: p.hwnd, phase: BroadcastPhase::Next { child: phase_child(p.phase)->0 } }))
    }
}

/// The levels after the active one got `reply`, or `None` when the walk is
/// over. `deep` tells whether the walk descends into children's children.
pub open spec fn broadcast_step(frames: Seq<BroadcastFrame>, deep: bool, reply: Reply) -> Option<Seq<BroadcastFrame>> {
    let top = frames.last();
    let rest = frames.drop_last();
    let with = |p: BroadcastPhase| rest.push(BroadcastFrame { hwnd: top.hwnd, phase: p });
    match top.phase {
        BroadcastPhase::Top => if reply->Handle_0 == NULL_HWND {
            broadcast_pop(rest)
        } else {
            Some(with(BroadcastPhase::Send { child: reply->Handle_0 }))
        },
        BroadcastPhase::Send { child } => if deep {
            Some(with(BroadcastPhase::Deep { child }))
        } else {
            Some(with(BroadcastPhase::Next { child }))
        },
        BroadcastPhase::Deep { child } => if reply->Handle_0 != NULL_HWND {
            Some(with(BroadcastPhase::AwaitChild { child }).push(BroadcastFrame { hwnd: child, phase: BroadcastPhase::Top }))
        } else {
            Some(with(BroadcastPhase::Next { child }))
        },
        BroadcastPhase::Next { .. } => if reply->Handle_0 == NULL_HWND {
            broadcast_pop(rest)
        } else {
            Some(with(BroadcastPhase::Send { child: reply->Handle_0 }))
        },
        BroadcastPhase::AwaitChild { .. } => Some(frames),
    }
}

proof fn lemma_broadcast_step_ok(frames: Seq<BroadcastFrame>, deep: bool, reply: Reply)
    requires
        broadcast_ok(frames),
    ensures
        broadcast_step(frames, deep, reply) matches Some(f) ==> broadcast_ok(f),
{
    let top = frames.last();
    let rest = frames.drop_last();
    assert forall|i: int| 0 <= i < rest.len() implies (#[trigger] rest[i]).phase is AwaitChild
        && (phase_child(rest[i].phase) matches Some(c) ==> c != NULL_HWND) by {
        assert(rest[i] == frames[i]);
    }
    assert(phase_child(frames[frames.len() - 1].phase) matches Some(c) ==> c != NULL_HWND);
    if let Some(f) = broadcast_step(frames, deep, reply) {
        assert forall|i: int| 0 <= i < f.len() - 1 implies (#[trigger] f[i]).phase is AwaitChild by {
            if i < rest.len() {
                assert(f[i] == rest[i]);
            }
        }
        assert forall|i: int| 0 <= i < f.len() implies (phase_child((#[trigger] f[i]).phase) matches Some(c) ==> c != NULL_HWND) by {
            if i < rest.len() - 1 {
                assert(f[i] == rest[i]);
            } else if i < rest.len() {
                assert(f[i] == rest[i] || f[i].phase is Next);
            }
        }
    }
}

/// Law: the calls of the walk at one level: the first child is asked for;
/// a child gets the message; after it, with `deep`, the child is asked for
/// children of its own (and walked first when it has some), and then the
/// next sibling is asked for; a level alone ends when it runs out of
/// children.
pub proof fn lemma_broadcast_level(w: usize, c: usize, h: usize, m: Message, deep: bool)
    requires
        c != NULL_HWND,
    ensures
        broadcast_request(BroadcastFrame { hwnd: w, phase: BroadcastPhase::Top }, m) == (Request::GetTopWindow { hwnd: w }),
        broadcast_request(BroadcastFrame { hwnd: w, phase: BroadcastPhase::Send { child: c } }, m)
            == (Request::SendMessage { hwnd: c, msg: m.msg, wparam: m.wparam, lparam: m.lparam }),
        broadcast_step(seq![BroadcastFrame { hwnd: w, phase: BroadcastPhase::Top }], deep, Reply::Handle(NULL_HWND)) is None,
        broadcast_step(seq![BroadcastFrame { hwnd: w, phase: BroadcastPhase::Next { child: c } }], deep, Reply::Handle(NULL_HWND)) is None,
        ({
            let f = broadcast_step(seq![BroadcastFrame { hwnd: w, phase: BroadcastPhase::Top }], deep, Reply::Handle(c));
            f is Some && broadcast_request(f->0.last(), m) == (Request::SendMessage { hwnd: c, msg: m.msg, wparam: m.wparam, lparam: m.lparam })
        }),
        ({
            let f = broadcast_step(seq![BroadcastFrame { hwnd: w, phase: BroadcastPhase::Next { child: h } }], deep, Reply::Handle(c));
            f is Some && broadcast_request(f->0.last(), m) == (Request::SendMessage { hwnd: c, msg: m.msg, wparam: m.wparam, lparam: m.lparam })
        }),
        ({
            let f = broadcast_step(seq![BroadcastFrame { hwnd: w, phase: BroadcastPhase::Send { child: c } }], deep, Reply::Message(0));
            f is Some && broadcast_request(f->0.last(), m) == if deep {
                Request::GetTopWindow { hwnd: c }
            } else {
                Request::GetWindow { hwnd: c, cmd: GW_HWNDNEXT }
            }
        }),
        h != NULL_HWND ==> ({
            let f = broadcast_step(seq![BroadcastFrame { hwnd: w, phase: BroadcastPhase::Deep { child: c } }], deep, Reply::Handle(h));
            f is Some && f->0.len() == 2 && broadcast_request(f->0.last(), m) == (Request::GetTopWindow { hwnd: c })
                && f->0[0] == (BroadcastFrame { hwnd: w, phase: BroadcastPhase::AwaitChild { child: c } })
        }),
        ({
            let f = broadcast_step(seq![BroadcastFrame { hwnd: w, phase: BroadcastPhase::Deep { child: c } }], deep, Reply::Handle(NULL_HWND));
            f is Some && broadcast_request(f->0.last(), m) == (Request::GetWindow { hwnd: c, cmd: GW_HWNDNEXT })
        }),
{
}

/// Law: when the walk below a child ends, the level under it goes on with
/// the sibling after that child.
pub proof fn lemma_broadcast_resume(w: usize, c: usize, x: usize, deep: bool, m: Message)
    ensures
        ({
            let frames = seq![
                BroadcastFrame { hwnd: w, phase: BroadcastPhase::AwaitChild { child: c } },
                BroadcastFrame { hwnd: c, phase: BroadcastPhase::Next { child: x } },
            ];
            let f = broadcast_step(frames, deep, Reply::Handle(NULL_HWND));
            f is Some && f->0 == seq![BroadcastFrame { hwnd: w, phase: BroadcastPhase::Next { child: c } }]
                && broadcast_request(f->0.last(), m) == (Request::GetWindow { hwnd: c, cmd: GW_HWNDNEXT })
        }),
{
    let frames = seq![
        BroadcastFrame { hwnd: w, phase: BroadcastPhase::AwaitChild { child: c } },
        BroadcastFrame { hwnd: c, phase: BroadcastPhase::Next { child: x } },
    ];
    assert(frames.drop_last() =~= seq![BroadcastFrame { hwnd: w, phase: BroadcastPhase::AwaitChild { child: c } }]);
    assert(frames.drop_last().drop_last() =~= Seq::<BroadcastFrame>::empty());
    assert(Seq::<BroadcastFrame>::empty().push(BroadcastFrame { hwnd: w, phase: BroadcastPhase::Next { child: c } })
        =~= seq![BroadcastFrame { hwnd: w, phase: BroadcastPhase::Next { child: c } }]);
}

/// The operation `SendMessageToDescendants` in progress.
pub struct DescendantBroadcast {
    message: Message,
    deep: bool,
    frames: Vec<BroadcastFrame>,
    finished: bool,
}

impl DescendantBroadcast {
    pub closed spec fn message(&self) -> Message {
        self.message
    }

    /// Whether the walk goes below the children.
    pub closed spec fn deep(&self) -> bool {
        self.deep
    }

    /// The levels of the walk, outermost first.
    pub closed spec fn frames(&self) -> Seq<BroadcastFrame> {
        self.frames@
    }

    /// The walk is still running and consistent.
    pub closed spec fn running(&self) -> bool {
        !self.finished && broadcast_ok(self.frames@)
    }

    /// The call this operation waits for.
    pub open spec fn pending(&self) -> Request {
        broadcast_request(self.frames().last(), self.message())
    }

    /// The call this operation waits for.
    pub fn request(&self) -> (r: Request)
        requires
            self.running(),
        ensures
            r == self.pending(),
            r matches Request::SendMessage { hwnd, msg, wparam, lparam } ==> hwnd != NULL_HWND && msg == self.message().msg
                && wparam == self.message().wparam && lparam == self.message().lparam,
    {
        let top = self.frames[self.frames.len() - 1];
        proof {
            assert(phase_child(self.frames@[self.frames@.len() - 1].phase) matches Some(c) ==> c != NULL_HWND);
        }
        match top.phase {
            BroadcastPhase::Top => Request::GetTopWindow { hwnd: top.hwnd },
            BroadcastPhase::Send { child } => Request::SendMessage {
                hwnd: child,
                msg: self.message.msg,
                wparam: self.message.wparam,
                lparam: self.message.lparam,
            },
            BroadcastPhase::Deep { child } => Request::GetTopWindow { hwnd: child },
            BroadcastPhase::Next { child } => Request::GetWindow { hwnd: child, cmd: GW_HWNDNEXT },
            BroadcastPhase::AwaitChild { child } => Request::GetTopWindow { hwnd: child },
        }
    }

    /// Takes the answer to the pending call; the walk ends when the last
    /// child of the window it started from has been visited.
    pub fn advance(&mut self, reply: Reply) -> (s: Step<()>)
        requires
            old(self).running(),
            fits(old(self).pending(), reply),
        ensures
            final(self).message() == old(self).message(),
            final(self).deep() == old(self).deep(),
            broadcast_step(old(self).frames(), old(self).deep(), reply) matches Some(f) ==> final(self).frames() == f
                && final(self).running() && s == Step::<()>::Call(final(self).pending()),
            broadcast_step(old(self).frames(), old(self).deep(), reply) is None ==> !final(self).running()
                && s == Step::<()>::Done(()),
    {
        proof {
            lemma_broadcast_step_ok(self.frames@, self.deep, reply);
        }
        let n = self.frames.len();
        let top = self.frames[n - 1];
        let ghost old_frames = self.frames@;
        self.frames.pop();
        let ghost rest = self.frames@;
        let mut pop = false;
        match top.phase {
            BroadcastPhase::Top => {
                let h = reply_handle(&reply);
                if h == NULL_HWND {
                    pop = true;
                } else {
                    self.frames.push(BroadcastFrame { hwnd: top.hwnd, phase: BroadcastPhase::Send { child: h } });
                }
            },
            BroadcastPhase::Send { child } => {
                if self.deep {
                    self.frames.push(BroadcastFrame { hwnd: top.hwnd, phase: BroadcastPhase::Deep { child } });
                } else {
                    self.frames.push(BroadcastFrame { hwnd: top.hwnd, phase: BroadcastPhase::Next { child } });
                }
            },
            BroadcastPhase::Deep { child } => {
                let t = reply_handle(&reply);
                if t != NULL_HWND {
                    self.frames.push(BroadcastFrame { hwnd: top.hwnd, phase: BroadcastPhase::AwaitChild { child } });
                    self.frames.push(BroadcastFrame { hwnd: child, phase: BroadcastPhase::Top });
                } else {
                    self.frames.push(BroadcastFrame { hwnd: top.hwnd, phase: BroadcastPhase::Next { child } });
                }
            },
            BroadcastPhase::Next { .. } => {
                let h = reply_handle(&reply);
                if h == NULL_HWND {
                    pop = true;
                } else {
                    self.frames.push(BroadcastFrame { hwnd: top.hwnd, phase: BroadcastPhase::Send { child: h } });
                }
            },
            BroadcastPhase::AwaitChild { .. } => {
                self.frames.push(top);
                assert(self.frames@ =~= old_frames);
            },
        }
        if pop {
            let m = self.frames.len();
            if m == 0 {
                self.finished = true;
                return Step::Done(());
            }
            let p = self.frames[m - 1];
            let c = match p.phase {
                BroadcastPhase::AwaitChild { child } => child,
                BroadcastPhase::Send { child } => child,
                BroadcastPhase::Deep { child } => child,
                BroadcastPhase::Next { child } => child,
                BroadcastPhase::Top => 0,
            };
            self.frames.pop();
            self.frames.push(BroadcastFrame { hwnd: p.hwnd, phase: BroadcastPhase::Next { child: c } });
        }
        Step::Call(self.request())
    }
}

impl CWindow {
    /// Starts sending the message `message` with `wParam` and `lParam` to
    /// every child of this window, and, for positive `bDeep`, to all their
    /// descendants, each before the siblings that follow it.
    pub fn SendMessageToDescendants(&self, message: u32, wParam: usize, lParam: isize, bDeep: i32) -> (op: DescendantBroadcast)
        ensures
            op.running(),
            op.message() == (Message { msg: message, wparam: wParam, lparam: lParam }),
            op.deep() == (bDeep > 0),
            op.frames() == seq![BroadcastFrame { hwnd: self@, phase: BroadcastPhase::Top }],
            op.pending() == (Request::GetTopWindow { hwnd: self@ }),
    {
        let mut frames: Vec<BroadcastFrame> = Vec::new();
        frames.push(BroadcastFrame { hwnd: self.GetHwnd(), phase: BroadcastPhase::Top });
        DescendantBroadcast {
            message: Message { msg: message, wparam: wParam, lparam: lParam },
            deep: bDeep > 0,
            frames,
            finished: false,
        }
    }
}

} // verus!
