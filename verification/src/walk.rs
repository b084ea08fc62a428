//! `GetTopLevelParent` and `GetTopLevelWindow`: walk up from a window to the
//! root of its chain of parents, or of parents and owners.
use vstd::prelude::*;
use crate::cwindow::CWindow;
use crate::request::{fits, reply_handle, reply_long, Reply, Request, Step};
use crate::win::{has_bits, is_child_style, GWL_STYLE, GW_OWNER, NULL_HWND, WS_CHILD};

verus! {

/// The operation `GetTopLevelParent` in progress: it asks for the parent of
/// the window reached so far, until a window has none.
pub struct TopLevelParentSearch {
    current: usize,
    chain: Ghost<Seq<usize>>,
}

impl TopLevelParentSearch {
    /// The windows visited so far: the start, then each parent reported, in
    /// order. The last is the one whose parent is asked for now.
    pub closed spec fn chain(&self) -> Seq<usize> {
        self.chain@
    }

    /// The search is consistent: it has visited at least its start, and asks
    /// about the last window visited.
    pub closed spec fn wf(&self) -> bool {
        &&& self.chain@.len() >= 1
        &&& self.chain@.last() == self.current
        &&& parent_chain_ok(self.chain@)
    }

    /// The call this operation waits for.
    pub open spec fn pending(&self) -> Request {
        Request::GetParent { hwnd: self.chain().last() }
    }

    /// The call this operation waits for.
    pub fn request(&self) -> (r: Request)
        requires
            self.wf(),
        ensures
            r == self.pending(),
    {
        Request::GetParent { hwnd: self.current }
    }

    /// Takes the parent of the last window visited. A null parent ends the
    /// search with that window; any other parent is visited next.
    pub fn advance(&mut self, reply: Reply) -> (s: Step<CWindow>)
        requires
            old(self).wf(),
            reply is Handle,
        ensures
            final(self).wf(),
            parent_chain_ok(final(self).chain()),
            final(self).chain()[0] == old(self).chain()[0],
            reply->Handle_0 == NULL_HWND ==> final(self).chain() == old(self).chain()
                && (s matches Step::Done(w) && w@ == old(self).chain().last()),
            reply->Handle_0 != NULL_HWND ==> final(self).chain() == old(self).chain().push(reply->Handle_0)
                && s == Step::<CWindow>::Call(Request::GetParent { hwnd: reply->Handle_0 }),
    {
        let parent = reply_handle(&reply);
        if parent == NULL_HWND {
            return Step::Done(CWindow::new(self.current));
        }
        self.current = parent;
        proof {
            assert forall|i: int| 1 <= i < self.chain@.push(parent).len() implies #[trigger] self.chain@.push(parent)[i] != NULL_HWND by {
                if i < self.chain@.len() {
                    assert(self.chain@.push(parent)[i] == self.chain@[i]);
                }
            }
        }
        self.chain = Ghost(self.chain@.push(parent));
        Step::Call(Request::GetParent { hwnd: parent })
    }
}

/// A chain of windows in which no window after the start is null: each was
/// reported as the parent of the one before it.
pub open spec fn parent_chain_ok(chain: Seq<usize>) -> bool {
    forall|i: int| 1 <= i < chain.len() ==> #[trigger] chain[i] != NULL_HWND
}

/// Where a [`TopLevelWindowSearch`] stands.
#[derive(Clone, Copy, Debug, PartialEq, Eq, Structural)]
pub enum TopLevelPhase {
    /// Reading the style of the window reached.
    Style,
    /// Asking for its parent (a child window) or owner (any other).
    Link,
}

/// The operation `GetTopLevelWindow` in progress: from a window, it follows
/// the parent of a child window and the owner of any other window, until
/// there is none.
#[derive(Clone, Copy, Debug)]
pub struct TopLevelWindowSearch {
    /// The window reached.
    pub current: usize,
    /// Whether that window is a child window (known in phase `Link`).
    pub child: bool,
    pub phase: TopLevelPhase,
}

impl TopLevelWindowSearch {
    /// The call this operation waits for.
    pub open spec fn pending(self) -> Request {
        match self.phase {
            TopLevelPhase::Style => Request::GetWindowLong { hwnd: self.current, index: GWL_STYLE },
            TopLevelPhase::Link => if self.child {
                Request::GetParent { hwnd: self.current }
            } else {
                Request::GetWindow { hwnd: self.current, cmd: GW_OWNER }
            },
        }
    }

    /// The call this operation waits for.
    pub fn request(&self) -> (r: Request)
        ensures
            r == self.pending(),
    {
        match self.phase {
            TopLevelPhase::Style => Request::GetWindowLong { hwnd: self.current, index: GWL_STYLE },
            TopLevelPhase::Link => if self.child {
                Request::GetParent { hwnd: self.current }
            } else {
                Request::GetWindow { hwnd: self.current, cmd: GW_OWNER }
            },
        }
    }

    /// Takes the answer to the pending call. The search ends with the first
    /// window whose parent (or owner) is null.
    pub fn advance(&mut self, reply: Reply) -> (s: Step<CWindow>)
        requires
            fits(old(self).pending(), reply),
        ensures
            old(self).phase == TopLevelPhase::Style ==> *final(self) == (TopLevelWindowSearch {
                current: old(self).current,
                child: has_bits(reply->Long_0 as u32, WS_CHILD),
                phase: TopLevelPhase::Link,
            }) && s == Step::<CWindow>::Call(final(self).pending()),
            old(self).phase == TopLevelPhase::Link && reply->Handle_0 == NULL_HWND ==> *final(self) == *old(self)
                && (s matches Step::Done(w) && w@ == old(self).current),
            old(self).phase == TopLevelPhase::Link && reply->Handle_0 != NULL_HWND ==> *final(self) == (TopLevelWindowSearch {
                current: reply->Handle_0,
                child: old(self).child,
                phase: TopLevelPhase::Style,
            }) && s == Step::<CWindow>::Call(final(self).pending()),
    {
        match self.phase {
            TopLevelPhase::Style => {
                let style = #[verifier::truncate] (reply_long(&reply) as u32);
                self.child = is_child_style(style);
                self.phase = TopLevelPhase::Link;
                Step::Call(self.request())
            },
            TopLevelPhase::Link => {
                let next = reply_handle(&reply);
                if next == NULL_HWND {
                    return Step::Done(CWindow::new(self.current));
                }
                self.current = next;
                self.phase = TopLevelPhase::Style;
                Step::Call(self.request())
            },
        }
    }
}

/// Law: the search for the top-level window reads each window's style
/// first, then follows its parent when it is a child window and its owner
/// otherwise.
pub proof fn lemma_top_level_window_calls(op: TopLevelWindowSearch)
    ensures
        op.phase == TopLevelPhase::Style ==> op.pending() == (Request::GetWindowLong { hwnd: op.current, index: GWL_STYLE }),
        op.phase == TopLevelPhase::Link && op.child ==> op.pending() == (Request::GetParent { hwnd: op.current }),
        op.phase == TopLevelPhase::Link && !op.child ==> op.pending() == (Request::GetWindow { hwnd: op.current, cmd: GW_OWNER }),
{
}

/// Law: whether a style makes the search follow the parent: exactly when it
/// has `WS_CHILD`.
pub proof fn lemma_child_style(style: u32)
    ensures
        has_bits(style, WS_CHILD) == ((style & WS_CHILD) != 0),
{
}

impl CWindow {
    /// Starts the search for the top-level parent of this window.
    pub fn GetTopLevelParent(&self) -> (op: TopLevelParentSearch)
        ensures
            op.wf(),
            op.chain() == seq![self@],
            parent_chain_ok(op.chain()),
    {
        TopLevelParentSearch { current: self.GetHwnd(), chain: Ghost(Seq::empty().push(self@)) }
    }

    /// Starts the search for the top-level window that this window belongs
    /// to, through parents and owners.
    pub fn GetTopLevelWindow(&self) -> (op: TopLevelWindowSearch)
        ensures
            op.current == self@,
            op.phase == TopLevelPhase::Style,
    {
        TopLevelWindowSearch { current: self.GetHwnd(), child: false, phase: TopLevelPhase::Style }
    }
}

} // verus!
