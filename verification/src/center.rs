//! `CenterWindow`: places a window over another one, or over the work area
//! of its monitor, without letting it leave that area.
use vstd::prelude::*;
use crate::cwindow::CWindow;
use crate::geometry::{center_origin, center_origin_fits, centered_origin, centered_origin_fits, lemma_centered_stays_inside, Rect};
use crate::request::{fits, reply_handle, reply_long, reply_rect, reply_bool, Reply, Request, Step};
use crate::win::{
    has_bits, is_child_style, GWL_STYLE, GW_OWNER, MONITOR_DEFAULTTONEAREST, NULL_HWND,
    SWP_NOACTIVATE, SWP_NOSIZE, SWP_NOZORDER, WS_CHILD, WS_MINIMIZE, WS_VISIBLE,
};

verus! {

/// Where a [`CenterWindowOp`] stands: the call it waits for.
#[derive(Clone, Copy, Debug, PartialEq, Eq, Structural)]
pub enum CenterPhase {
    /// The window's style.
    Style,
    /// The window to centre on, when none was given: the parent of a child
    /// window, the owner of any other.
    CenterLink,
    /// The window's own rectangle.
    DialogRect,
    /// The style of the window to centre on (not for child windows).
    CenterStyle,
    /// The monitor nearest to the window to centre on, or to the window.
    Monitor,
    /// The work area of that monitor.
    WorkArea,
    /// The rectangle of the window to centre on.
    CenterRect,
    /// The parent of a child window.
    Parent,
    /// The client area of that parent.
    ParentClient,
    /// The client area of the window to centre on.
    CenterClient,
    /// That client area in the parent's coordinates.
    MapCenter,
    /// The move itself.
    Move,
    /// Nothing more: the result was returned.
    Finished,
}

/// The flags with which `CenterWindow` moves the window: keep its size, its
/// Z order and its activation.
pub open spec fn center_move_flags() -> u32 {
    SWP_NOSIZE | SWP_NOZORDER | SWP_NOACTIVATE
}

/// A window style that a window can be centred on: visible and not minimized.
pub open spec fn centerable_style(style: u32) -> bool {
    has_bits(style, WS_VISIBLE) && !has_bits(style, WS_MINIMIZE)
}

/// The operation `CenterWindow` in progress.
#[derive(Clone, Copy, Debug)]
pub struct CenterWindowOp {
    /// The window to move.
    pub hwnd: usize,
    /// The window to centre on; null for the work area of the monitor.
    pub center: usize,
    /// The style of the window to move.
    pub style: u32,
    /// The rectangle of the window to move, in screen coordinates.
    pub dialog: Rect,
    /// The monitor found for a top-level window.
    pub monitor: usize,
    /// The parent of a child window.
    pub parent: usize,
    /// The area the window must stay in.
    pub area: Rect,
    /// The rectangle to centre on, in the coordinates of `area`.
    pub center_rect: Rect,
    /// Where the window goes.
    pub x: i32,
    pub y: i32,
    pub phase: CenterPhase,
}

impl CenterWindowOp {
    /// Whether the window to move is a child window.
    pub open spec fn is_child(self) -> bool {
        has_bits(self.style, WS_CHILD)
    }

    /// The call this operation waits for.
    pub open spec fn pending(self) -> Request {
        match self.phase {
            CenterPhase::Style => Request::GetWindowLong { hwnd: self.hwnd, index: GWL_STYLE },
            CenterPhase::CenterLink => if self.is_child() {
                Request::GetParent { hwnd: self.hwnd }
            } else {
                Request::GetWindow { hwnd: self.hwnd, cmd: GW_OWNER }
            },
            CenterPhase::DialogRect => Request::GetWindowRect { hwnd: self.hwnd },
            CenterPhase::CenterStyle => Request::GetWindowLong { hwnd: self.center, index: GWL_STYLE },
            CenterPhase::Monitor => Request::MonitorFromWindow {
                hwnd: if self.center != NULL_HWND { self.center } else { self.hwnd },
                flags: MONITOR_DEFAULTTONEAREST,
            },
            CenterPhase::WorkArea => Request::GetMonitorWorkArea { monitor: self.monitor },
            CenterPhase::CenterRect => Request::GetWindowRect { hwnd: self.center },
            CenterPhase::Parent => Request::GetParent { hwnd: self.hwnd },
            CenterPhase::ParentClient => Request::GetClientRect { hwnd: self.parent },
            CenterPhase::CenterClient => Request::GetClientRect { hwnd: self.center },
            CenterPhase::MapCenter => Request::MapWindowRect { from: self.center, to: self.parent, rect: self.center_rect },
            _ => Request::SetWindowPos {
                hwnd: self.hwnd,
                insert_after: NULL_HWND,
                x: self.x,
                y: self.y,
                cx: -1i32,
                cy: -1i32,
                flags: center_move_flags(),
            },
        }
    }

    /// This operation once the rectangle to centre on is known: the position
    /// is computed and the move comes next.
    pub open spec fn placed(self, center_rect: Rect) -> CenterWindowOp {
        CenterWindowOp {
            center_rect,
            x: centered_origin(self.dialog, center_rect, self.area).0 as i32,
            y: centered_origin(self.dialog, center_rect, self.area).1 as i32,
            phase: CenterPhase::Move,
            ..self
        }
    }

    /// The operation after `reply` answered the pending call.
    pub open spec fn after(self, reply: Reply) -> CenterWindowOp {
        match self.phase {
            CenterPhase::Style => {
                let style = reply->Long_0 as u32;
                CenterWindowOp {
                    style,
                    phase: if self.center == NULL_HWND { CenterPhase::CenterLink } else { CenterPhase::DialogRect },
                    ..self
                }
            },
            CenterPhase::CenterLink => CenterWindowOp {
                center: reply->Handle_0,
                phase: CenterPhase::DialogRect,
                ..self
            },
            CenterPhase::DialogRect => CenterWindowOp {
                dialog: reply->rect,
                phase: if self.is_child() {
                    CenterPhase::Parent
                } else if self.center != NULL_HWND {
                    CenterPhase::CenterStyle
                } else {
                    CenterPhase::Monitor
                },
                ..self
            },
            CenterPhase::CenterStyle => CenterWindowOp {
                center: if centerable_style(reply->Long_0 as u32) { self.center } else { NULL_HWND },
                phase: CenterPhase::Monitor,
                ..self
            },
            CenterPhase::Monitor => CenterWindowOp {
                monitor: reply->Handle_0,
                phase: CenterPhase::WorkArea,
                ..self
            },
            CenterPhase::WorkArea => {
                let with_area = CenterWindowOp { area: reply->rect, ..self };
                if self.center == NULL_HWND {
                    with_area.placed(reply->rect)
                } else {
                    CenterWindowOp { phase: CenterPhase::CenterRect, ..with_area }
                }
            },
            CenterPhase::CenterRect => self.placed(reply->rect),
            CenterPhase::Parent => CenterWindowOp {
                parent: reply->Handle_0,
                phase: CenterPhase::ParentClient,
                ..self
            },
            CenterPhase::ParentClient => CenterWindowOp {
                area: reply->rect,
                phase: CenterPhase::CenterClient,
                ..self
            },
            CenterPhase::CenterClient => CenterWindowOp {
                center_rect: reply->rect,
                phase: CenterPhase::MapCenter,
                ..self
            },
            CenterPhase::MapCenter => self.placed(reply->rect),
            CenterPhase::Move => CenterWindowOp { phase: CenterPhase::Finished, ..self },
            CenterPhase::Finished => self,
        }
    }

    /// The rectangle to centre on and the area to stay in, when `reply`
    /// completes them.
    pub open spec fn completes_center(self, reply: Reply) -> Option<(Rect, Rect)> {
        match self.phase {
            CenterPhase::WorkArea => if self.center == NULL_HWND { Some((reply->rect, reply->rect)) } else { None },
            CenterPhase::CenterRect => Some((reply->rect, self.area)),
            CenterPhase::MapCenter => Some((reply->rect, self.area)),
            _ => None,
        }
    }

    /// What `advance` needs of a reply: it answers the pending call, and
    /// where it completes the rectangle to centre on, the position can be
    /// computed on `int`s without overflow.
    pub open spec fn accepts(self, reply: Reply) -> bool {
        &&& self.phase != CenterPhase::Finished
        &&& fits(self.pending(), reply)
        &&& (self.completes_center(reply) matches Some((c, a)) ==> centered_origin_fits(self.dialog, c, a))
    }

    /// Whether `advance` can take `reply`.
    pub fn can_accept(&self, reply: &Reply) -> (b: bool)
        ensures
            b == self.accepts(*reply),
    {
        if self.phase == CenterPhase::Finished {
            return false;
        }
        let req = self.request();
        let shape = match (req, reply) {
            (Request::GetWindowLong { .. }, Reply::Long(_)) => true,
            (Request::GetParent { .. }, Reply::Handle(_)) => true,
            (Request::GetWindow { .. }, Reply::Handle(_)) => true,
            (Request::MonitorFromWindow { .. }, Reply::Handle(_)) => true,
            (Request::GetWindowRect { .. }, Reply::RectOut { .. }) => true,
            (Request::GetClientRect { .. }, Reply::RectOut { .. }) => true,
            (Request::GetMonitorWorkArea { .. }, Reply::RectOut { .. }) => true,
            (Request::MapWindowRect { .. }, Reply::RectOut { .. }) => true,
            (Request::SetWindowPos { .. }, Reply::Bool(_)) => true,
            _ => false,
        };
        if !shape {
            return false;
        }
        let (_, rect) = match reply {
            Reply::RectOut { .. } => reply_rect(reply),
            _ => (0, Rect::zero()),
        };
        match self.phase {
            CenterPhase::WorkArea => self.center != NULL_HWND || center_origin_fits(&self.dialog, &rect, &rect),
            CenterPhase::CenterRect => center_origin_fits(&self.dialog, &rect, &self.area),
            CenterPhase::MapCenter => center_origin_fits(&self.dialog, &rect, &self.area),
            _ => true,
        }
    }

    /// The call this operation waits for.
    pub fn request(&self) -> (r: Request)
        requires
            self.phase != CenterPhase::Finished,
        ensures
            r == self.pending(),
    {
        match self.phase {
            CenterPhase::Style => Request::GetWindowLong { hwnd: self.hwnd, index: GWL_STYLE },
            CenterPhase::CenterLink => if is_child_style(self.style) {
                Request::GetParent { hwnd: self.hwnd }
            } else {
                Request::GetWindow { hwnd: self.hwnd, cmd: GW_OWNER }
            },
            CenterPhase::DialogRect => Request::GetWindowRect { hwnd: self.hwnd },
            CenterPhase::CenterStyle => Request::GetWindowLong { hwnd: self.center, index: GWL_STYLE },
            CenterPhase::Monitor => Request::MonitorFromWindow {
                hwnd: if self.center != NULL_HWND { self.center } else { self.hwnd },
                flags: MONITOR_DEFAULTTONEAREST,
            },
            CenterPhase::WorkArea => Request::GetMonitorWorkArea { monitor: self.monitor },
            CenterPhase::CenterRect => Request::GetWindowRect { hwnd: self.center },
            CenterPhase::Parent => Request::GetParent { hwnd: self.hwnd },
            CenterPhase::ParentClient => Request::GetClientRect { hwnd: self.parent },
            CenterPhase::CenterClient => Request::GetClientRect { hwnd: self.center },
            CenterPhase::MapCenter => Request::MapWindowRect { from: self.center, to: self.parent, rect: self.center_rect },
            _ => Request::SetWindowPos {
                hwnd: self.hwnd,
                insert_after: NULL_HWND,
                x: self.x,
                y: self.y,
                cx: -1,
                cy: -1,
                flags: SWP_NOSIZE | SWP_NOZORDER | SWP_NOACTIVATE,
            },
        }
    }

    fn place(&mut self, center_rect: Rect)
        requires
            centered_origin_fits(old(self).dialog, center_rect, old(self).area),
        ensures
            *final(self) == old(self).placed(center_rect),
    {
        let p = center_origin(&self.dialog, &center_rect, &self.area);
        self.center_rect = center_rect;
        self.x = p.x;
        self.y = p.y;
        self.phase = CenterPhase::Move;
    }

    /// Takes the answer to the pending call. The result of the operation is
    /// what the final `SetWindowPos` returned.
    pub fn advance(&mut self, reply: Reply) -> (s: Step<i32>)
        requires
            old(self).accepts(reply),
        ensures
            *final(self) == old(self).after(reply),
            final(self).phase == CenterPhase::Move ==> final(self).x == centered_origin(final(self).dialog, final(self).center_rect, final(self).area).0
                && final(self).y == centered_origin(final(self).dialog, final(self).center_rect, final(self).area).1,
            final(self).phase == CenterPhase::Finished ==> s == Step::<i32>::Done(reply->Bool_0),
            final(self).phase != CenterPhase::Finished ==> s == Step::<i32>::Call(final(self).pending()),
    {
        match self.phase {
            CenterPhase::Style => {
                self.style = #[verifier::truncate] (reply_long(&reply) as u32);
                self.phase = if self.center == NULL_HWND { CenterPhase::CenterLink } else { CenterPhase::DialogRect };
            },
            CenterPhase::CenterLink => {
                self.center = reply_handle(&reply);
                self.phase = CenterPhase::DialogRect;
            },
            CenterPhase::DialogRect => {
                let (_, r) = reply_rect(&reply);
                self.dialog = r;
                self.phase = if is_child_style(self.style) {
                    CenterPhase::Parent
                } else if self.center != NULL_HWND {
                    CenterPhase::CenterStyle
                } else {
                    CenterPhase::Monitor
                };
            },
            CenterPhase::CenterStyle => {
                let s = #[verifier::truncate] (reply_long(&reply) as u32);
                if !((s & WS_VISIBLE) != 0 && (s & WS_MINIMIZE) == 0) {
                    self.center = NULL_HWND;
                }
                self.phase = CenterPhase::Monitor;
            },
            CenterPhase::Monitor => {
                self.monitor = reply_handle(&reply);
                self.phase = CenterPhase::WorkArea;
            },
            CenterPhase::WorkArea => {
                let (_, r) = reply_rect(&reply);
                self.area = r;
                if self.center == NULL_HWND {
                    self.place(r);
                } else {
                    self.phase = CenterPhase::CenterRect;
                }
            },
            CenterPhase::CenterRect => {
                let (_, r) = reply_rect(&reply);
                self.place(r);
            },
            CenterPhase::Parent => {
                self.parent = reply_handle(&reply);
                self.phase = CenterPhase::ParentClient;
            },
            CenterPhase::ParentClient => {
                let (_, r) = reply_rect(&reply);
                self.area = r;
                self.phase = CenterPhase::CenterClient;
            },
            CenterPhase::CenterClient => {
                let (_, r) = reply_rect(&reply);
                self.center_rect = r;
                self.phase = CenterPhase::MapCenter;
            },
            CenterPhase::MapCenter => {
                let (_, r) = reply_rect(&reply);
                self.place(r);
            },
            CenterPhase::Move => {
                self.phase = CenterPhase::Finished;
                return Step::Done(reply_bool(&reply));
            },
            CenterPhase::Finished => {},
        }
        Step::Call(self.request())
    }
}

/// Law: how each answer moves `CenterWindow` on, in terms of the calls
/// made: the style first, then (only without an explicit centre) the window
/// to centre on, then the window's own rectangle; a top-level window then
/// gets its monitor's work area and, with a centre, that centre's
/// rectangle; a child window gets its parent, the parent's client area, the
/// centre's client area, and that area mapped into the parent.
pub proof fn lemma_center_steps(op: CenterWindowOp, reply: Reply)
    requires
        fits(op.pending(), reply),
    ensures
        op.phase == CenterPhase::Style ==> op.after(reply).style == reply->Long_0 as u32 && op.after(reply).center == op.center
            && (op.center == NULL_HWND ==> op.after(reply).phase == CenterPhase::CenterLink)
            && (op.center != NULL_HWND ==> op.after(reply).pending() == (Request::GetWindowRect { hwnd: op.hwnd })),
        op.phase == CenterPhase::CenterLink ==> op.after(reply).center == reply->Handle_0
            && op.after(reply).pending() == (Request::GetWindowRect { hwnd: op.hwnd }),
        op.phase == CenterPhase::Monitor ==> op.after(reply).pending() == (Request::GetMonitorWorkArea { monitor: reply->Handle_0 }),
        op.phase == CenterPhase::WorkArea && op.center != NULL_HWND ==> op.after(reply).area == reply->rect
            && op.after(reply).pending() == (Request::GetWindowRect { hwnd: op.center }),
        op.phase == CenterPhase::CenterRect ==> op.after(reply).phase == CenterPhase::Move
            && op.after(reply).area == op.area && op.after(reply).center_rect == reply->rect,
        op.phase == CenterPhase::Parent ==> op.after(reply).pending() == (Request::GetClientRect { hwnd: reply->Handle_0 }),
        op.phase == CenterPhase::ParentClient ==> op.after(reply).area == reply->rect
            && op.after(reply).pending() == (Request::GetClientRect { hwnd: op.center }),
        op.phase == CenterPhase::CenterClient ==> op.after(reply).pending() == (Request::MapWindowRect {
            from: op.center,
            to: op.parent,
            rect: reply->rect,
        }),
        op.phase == CenterPhase::MapCenter ==> op.after(reply).phase == CenterPhase::Move
            && op.after(reply).area == op.area && op.after(reply).center_rect == reply->rect,
        op.phase != CenterPhase::Finished ==> op.after(reply).hwnd == op.hwnd,
{
}

/// Law: once the style of the window to centre on is known, that window is
/// kept only when it is visible (`WS_VISIBLE` set) and not minimized
/// (`WS_MINIMIZE` clear). Otherwise it is dropped, and the monitor is looked
/// up from the window being moved itself.
pub proof fn lemma_center_drops_hidden_or_minimized(op: CenterWindowOp, reply: Reply)
    requires
        op.phase == CenterPhase::CenterStyle,
        reply is Long,
    ensures
        ({
            let s = reply->Long_0 as u32;
            let usable = (s & WS_VISIBLE) != 0 && (s & WS_MINIMIZE) == 0;
            let next = op.after(reply);
            &&& next.phase == CenterPhase::Monitor
            &&& next.hwnd == op.hwnd
            &&& next.dialog == op.dialog
            &&& (usable ==> next.center == op.center)
            &&& (!usable ==> next.center == NULL_HWND)
            &&& (!usable ==> next.pending() == (Request::MonitorFromWindow { hwnd: op.hwnd, flags: MONITOR_DEFAULTTONEAREST }))
            &&& (usable && op.center != NULL_HWND ==> next.pending() == (Request::MonitorFromWindow {
                hwnd: op.center,
                flags: MONITOR_DEFAULTTONEAREST,
            }))
        }),
{
}

/// Law: with no window to centre on, a top-level window is centred on the
/// work area of its monitor and kept inside it: the work area is both the
/// rectangle centred on and the area, and the move comes next.
pub proof fn lemma_center_on_work_area(op: CenterWindowOp, reply: Reply)
    requires
        op.phase == CenterPhase::WorkArea,
        op.center == NULL_HWND,
        reply is RectOut,
    ensures
        ({
            let a = reply->rect;
            let next = op.after(reply);
            &&& next.phase == CenterPhase::Move
            &&& next.area == a
            &&& next.center_rect == a
            &&& next.x as int == centered_origin(op.dialog, a, a).0 as i32
            &&& next.y as int == centered_origin(op.dialog, a, a).1 as i32
        }),
{
}

/// Law: which window a window without an explicit centre is centred on: its
/// parent when it is a child window (`WS_CHILD`), its owner otherwise.
pub proof fn lemma_center_default_link(op: CenterWindowOp)
    requires
        op.phase == CenterPhase::CenterLink,
    ensures
        (op.style & WS_CHILD) != 0 ==> op.pending() == (Request::GetParent { hwnd: op.hwnd }),
        (op.style & WS_CHILD) == 0 ==> op.pending() == (Request::GetWindow { hwnd: op.hwnd, cmd: GW_OWNER }),
{
}

/// Law: after the window's own rectangle, a child window goes on with its
/// parent's client area; a top-level window with a centre checks that
/// centre's style; a top-level window without one looks up its monitor.
pub proof fn lemma_center_branches(op: CenterWindowOp, reply: Reply)
    requires
        op.phase == CenterPhase::DialogRect,
        reply is RectOut,
    ensures
        op.after(reply).dialog == reply->rect,
        (op.style & WS_CHILD) != 0 ==> op.after(reply).pending() == (Request::GetParent { hwnd: op.hwnd }),
        (op.style & WS_CHILD) == 0 && op.center != NULL_HWND ==> op.after(reply).pending() == (Request::GetWindowLong {
            hwnd: op.center,
            index: GWL_STYLE,
        }),
        (op.style & WS_CHILD) == 0 && op.center == NULL_HWND ==> op.after(reply).pending() == (Request::MonitorFromWindow {
            hwnd: op.hwnd,
            flags: MONITOR_DEFAULTTONEAREST,
        }),
{
}

/// Law: the move keeps the window's size, Z order and activation: it is a
/// `SetWindowPos` of the window itself to `(x, y)`, with `-1` for the size,
/// no window to insert after, and exactly the flags `SWP_NOSIZE`,
/// `SWP_NOZORDER` and `SWP_NOACTIVATE`.
pub proof fn lemma_center_move_request(op: CenterWindowOp)
    requires
        op.phase == CenterPhase::Move,
    ensures
        op.pending() matches Request::SetWindowPos { hwnd, insert_after, x, y, cx, cy, flags } && hwnd == op.hwnd
            && insert_after == NULL_HWND && x == op.x && y == op.y && cx == -1 && cy == -1
            && flags & SWP_NOSIZE != 0 && flags & SWP_NOZORDER != 0 && flags & SWP_NOACTIVATE != 0
            && flags & !(SWP_NOSIZE | SWP_NOZORDER | SWP_NOACTIVATE) == 0,
{
    assert((0x1u32 | 0x4u32 | 0x10u32) & 0x1u32 != 0 && (0x1u32 | 0x4u32 | 0x10u32) & 0x4u32 != 0
        && (0x1u32 | 0x4u32 | 0x10u32) & 0x10u32 != 0 && (0x1u32 | 0x4u32 | 0x10u32) & !(0x1u32 | 0x4u32 | 0x10u32) == 0)
        by (bit_vector);
}

/// Law: when the window fits in the area (along an axis), the move that
/// `CenterWindow` makes puts it wholly inside the area (along that axis).
pub proof fn lemma_center_move_inside(op: CenterWindowOp)
    requires
        op.x == centered_origin(op.dialog, op.center_rect, op.area).0,
        op.y == centered_origin(op.dialog, op.center_rect, op.area).1,
    ensures
        op.dialog.width_spec() <= op.area.width_spec() ==> op.area.left <= op.x && op.x + op.dialog.width_spec() <= op.area.right,
        op.dialog.height_spec() <= op.area.height_spec() ==> op.area.top <= op.y && op.y + op.dialog.height_spec() <= op.area.bottom,
{
    lemma_centered_stays_inside(
        op.dialog.left as int, op.dialog.right as int, op.center_rect.left as int, op.center_rect.right as int,
        op.area.left as int, op.area.right as int,
    );
    lemma_centered_stays_inside(
        op.dialog.top as int, op.dialog.bottom as int, op.center_rect.top as int, op.center_rect.bottom as int,
        op.area.top as int, op.area.bottom as int,
    );
}

impl CWindow {
    /// Starts centring this window on `hCenter`; with the null handle, on
    /// the window's parent (a child window) or owner (any other window), or,
    /// failing those, on the work area of the nearest monitor.
    pub fn CenterWindow(&self, hCenter: usize) -> (op: CenterWindowOp)
        ensures
            op.hwnd == self@,
            op.center == hCenter,
            op.phase == CenterPhase::Style,
            op.pending() == (Request::GetWindowLong { hwnd: self@, index: GWL_STYLE }),
    {
        let z = Rect::zero();
        CenterWindowOp {
            hwnd: self.GetHwnd(),
            center: hCenter,
            style: 0,
            dialog: z,
            monitor: NULL_HWND,
            parent: NULL_HWND,
            area: z,
            center_rect: z,
            x: 0,
            y: 0,
            phase: CenterPhase::Style,
        }
    }
}

} // verus!
