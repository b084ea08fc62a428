//! `ResizeClient`: resizes a window so that its client area gets a given
//! size.
use vstd::prelude::*;
use crate::cwindow::CWindow;
use crate::geometry::Rect;
use crate::request::{fits, reply_bool, reply_handle, reply_long, reply_rect, Reply, Request, Step};
use crate::win::{
    has_bits, is_child_style, is_true, FALSE, GWL_EXSTYLE, GWL_STYLE, NULL_HWND, SWP_NOACTIVATE, SWP_NOMOVE,
    SWP_NOREDRAW, SWP_NOZORDER, TRUE, WS_CHILD,
};

verus! {

/// Where a [`ResizeClientOp`] stands.
#[derive(Clone, Copy, Debug, PartialEq, Eq, Structural)]
pub enum ResizePhase {
    /// Reading the client rectangle.
    ClientRect,
    /// Reading the style, to know whether the window has a menu bar.
    MenuStyle,
    /// Reading the menu.
    Menu,
    /// Reading the style to pass on.
    Style,
    /// Reading the extended style to pass on.
    ExStyle,
    /// Turning the client rectangle into a window rectangle.
    Adjust,
    /// Resizing.
    Resize,
    /// Done.
    Finished,
}

/// The `SetWindowPos` flags of `ResizeClient`: keep position, Z order and
/// activation, and skip redrawing when `redraw` is `FALSE`.
pub open spec fn resize_flags(redraw: i32) -> u32 {
    if redraw == FALSE {
        SWP_NOZORDER | SWP_NOMOVE | SWP_NOACTIVATE | SWP_NOREDRAW
    } else {
        SWP_NOZORDER | SWP_NOMOVE | SWP_NOACTIVATE
    }
}

/// The client rectangle `rc` with its right edge set to `width` and its
/// bottom edge to `height`, except where these are `-1`.
pub open spec fn resized_client(rc: Rect, width: i32, height: i32) -> Rect {
    Rect {
        right: if width != -1 { width } else { rc.right },
        bottom: if height != -1 { height } else { rc.bottom },
        ..rc
    }
}

/// The operation `ResizeClient` in progress.
#[derive(Clone, Copy, Debug)]
pub struct ResizeClientOp {
    pub hwnd: usize,
    pub width: i32,
    pub height: i32,
    pub redraw: i32,
    /// The rectangle being worked on.
    pub rect: Rect,
    /// Whether the window has a menu bar.
    pub has_menu: bool,
    pub style: u32,
    pub ex_style: u32,
    pub phase: ResizePhase,
}

impl ResizeClientOp {
    /// The call this operation waits for.
    pub open spec fn pending(self) -> Request {
        match self.phase {
            ResizePhase::ClientRect => Request::GetClientRect { hwnd: self.hwnd },
            ResizePhase::MenuStyle => Request::GetWindowLong { hwnd: self.hwnd, index: GWL_STYLE },
            ResizePhase::Menu => Request::GetMenu { hwnd: self.hwnd },
            ResizePhase::Style => Request::GetWindowLong { hwnd: self.hwnd, index: GWL_STYLE },
            ResizePhase::ExStyle => Request::GetWindowLong { hwnd: self.hwnd, index: GWL_EXSTYLE },
            ResizePhase::Adjust => Request::AdjustWindowRectEx {
                rect: self.rect,
                style: self.style,
                menu: if self.has_menu { TRUE } else { FALSE },
                ex_style: self.ex_style,
            },
            _ => Request::SetWindowPos {
                hwnd: self.hwnd,
                insert_after: NULL_HWND,
                x: 0,
                y: 0,
                cx: (self.rect.right - self.rect.left) as i32,
                cy: (self.rect.bottom - self.rect.top) as i32,
                flags: resize_flags(self.redraw),
            },
        }
    }

    /// The operation after `reply`, and its result if it ended.
    pub open spec fn after(self, reply: Reply) -> (ResizeClientOp, Option<bool>) {
        match self.phase {
            ResizePhase::ClientRect => if reply->result != TRUE {
                (ResizeClientOp { phase: ResizePhase::Finished, ..self }, Some(false))
            } else {
                (ResizeClientOp {
                    rect: resized_client(reply->rect, self.width, self.height),
                    phase: ResizePhase::MenuStyle,
                    ..self
                }, None)
            },
            ResizePhase::MenuStyle => if has_bits(reply->Long_0 as u32, WS_CHILD) {
                (ResizeClientOp { has_menu: false, phase: ResizePhase::Style, ..self }, None)
            } else {
                (ResizeClientOp { phase: ResizePhase::Menu, ..self }, None)
            },
            ResizePhase::Menu => (ResizeClientOp { has_menu: reply->Handle_0 != NULL_HWND, phase: ResizePhase::Style, ..self }, None),
            ResizePhase::Style => (ResizeClientOp { style: reply->Long_0 as u32, phase: ResizePhase::ExStyle, ..self }, None),
            ResizePhase::ExStyle => (ResizeClientOp { ex_style: reply->Long_0 as u32, phase: ResizePhase::Adjust, ..self }, None),
            ResizePhase::Adjust => if reply->result == TRUE {
                (ResizeClientOp { rect: reply->rect, phase: ResizePhase::Finished, ..self }, Some(false))
            } else {
                (ResizeClientOp { rect: reply->rect, phase: ResizePhase::Resize, ..self }, None)
            },
            _ => (ResizeClientOp { phase: ResizePhase::Finished, ..self }, Some(reply->Bool_0 == TRUE)),
        }
    }

    /// What `advance` needs of a reply: it answers the pending call, and a
    /// rectangle that will be resized to has a width and height that fit.
    pub open spec fn accepts(self, reply: Reply) -> bool {
        &&& self.phase != ResizePhase::Finished
        &&& fits(self.pending(), reply)
        &&& (self.phase == ResizePhase::Adjust && reply->result != TRUE ==> reply->rect.size_fits())
    }

    /// Whether `advance` can take `reply`.
    pub fn can_accept(&self, reply: &Reply) -> (b: bool)
        ensures
            b == self.accepts(*reply),
    {
        match (self.phase, reply) {
            (ResizePhase::ClientRect, Reply::RectOut { .. }) => true,
            (ResizePhase::MenuStyle, Reply::Long(_)) => true,
            (ResizePhase::Menu, Reply::Handle(_)) => true,
            (ResizePhase::Style, Reply::Long(_)) => true,
            (ResizePhase::ExStyle, Reply::Long(_)) => true,
            (ResizePhase::Adjust, Reply::RectOut { result, rect }) => *result == TRUE || rect.size_fits_exec(),
            (ResizePhase::Resize, Reply::Bool(_)) => true,
            _ => false,
        }
    }

    /// The call this operation waits for.
    pub fn request(&self) -> (r: Request)
        requires
            self.phase != ResizePhase::Finished,
            self.phase == ResizePhase::Resize ==> self.rect.size_fits(),
        ensures
            r == self.pending(),
    {
        match self.phase {
            ResizePhase::ClientRect => Request::GetClientRect { hwnd: self.hwnd },
            ResizePhase::MenuStyle => Request::GetWindowLong { hwnd: self.hwnd, index: GWL_STYLE },
            ResizePhase::Menu => Request::GetMenu { hwnd: self.hwnd },
            ResizePhase::Style => Request::GetWindowLong { hwnd: self.hwnd, index: GWL_STYLE },
            ResizePhase::ExStyle => Request::GetWindowLong { hwnd: self.hwnd, index: GWL_EXSTYLE },
            ResizePhase::Adjust => Request::AdjustWindowRectEx {
                rect: self.rect,
                style: self.style,
                menu: if self.has_menu { TRUE } else { FALSE },
                ex_style: self.ex_style,
            },
            _ => {
                let mut flags: u32 = SWP_NOZORDER | SWP_NOMOVE | SWP_NOACTIVATE;
                if self.redraw == FALSE {
                    flags = flags | SWP_NOREDRAW;
                }
                Request::SetWindowPos {
                    hwnd: self.hwnd,
                    insert_after: NULL_HWND,
                    x: 0,
                    y: 0,
                    cx: self.rect.width(),
                    cy: self.rect.height(),
                    flags,
                }
            },
        }
    }

    /// Takes the answer to the pending call. The result is `false` when the
    /// client rectangle could not be read, and also when `AdjustWindowRectEx`
    /// reports `TRUE`; otherwise it is whether the final `SetWindowPos`
    /// reported `TRUE`.
    pub fn advance(&mut self, reply: Reply) -> (s: Step<bool>)
        requires
            old(self).accepts(reply),
        ensures
            *final(self) == old(self).after(reply).0,
            old(self).after(reply).1 matches Some(b) ==> s == Step::<bool>::Done(b),
            old(self).after(reply).1 is None ==> s == Step::<bool>::Call(final(self).pending()),
    {
        match self.phase {
            ResizePhase::ClientRect => {
                let (ok, rect) = reply_rect(&reply);
                if !is_true(ok) {
                    self.phase = ResizePhase::Finished;
                    return Step::Done(false);
                }
                let mut rc = rect;
                if self.width != -1 {
                    rc.right = self.width;
                }
                if self.height != -1 {
                    rc.bottom = self.height;
                }
                self.rect = rc;
                self.phase = ResizePhase::MenuStyle;
            },
            ResizePhase::MenuStyle => {
                let s = #[verifier::truncate] (reply_long(&reply) as u32);
                if is_child_style(s) {
                    self.has_menu = false;
                    self.phase = ResizePhase::Style;
                } else {
                    self.phase = ResizePhase::Menu;
                }
            },
            ResizePhase::Menu => {
                self.has_menu = reply_handle(&reply) != NULL_HWND;
                self.phase = ResizePhase::Style;
            },
            ResizePhase::Style => {
                self.style = #[verifier::truncate] (reply_long(&reply) as u32);
                self.phase = ResizePhase::ExStyle;
            },
            ResizePhase::ExStyle => {
                self.ex_style = #[verifier::truncate] (reply_long(&reply) as u32);
                self.phase = ResizePhase::Adjust;
            },
            ResizePhase::Adjust => {
                let (ok, rect) = reply_rect(&reply);
                self.rect = rect;
                if is_true(ok) {
                    self.phase = ResizePhase::Finished;
                    return Step::Done(false);
                }
                self.phase = ResizePhase::Resize;
            },
            _ => {
                self.phase = ResizePhase::Finished;
                return Step::Done(is_true(reply_bool(&reply)));
            },
        }
        Step::Call(self.request())
    }
}

/// Law: the menu flag that `AdjustWindowRectEx` gets is `TRUE` exactly
/// when the window is not a child window and `GetMenu` returned a non-null
/// menu; the style and extended style passed are the ones read last, and
/// the rectangle is the resized client rectangle. For a child window the
/// menu is not asked for.
pub proof fn lemma_resize_menu_flag(op: ResizeClientOp, s1: i32, menu: usize, s2: i32, ex: i32)
    requires
        op.phase == ResizePhase::MenuStyle,
    ensures
        (s1 as u32 & WS_CHILD) != 0 ==> ({
            let o1 = op.after(Reply::Long(s1)).0;
            let o2 = o1.after(Reply::Long(s2)).0;
            let o3 = o2.after(Reply::Long(ex)).0;
            &&& o1.pending() == (Request::GetWindowLong { hwnd: op.hwnd, index: GWL_STYLE })
            &&& o2.pending() == (Request::GetWindowLong { hwnd: op.hwnd, index: GWL_EXSTYLE })
            &&& o3.pending() == (Request::AdjustWindowRectEx { rect: op.rect, style: s2 as u32, menu: FALSE, ex_style: ex as u32 })
        }),
        (s1 as u32 & WS_CHILD) == 0 ==> ({
            let o1 = op.after(Reply::Long(s1)).0;
            let o2 = o1.after(Reply::Handle(menu)).0;
            let o3 = o2.after(Reply::Long(s2)).0;
            let o4 = o3.after(Reply::Long(ex)).0;
            &&& o1.pending() == (Request::GetMenu { hwnd: op.hwnd })
            &&& o2.pending() == (Request::GetWindowLong { hwnd: op.hwnd, index: GWL_STYLE })
            &&& o3.pending() == (Request::GetWindowLong { hwnd: op.hwnd, index: GWL_EXSTYLE })
            &&& o4.pending() == (Request::AdjustWindowRectEx {
                rect: op.rect,
                style: s2 as u32,
                menu: if menu != NULL_HWND { TRUE } else { FALSE },
                ex_style: ex as u32,
            })
        }),
{
}

/// Law: the final `SetWindowPos` resizes the window itself, in place, to the
/// adjusted rectangle's width and height: its flags always hold
/// `SWP_NOMOVE`, `SWP_NOZORDER` and `SWP_NOACTIVATE`, hold `SWP_NOREDRAW`
/// exactly when `bRedraw` is `FALSE`, and nothing else.
pub proof fn lemma_resize_request(op: ResizeClientOp)
    requires
        op.phase == ResizePhase::Resize,
    ensures
        op.pending() matches Request::SetWindowPos { hwnd, insert_after, x, y, cx, cy, flags } && hwnd == op.hwnd
            && insert_after == NULL_HWND && x == 0 && y == 0
            && cx == (op.rect.right - op.rect.left) as i32 && cy == (op.rect.bottom - op.rect.top) as i32
            && flags & SWP_NOMOVE != 0 && flags & SWP_NOZORDER != 0 && flags & SWP_NOACTIVATE != 0
            && (flags & SWP_NOREDRAW != 0) == (op.redraw == FALSE)
            && flags & !(SWP_NOMOVE | SWP_NOZORDER | SWP_NOACTIVATE | SWP_NOREDRAW) == 0,
{
    assert((0x4u32 | 0x2u32 | 0x10u32 | 0x8u32) & 0x2u32 != 0 && (0x4u32 | 0x2u32 | 0x10u32 | 0x8u32) & 0x4u32 != 0
        && (0x4u32 | 0x2u32 | 0x10u32 | 0x8u32) & 0x10u32 != 0 && (0x4u32 | 0x2u32 | 0x10u32 | 0x8u32) & 0x8u32 != 0
        && (0x4u32 | 0x2u32 | 0x10u32 | 0x8u32) & !(0x2u32 | 0x4u32 | 0x10u32 | 0x8u32) == 0) by (bit_vector);
    assert((0x4u32 | 0x2u32 | 0x10u32) & 0x2u32 != 0 && (0x4u32 | 0x2u32 | 0x10u32) & 0x4u32 != 0
        && (0x4u32 | 0x2u32 | 0x10u32) & 0x10u32 != 0 && (0x4u32 | 0x2u32 | 0x10u32) & 0x8u32 == 0
        && (0x4u32 | 0x2u32 | 0x10u32) & !(0x2u32 | 0x4u32 | 0x10u32 | 0x8u32) == 0) by (bit_vector);
}

/// Law: a client rectangle that cannot be read ends the operation with
/// `false`; a readable one gets its right edge set to the requested width
/// and its bottom edge to the requested height, `-1` keeping an edge.
pub proof fn lemma_resize_client_rect(op: ResizeClientOp, reply: Reply)
    requires
        op.phase == ResizePhase::ClientRect,
        reply is RectOut,
    ensures
        op.pending() == (Request::GetClientRect { hwnd: op.hwnd }),
        reply->result != TRUE ==> op.after(reply).1 == Some(false),
        reply->result == TRUE ==> op.after(reply).1 is None && ({
            let r = op.after(reply).0.rect;
            &&& r.left == reply->rect.left && r.top == reply->rect.top
            &&& r.right == if op.width == -1 { reply->rect.right } else { op.width }
            &&& r.bottom == if op.height == -1 { reply->rect.bottom } else { op.height }
        }),
{
}

/// Law: after `AdjustWindowRectEx`, a `TRUE` report ends the operation with
/// `false` and nothing is resized; any other report goes on to resize the
/// window to the rectangle the call left. The last `SetWindowPos` decides
/// the result: `true` exactly when it reports `TRUE`.
pub proof fn lemma_resize_adjust_and_result(op: ResizeClientOp, reply: Reply)
    ensures
        op.phase == ResizePhase::Adjust && reply is RectOut && reply->result == TRUE ==> op.after(reply).1 == Some(false),
        op.phase == ResizePhase::Adjust && reply is RectOut && reply->result != TRUE ==> op.after(reply).1 is None
            && op.after(reply).0.phase == ResizePhase::Resize && op.after(reply).0.rect == reply->rect,
        op.phase == ResizePhase::Resize && reply is Bool ==> op.after(reply).1 == Some(reply->Bool_0 == TRUE),
{
}

impl CWindow {
    /// Starts resizing this window so that its client area is `nWidth` by
    /// `nHeight` (`-1` keeps a dimension); the window is redrawn unless
    /// `bRedraw` is `FALSE`.
    pub fn ResizeClient(&self, nWidth: i32, nHeight: i32, bRedraw: i32) -> (op: ResizeClientOp)
        ensures
            op.hwnd == self@,
            op.width == nWidth,
            op.height == nHeight,
            op.redraw == bRedraw,
            op.phase == ResizePhase::ClientRect,
    {
        ResizeClientOp {
            hwnd: self.GetHwnd(),
            width: nWidth,
            height: nHeight,
            redraw: bRedraw,
            rect: Rect::zero(),
            has_menu: false,
            style: 0,
            ex_style: 0,
            phase: ResizePhase::ClientRect,
        }
    }
}

} // verus!
