//! `ClientToScreen2` and `ScreenToClient2`: convert both corners of a
//! rectangle between client and screen coordinates.
use vstd::prelude::*;
use crate::cwindow::CWindow;
use crate::geometry::{Point, Rect};
use crate::request::{fits, reply_point, Reply, Request, Step};
use crate::win::{is_true, FALSE, TRUE};

verus! {

/// Where a [`RectMappingOp`] stands.
#[derive(Clone, Copy, Debug, PartialEq, Eq, Structural)]
pub enum MappingPhase {
    /// Converting the top-left corner.
    TopLeft,
    /// Converting the bottom-right corner.
    BottomRight,
    /// Done.
    Finished,
}

/// The conversion of a rectangle's two corners in progress.
#[derive(Clone, Copy, Debug)]
pub struct RectMappingOp {
    pub hwnd: usize,
    /// From client to screen coordinates (`ClientToScreen2`), or back.
    pub to_screen: bool,
    /// The rectangle, with the corners converted so far.
    pub rect: Rect,
    pub phase: MappingPhase,
}

impl RectMappingOp {
    /// The conversion call for the point `p`.
    pub open spec fn convert(self, p: Point) -> Request {
        if self.to_screen {
            Request::ClientToScreen { hwnd: self.hwnd, point: p }
        } else {
            Request::ScreenToClient { hwnd: self.hwnd, point: p }
        }
    }

    /// The call this operation waits for.
    pub open spec fn pending(self) -> Request {
        match self.phase {
            MappingPhase::TopLeft => self.convert(Point { x: self.rect.left, y: self.rect.top }),
            _ => self.convert(Point { x: self.rect.right, y: self.rect.bottom }),
        }
    }

    /// The call this operation waits for.
    pub fn request(&self) -> (r: Request)
        ensures
            r == self.pending(),
    {
        let p = match self.phase {
            MappingPhase::TopLeft => self.rect.top_left(),
            _ => self.rect.bottom_right(),
        };
        if self.to_screen {
            Request::ClientToScreen { hwnd: self.hwnd, point: p }
        } else {
            Request::ScreenToClient { hwnd: self.hwnd, point: p }
        }
    }

    /// Takes the converted point. A first conversion that reports `FALSE`
    /// ends the operation with `false`; otherwise the result is whether the
    /// second one reported `TRUE`. The rectangle holds each point as the
    /// call left it.
    pub fn advance(&mut self, reply: Reply) -> (s: Step<(bool, Rect)>)
        requires
            old(self).phase != MappingPhase::Finished,
            fits(old(self).pending(), reply),
        ensures
            final(self).hwnd == old(self).hwnd,
            final(self).to_screen == old(self).to_screen,
            old(self).phase == MappingPhase::TopLeft ==> final(self).rect == (Rect {
                left: reply->point.x,
                top: reply->point.y,
                ..old(self).rect
            }) && if reply->ok == FALSE {
                final(self).phase == MappingPhase::Finished && s == Step::<(bool, Rect)>::Done((false, final(self).rect))
            } else {
                final(self).phase == MappingPhase::BottomRight && s == Step::<(bool, Rect)>::Call(final(self).pending())
            },
            old(self).phase == MappingPhase::BottomRight ==> final(self).rect == (Rect {
                right: reply->point.x,
                bottom: reply->point.y,
                ..old(self).rect
            }) && final(self).phase == MappingPhase::Finished
                && s == Step::<(bool, Rect)>::Done((reply->ok == TRUE, final(self).rect)),
    {
        let (ok, p) = reply_point(&reply);
        match self.phase {
            MappingPhase::TopLeft => {
                self.rect.left = p.x;
                self.rect.top = p.y;
                if ok == FALSE {
                    self.phase = MappingPhase::Finished;
                    return Step::Done((false, self.rect));
                }
                self.phase = MappingPhase::BottomRight;
                Step::Call(self.request())
            },
            _ => {
                self.rect.right = p.x;
                self.rect.bottom = p.y;
                self.phase = MappingPhase::Finished;
                Step::Done((is_true(ok), self.rect))
            },
        }
    }
}

/// Law: both conversions of one operation go the same way, chosen when it
/// starts: `ClientToScreen` for `ClientToScreen2`, `ScreenToClient` for
/// `ScreenToClient2`; the first converts the top-left corner, the second
/// the bottom-right one, both for the operation's window.
pub proof fn lemma_mapping_direction(op: RectMappingOp)
    requires
        op.phase != MappingPhase::Finished,
    ensures
        op.to_screen && op.phase == MappingPhase::TopLeft ==> op.pending() == (Request::ClientToScreen {
            hwnd: op.hwnd,
            point: Point { x: op.rect.left, y: op.rect.top },
        }),
        op.to_screen && op.phase == MappingPhase::BottomRight ==> op.pending() == (Request::ClientToScreen {
            hwnd: op.hwnd,
            point: Point { x: op.rect.right, y: op.rect.bottom },
        }),
        !op.to_screen && op.phase == MappingPhase::TopLeft ==> op.pending() == (Request::ScreenToClient {
            hwnd: op.hwnd,
            point: Point { x: op.rect.left, y: op.rect.top },
        }),
        !op.to_screen && op.phase == MappingPhase::BottomRight ==> op.pending() == (Request::ScreenToClient {
            hwnd: op.hwnd,
            point: Point { x: op.rect.right, y: op.rect.bottom },
        }),
{
}

impl CWindow {
    /// Starts converting `lpRect` from this window's client coordinates to
    /// screen coordinates.
    pub fn ClientToScreen2(&self, lpRect: &Rect) -> (op: RectMappingOp)
        ensures
            op == (RectMappingOp { hwnd: self@, to_screen: true, rect: *lpRect, phase: MappingPhase::TopLeft }),
    {
        RectMappingOp { hwnd: self.GetHwnd(), to_screen: true, rect: *lpRect, phase: MappingPhase::TopLeft }
    }

    /// Starts converting `lpRect` from screen coordinates to this window's
    /// client coordinates.
    pub fn ScreenToClient2(&self, lpRect: &Rect) -> (op: RectMappingOp)
        ensures
            op == (RectMappingOp { hwnd: self@, to_screen: false, rect: *lpRect, phase: MappingPhase::TopLeft }),
    {
        RectMappingOp { hwnd: self.GetHwnd(), to_screen: false, rect: *lpRect, phase: MappingPhase::TopLeft }
    }
}

} // verus!
