//! The calls into the window manager that the library's operations ask for,
//! and the answers they expect back.
//!
//! An operation of this library is a state machine. It hands out one
//! [`Request`] at a time; whoever drives it performs that call and feeds the
//! [`Reply`] back, and the operation answers with the next request or with
//! its result ([`Step`]). The operation itself never touches the system, so
//! each of its decisions is a verified function of the replies it was given.
use vstd::prelude::*;
use crate::geometry::{Point, Rect};

verus! {

/// A call into the window manager.
#[derive(Clone, Copy, Debug, PartialEq, Eq, Structural)]
pub enum Request {
    /// `GetParent(hwnd)`.
    GetParent { hwnd: usize },
    /// `GetWindow(hwnd, cmd)`.
    GetWindow { hwnd: usize, cmd: u32 },
    /// `GetTopWindow(hwnd)`: the first child in Z order.
    GetTopWindow { hwnd: usize },
    /// `GetDlgItem(hwnd, id)`.
    GetDlgItem { hwnd: usize, id: i32 },
    /// `GetWindowLongW(hwnd, index)`.
    GetWindowLong { hwnd: usize, index: i32 },
    /// `SetWindowLongW(hwnd, index, value)`.
    SetWindowLong { hwnd: usize, index: i32, value: i32 },
    /// `GetMenu(hwnd)`.
    GetMenu { hwnd: usize },
    /// `GetWindowRect(hwnd, &rect)`.
    GetWindowRect { hwnd: usize },
    /// `GetClientRect(hwnd, &rect)`.
    GetClientRect { hwnd: usize },
    /// `MonitorFromWindow(hwnd, flags)`.
    MonitorFromWindow { hwnd: usize, flags: u32 },
    /// `GetMonitorInfoW(monitor, &info)`, of which the work area is used.
    GetMonitorWorkArea { monitor: usize },
    /// `MapWindowPoints(from, to, &rect, 2)`: both corners of `rect`.
    MapWindowRect { from: usize, to: usize, rect: Rect },
    /// `ClientToScreen(hwnd, &point)`.
    ClientToScreen { hwnd: usize, point: Point },
    /// `ScreenToClient(hwnd, &point)`.
    ScreenToClient { hwnd: usize, point: Point },
    /// `AdjustWindowRectEx(&rect, style, menu, ex_style)`.
    AdjustWindowRectEx { rect: Rect, style: u32, menu: i32, ex_style: u32 },
    /// `SetWindowPos(hwnd, insert_after, x, y, cx, cy, flags)`.
    SetWindowPos { hwnd: usize, insert_after: usize, x: i32, y: i32, cx: i32, cy: i32, flags: u32 },
    /// `MoveWindow(hwnd, x, y, width, height, repaint)`.
    MoveWindow { hwnd: usize, x: i32, y: i32, width: i32, height: i32, repaint: i32 },
    /// `SendMessageW(hwnd, msg, wparam, lparam)`.
    SendMessage { hwnd: usize, msg: u32, wparam: usize, lparam: isize },
    /// `LockWindowUpdate(hwnd)`.
    LockWindowUpdate { hwnd: usize },
    /// `RedrawWindow(hwnd, NULL, NULL, flags)`: the whole window.
    RedrawWindow { hwnd: usize, flags: u32 },
    /// `InvalidateRect(hwnd, NULL, erase)`: the whole client area.
    InvalidateRect { hwnd: usize, erase: i32 },
    /// `ScrollWindowEx(hwnd, dx, dy, NULL, NULL, NULL, NULL, flags)`: the
    /// whole client area, without reporting what needs repainting.
    ScrollWindowEx { hwnd: usize, dx: i32, dy: i32, flags: u32 },
    /// `CreateCaret(hwnd, bitmap, width, height)`.
    CreateCaret { hwnd: usize, bitmap: usize, width: i32, height: i32 },
    /// `GetWindowTextLengthW(hwnd)`.
    GetWindowTextLength { hwnd: usize },
    /// `GetWindowTextW(hwnd, buffer, max_count)` into a buffer of
    /// `buffer_len` UTF-16 units, all zero beforehand.
    GetWindowText { hwnd: usize, max_count: i32, buffer_len: usize },
}

/// What a call answered.
#[derive(Debug)]
pub enum Reply {
    /// A handle: of a window, a menu or a monitor.
    Handle(usize),
    /// A `LONG` or `int` result.
    Long(i32),
    /// A `BOOL` result.
    Bool(i32),
    /// The result of a call that fills in a rectangle, and the rectangle as
    /// the call left it.
    RectOut { result: i32, rect: Rect },
    /// The `BOOL` result of a call that converts a point, and the point as
    /// the call left it.
    PointOut { ok: i32, point: Point },
    /// An `LRESULT`.
    Message(isize),
    /// The count that `GetWindowTextW` returned, and its whole buffer.
    Text { count: i32, buffer: Vec<u16> },
}

/// Whether `reply` has the shape of an answer to `req`.
pub open spec fn fits(req: Request, reply: Reply) -> bool {
    match req {
        Request::GetParent { .. } => reply is Handle,
        Request::GetWindow { .. } => reply is Handle,
        Request::GetTopWindow { .. } => reply is Handle,
        Request::GetDlgItem { .. } => reply is Handle,
        Request::GetMenu { .. } => reply is Handle,
        Request::MonitorFromWindow { .. } => reply is Handle,
        Request::GetWindowLong { .. } => reply is Long,
        Request::SetWindowLong { .. } => reply is Long,
        Request::GetWindowTextLength { .. } => reply is Long,
        Request::GetWindowRect { .. } => reply is RectOut,
        Request::GetClientRect { .. } => reply is RectOut,
        Request::GetMonitorWorkArea { .. } => reply is RectOut,
        Request::MapWindowRect { .. } => reply is RectOut,
        Request::AdjustWindowRectEx { .. } => reply is RectOut,
        Request::ClientToScreen { .. } => reply is PointOut,
        Request::ScreenToClient { .. } => reply is PointOut,
        Request::SetWindowPos { .. } => reply is Bool,
        Request::MoveWindow { .. } => reply is Bool,
        Request::LockWindowUpdate { .. } => reply is Bool,
        Request::RedrawWindow { .. } => reply is Bool,
        Request::InvalidateRect { .. } => reply is Bool,
        Request::CreateCaret { .. } => reply is Bool,
        Request::ScrollWindowEx { .. } => reply is Long,
        Request::SendMessage { .. } => reply is Message,
        Request::GetWindowText { buffer_len, .. } => reply is Text && reply->buffer@.len() == buffer_len,
    }
}

/// What an operation does after a reply: ask for another call, or finish.
#[derive(Debug)]
pub enum Step<T> {
    Call(Request),
    Done(T),
}

/// The handle in a `Handle` reply.
pub fn reply_handle(reply: &Reply) -> (h: usize)
    requires
        reply is Handle,
    ensures
        h == reply->Handle_0,
{
    match reply {
        Reply::Handle(h) => *h,
        _ => 0,
    }
}

/// The value in a `Long` reply.
pub fn reply_long(reply: &Reply) -> (v: i32)
    requires
        reply is Long,
    ensures
        v == reply->Long_0,
{
    match reply {
        Reply::Long(v) => *v,
        _ => 0,
    }
}

/// The value in a `Bool` reply.
pub fn reply_bool(reply: &Reply) -> (v: i32)
    requires
        reply is Bool,
    ensures
        v == reply->Bool_0,
{
    match reply {
        Reply::Bool(v) => *v,
        _ => 0,
    }
}

/// The result and rectangle of a `RectOut` reply.
pub fn reply_rect(reply: &Reply) -> (r: (i32, Rect))
    requires
        reply is RectOut,
    ensures
        r.0 == reply->result,
        r.1 == reply->rect,
{
    match reply {
        Reply::RectOut { result, rect } => (*result, *rect),
        _ => (0, Rect { left: 0, top: 0, right: 0, bottom: 0 }),
    }
}

/// The result and point of a `PointOut` reply.
pub fn reply_point(reply: &Reply) -> (r: (i32, Point))
    requires
        reply is PointOut,
    ensures
        r.0 == reply->ok,
        r.1 == reply->point,
{
    match reply {
        Reply::PointOut { ok, point } => (*ok, *point),
        _ => (0, Point { x: 0, y: 0 }),
    }
}

} // verus!
