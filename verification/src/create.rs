//! `Create`: the arguments of `CreateWindowExW` for a new window.
use vstd::prelude::*;
use crate::cwindow::CWindow;
use crate::geometry::Rect;
use crate::text::{to_c_u16, utf16_encode};
use crate::win::{CW_USEDEFAULT, NULL_HWND};

verus! {

/// The rectangle a window is created with when none is given: the
/// system's default position and size.
pub open spec fn default_create_rect_spec() -> Rect {
    Rect { left: CW_USEDEFAULT, top: 0, right: CW_USEDEFAULT, bottom: 0 }
}

/// The rectangle a window is created with when none is given.
pub fn default_create_rect() -> (r: Rect)
    ensures
        r == default_create_rect_spec(),
{
    Rect { left: CW_USEDEFAULT, right: CW_USEDEFAULT, top: 0, bottom: 0 }
}

/// The module instance that new windows are registered under: the null
/// instance.
fn GetModuleInstance() -> (h: usize)
    ensures
        h == 0,
{
    0
}

/// The arguments of one `CreateWindowExW` call.
#[derive(Debug)]
pub struct CreateWindowArgs {
    pub ex_style: u32,
    /// The window class's name, nul-terminated UTF-16.
    pub class_name: Vec<u16>,
    /// The window's title, nul-terminated UTF-16.
    pub window_name: Vec<u16>,
    pub style: u32,
    pub x: i32,
    pub y: i32,
    pub width: i32,
    pub height: i32,
    pub parent: usize,
    pub menu: usize,
    pub instance: usize,
    pub param: usize,
}

impl CWindow {
    /// The arguments with which this (empty) window is created: class and
    /// title as nul-terminated UTF-16; position and size from `rect`, or the
    /// system defaults without one. The handle that the call returns is then
    /// taken with [`CWindow::finish_create`].
    pub fn Create(
        &self,
        lpstrWndClass: &str,
        hWndParent: usize,
        rect: Option<&Rect>,
        szWindowName: &str,
        dwStyle: u32,
        dwExStyle: u32,
        hMenu: usize,
        lpCreateParam: usize,
    ) -> (args: CreateWindowArgs)
        requires
            self@ == NULL_HWND,
            rect matches Some(r) ==> r.size_fits(),
        ensures
            ({
                let r = match rect {
                    Some(r) => *r,
                    None => default_create_rect_spec(),
                };
                &&& args.ex_style == dwExStyle
                &&& args.class_name@ == utf16_encode(lpstrWndClass@).push(0u16)
                &&& args.window_name@ == utf16_encode(szWindowName@).push(0u16)
                &&& args.style == dwStyle
                &&& args.x == r.left
                &&& args.y == r.top
                &&& args.width == r.right - r.left
                &&& args.height == r.bottom - r.top
                &&& args.parent == hWndParent
                &&& args.menu == hMenu
                &&& args.instance == 0
                &&& args.param == lpCreateParam
            }),
    {
        let r = match rect {
            Some(r1) => *r1,
            None => default_create_rect(),
        };
        let c = to_c_u16(lpstrWndClass);
        let n = to_c_u16(szWindowName);
        CreateWindowArgs {
            ex_style: dwExStyle,
            class_name: c,
            window_name: n,
            style: dwStyle,
            x: r.left,
            y: r.top,
            width: r.width(),
            height: r.height(),
            parent: hWndParent,
            menu: hMenu,
            instance: GetModuleInstance(),
            param: lpCreateParam,
        }
    }

    /// Holds the window that `CreateWindowExW` returned (null when it
    /// failed), and returns it.
    pub fn finish_create(&mut self, created: usize) -> (h: usize)
        ensures
            h == created,
            final(self)@ == created,
    {
        *self = CWindow::new(created);
        created
    }
}

} // verus!
