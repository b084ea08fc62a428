//! `CWindow`: a window handle, and the requests that its simple operations
//! make.
use vstd::prelude::*;
use crate::geometry::Rect;
use crate::request::Request;
use crate::win::{
    is_true, make_word_spec, MAKEWORD, FALSE, RDW_ERASE, RDW_INVALIDATE, RDW_UPDATENOW, GWL_EXSTYLE, GWL_ID, GWL_STYLE, NULL_HWND, NULL_LPARAM, TRUE,
    WM_GETFONT, WM_GETHOTKEY, WM_GETICON, WM_NEXTDLGCTL, WM_PRINT, WM_PRINTCLIENT, WM_SETFONT,
    WM_SETHOTKEY, WM_SETICON, WM_SETREDRAW,
};

verus! {

/// A window, held by its handle. The null handle means "no window".
#[derive(Debug)]
pub struct CWindow(usize);

impl View for CWindow {
    type V = usize;

    closed spec fn view(&self) -> usize {
        self.0
    }
}

impl CWindow {
    /// Wraps the handle `h`.
    pub fn new(h: usize) -> (w: CWindow)
        ensures
            w@ == h,
    {
        CWindow(h)
    }

    /// The handle held.
    pub fn GetHwnd(&self) -> (h: usize)
        ensures
            h == self@,
    {
        self.0
    }

    /// Whether no window is held.
    pub fn is_null(&self) -> (b: bool)
        ensures
            b == (self@ == NULL_HWND),
    {
        self.0 == NULL_HWND
    }

    /// Lets go of the window without destroying it: the handle held before is
    /// returned, and the null handle is held from now on.
    pub fn Detach(&mut self) -> (h: usize)
        ensures
            h == old(self)@,
            final(self)@ == NULL_HWND,
    {
        let hWnd = self.0;
        self.0 = NULL_HWND;
        hWnd
    }

    /// Takes hold of the window `hWndNew`. Only an empty `CWindow` can attach,
    /// and only to a non-null handle.
    pub fn Attach(&mut self, hWndNew: usize)
        requires
            old(self)@ == NULL_HWND,
            hWndNew != NULL_HWND,
        ensures
            final(self)@ == hWndNew,
    {
        self.0 = hWndNew;
    }

    /// Records the outcome of `DestroyWindow` on the held window: when the
    /// call reported `TRUE`, the window is gone and the handle is let go;
    /// the result is `TRUE` then, and `FALSE` otherwise.
    pub fn DestroyWindow(&mut self, destroyed: i32) -> (r: i32)
        ensures
            destroyed == TRUE ==> r == TRUE && final(self)@ == NULL_HWND,
            destroyed != TRUE ==> r == FALSE && final(self)@ == old(self)@,
    {
        if is_true(destroyed) {
            self.Detach();
            return TRUE;
        }
        FALSE
    }

    /// The request that reads the window's style.
    pub fn GetStyle(&self) -> (r: Request)
        ensures
            r == (Request::GetWindowLong { hwnd: self@, index: GWL_STYLE }),
    {
        Request::GetWindowLong { hwnd: self.0, index: GWL_STYLE }
    }

    /// The request that reads the window's extended style.
    pub fn GetExStyle(&self) -> (r: Request)
        ensures
            r == (Request::GetWindowLong { hwnd: self@, index: GWL_EXSTYLE }),
    {
        Request::GetWindowLong { hwnd: self.0, index: GWL_EXSTYLE }
    }

    /// The request that looks up the dialog item `nID`.
    pub fn GetDlgItem(&self, nID: u16) -> (r: Request)
        ensures
            r == (Request::GetDlgItem { hwnd: self@, id: nID as i32 }),
    {
        Request::GetDlgItem { hwnd: self.0, id: nID as i32 }
    }

    /// The request that sets the window's control ID.
    pub fn SetDlgCtrlID(&self, nID: i32) -> (r: Request)
        ensures
            r == (Request::SetWindowLong { hwnd: self@, index: GWL_ID, value: nID }),
    {
        Request::SetWindowLong { hwnd: self.0, index: GWL_ID, value: nID }
    }

    /// The request that moves and sizes the window to the rectangle `lpRect`.
    pub fn MoveWindow2(&self, lpRect: &Rect, bRepaint: i32) -> (r: Request)
        requires
            lpRect.size_fits(),
        ensures
            r == (Request::MoveWindow {
                hwnd: self@,
                x: lpRect.left,
                y: lpRect.top,
                width: (lpRect.right - lpRect.left) as i32,
                height: (lpRect.bottom - lpRect.top) as i32,
                repaint: bRepaint,
            }),
    {
        let (x, y, w, h) = lpRect.to_pos_size();
        Request::MoveWindow { hwnd: self.0, x, y, width: w, height: h, repaint: bRepaint }
    }

    /// The request that places the window at the rectangle `lpRect`, after
    /// `hWndInsertAfter` in Z order.
    pub fn SetWindowPos2(&self, hWndInsertAfter: usize, lpRect: &Rect, nFlags: u32) -> (r: Request)
        requires
            lpRect.size_fits(),
        ensures
            r == (Request::SetWindowPos {
                hwnd: self@,
                insert_after: hWndInsertAfter,
                x: lpRect.left,
                y: lpRect.top,
                cx: (lpRect.right - lpRect.left) as i32,
                cy: (lpRect.bottom - lpRect.top) as i32,
                flags: nFlags,
            }),
    {
        let (x, y, w, h) = lpRect.to_pos_size();
        Request::SetWindowPos {
            hwnd: self.0,
            insert_after: hWndInsertAfter,
            x,
            y,
            cx: w,
            cy: h,
            flags: nFlags,
        }
    }

    /// The request that locks drawing in this window (`bLock`), or unlocks
    /// whichever window is locked (`!bLock`, through the null handle).
    pub fn LockWindowUpdate(&self, bLock: bool) -> (r: Request)
        ensures
            r == (Request::LockWindowUpdate { hwnd: if bLock { self@ } else { NULL_HWND } }),
    {
        if bLock {
            Request::LockWindowUpdate { hwnd: self.0 }
        } else {
            Request::LockWindowUpdate { hwnd: NULL_HWND }
        }
    }

    /// The request that redraws the whole window: invalidate, erase, and
    /// update at once.
    pub fn RedrawWindow2(&self) -> (r: Request)
        ensures
            r == (Request::RedrawWindow { hwnd: self@, flags: RDW_INVALIDATE | RDW_UPDATENOW | RDW_ERASE }),
    {
        Request::RedrawWindow { hwnd: self.0, flags: RDW_INVALIDATE | RDW_UPDATENOW | RDW_ERASE }
    }

    /// The request that invalidates the whole client area.
    pub fn Invalidate(&self, bErase: i32) -> (r: Request)
        ensures
            r == (Request::InvalidateRect { hwnd: self@, erase: bErase }),
    {
        Request::InvalidateRect { hwnd: self.0, erase: bErase }
    }

    /// The request that scrolls the whole client area by `dx`, `dy`.
    pub fn ScrollWindowExDefault(&self, dx: i32, dy: i32, uFlags: u32) -> (r: Request)
        ensures
            r == (Request::ScrollWindowEx { hwnd: self@, dx, dy, flags: uFlags }),
    {
        Request::ScrollWindowEx { hwnd: self.0, dx, dy, flags: uFlags }
    }

    /// The request that gives the window a caret made of the bitmap `hBitmap`,
    /// at the bitmap's size.
    pub fn CreateCaret(&self, hBitmap: usize) -> (r: Request)
        ensures
            r == (Request::CreateCaret { hwnd: self@, bitmap: hBitmap, width: 0, height: 0 }),
    {
        Request::CreateCaret { hwnd: self.0, bitmap: hBitmap, width: 0, height: 0 }
    }

    /// The request that gives the window a solid caret of the given size.
    pub fn CreateSolidCaret(&self, nWidth: i32, nHeight: i32) -> (r: Request)
        ensures
            r == (Request::CreateCaret { hwnd: self@, bitmap: 0, width: nWidth, height: nHeight }),
    {
        Request::CreateCaret { hwnd: self.0, bitmap: 0, width: nWidth, height: nHeight }
    }

    /// The request that gives the window a gray caret of the given size (the
    /// bitmap handle `1` asks for gray).
    pub fn CreateGrayCaret(&self, nWidth: i32, nHeight: i32) -> (r: Request)
        ensures
            r == (Request::CreateCaret { hwnd: self@, bitmap: 1, width: nWidth, height: nHeight }),
    {
        Request::CreateCaret { hwnd: self.0, bitmap: 1, width: nWidth, height: nHeight }
    }

    /// The `WM_SETFONT` message: the font in `wParam`, the redraw flag in the
    /// low word of `lParam`.
    pub fn SetFont(&self, hFont: usize, bRedraw: i32) -> (r: Request)
        ensures
            r == (Request::SendMessage {
                hwnd: self@,
                msg: WM_SETFONT,
                wparam: hFont,
                lparam: (bRedraw & 0xFFFF) as isize,
            }),
    {
        Request::SendMessage {
            hwnd: self.0,
            msg: WM_SETFONT,
            wparam: hFont,
            lparam: (bRedraw & 0xFFFF) as isize,
        }
    }

    /// The `WM_GETFONT` message.
    pub fn GetFont(&self) -> (r: Request)
        ensures
            r == (Request::SendMessage { hwnd: self@, msg: WM_GETFONT, wparam: 0, lparam: 0 }),
    {
        Request::SendMessage { hwnd: self.0, msg: WM_GETFONT, wparam: 0, lparam: 0 }
    }

    /// The `WM_PRINT` message for the device context `hDC`.
    pub fn Print(&self, hDC: usize, dwFlags: u32) -> (r: Request)
        ensures
            r == (Request::SendMessage {
                hwnd: self@,
                msg: WM_PRINT,
                wparam: hDC,
                lparam: dwFlags as isize,
            }),
    {
        Request::SendMessage { hwnd: self.0, msg: WM_PRINT, wparam: hDC, lparam: dwFlags as isize }
    }

    /// The `WM_PRINTCLIENT` message for the device context `hDC`.
    pub fn PrintClient(&self, hDC: usize, dwFlags: u32) -> (r: Request)
        ensures
            r == (Request::SendMessage {
                hwnd: self@,
                msg: WM_PRINTCLIENT,
                wparam: hDC,
                lparam: dwFlags as isize,
            }),
    {
        Request::SendMessage {
            hwnd: self.0,
            msg: WM_PRINTCLIENT,
            wparam: hDC,
            lparam: dwFlags as isize,
        }
    }

    /// The `WM_SETREDRAW` message.
    pub fn SetRedraw(&self, bRedraw: i32) -> (r: Request)
        ensures
            r == (Request::SendMessage {
                hwnd: self@,
                msg: WM_SETREDRAW,
                wparam: bRedraw as usize,
                lparam: NULL_LPARAM,
            }),
    {
        Request::SendMessage {
            hwnd: self.0,
            msg: WM_SETREDRAW,
            wparam: bRedraw as usize,
            lparam: NULL_LPARAM,
        }
    }

    /// The `WM_SETICON` message: which icon in `wParam`, the icon in `lParam`.
    pub fn SetIcon(&self, hIcon: usize, bBigIcon: i32) -> (r: Request)
        ensures
            r == (Request::SendMessage {
                hwnd: self@,
                msg: WM_SETICON,
                wparam: bBigIcon as usize,
                lparam: hIcon as isize,
            }),
    {
        Request::SendMessage {
            hwnd: self.0,
            msg: WM_SETICON,
            wparam: bBigIcon as usize,
            lparam: hIcon as isize,
        }
    }

    /// The `WM_GETICON` message.
    pub fn GetIcon(&self, bBigIcon: i32) -> (r: Request)
        ensures
            r == (Request::SendMessage {
                hwnd: self@,
                msg: WM_GETICON,
                wparam: bBigIcon as usize,
                lparam: NULL_LPARAM,
            }),
    {
        Request::SendMessage {
            hwnd: self.0,
            msg: WM_GETICON,
            wparam: bBigIcon as usize,
            lparam: NULL_LPARAM,
        }
    }

    /// The `WM_SETHOTKEY` message: `MAKEWORD` of the low bytes of the key
    /// code and the modifiers.
    pub fn SetHotKey(&self, wVirtualKeyCode: u16, wModifiers: u16) -> (r: Request)
        ensures
            r == (Request::SendMessage {
                hwnd: self@,
                msg: WM_SETHOTKEY,
                wparam: make_word_spec(wVirtualKeyCode as u8, wModifiers as u8) as usize,
                lparam: 0,
            }),
    {
        let w = MAKEWORD(wVirtualKeyCode as u8, wModifiers as u8);
        Request::SendMessage { hwnd: self.0, msg: WM_SETHOTKEY, wparam: w as usize, lparam: 0 }
    }

    /// The `WM_GETHOTKEY` message.
    pub fn GetHotKey(&self) -> (r: Request)
        ensures
            r == (Request::SendMessage { hwnd: self@, msg: WM_GETHOTKEY, wparam: 0, lparam: 0 }),
    {
        Request::SendMessage { hwnd: self.0, msg: WM_GETHOTKEY, wparam: 0, lparam: 0 }
    }

    /// The `WM_NEXTDLGCTL` message that moves the focus to the next control.
    pub fn NextDlgCtrl(&self) -> (r: Request)
        ensures
            r == (Request::SendMessage { hwnd: self@, msg: WM_NEXTDLGCTL, wparam: 0, lparam: 0 }),
    {
        Request::SendMessage { hwnd: self.0, msg: WM_NEXTDLGCTL, wparam: 0, lparam: 0 }
    }

    /// The `WM_NEXTDLGCTL` message that moves the focus to the previous control.
    pub fn PrevDlgCtrl(&self) -> (r: Request)
        ensures
            r == (Request::SendMessage { hwnd: self@, msg: WM_NEXTDLGCTL, wparam: 1, lparam: 0 }),
    {
        Request::SendMessage { hwnd: self.0, msg: WM_NEXTDLGCTL, wparam: 1, lparam: 0 }
    }

    /// The `WM_NEXTDLGCTL` message that moves the focus to the control `hWndCtrl`.
    pub fn GotoDlgCtrl(&self, hWndCtrl: usize) -> (r: Request)
        ensures
            r == (Request::SendMessage {
                hwnd: self@,
                msg: WM_NEXTDLGCTL,
                wparam: hWndCtrl,
                lparam: 1,
            }),
    {
        Request::SendMessage { hwnd: self.0, msg: WM_NEXTDLGCTL, wparam: hWndCtrl, lparam: 1 }
    }
}

} // verus!
