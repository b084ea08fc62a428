use wtl::cwindow::CWindow;
use wtl::geometry::Rect;
use wtl::request::Request;
use wtl::win::{is_true, MAKEWORD, GWL_EXSTYLE, GWL_ID, GWL_STYLE, NULL_HWND, WM_GETICON, WM_NEXTDLGCTL, WM_SETFONT, WM_SETHOTKEY, WM_SETICON, WM_SETREDRAW, WM_PRINT};

#[test]
fn new_holds_handle() {
    let w = CWindow::new(0x1234);
    assert_eq!(w.GetHwnd(), 0x1234);
    assert!(!w.is_null());
    assert!(CWindow::new(NULL_HWND).is_null());
}

#[test]
fn detach_returns_handle_and_empties() {
    let mut w = CWindow::new(77);
    assert_eq!(w.Detach(), 77);
    assert_eq!(w.GetHwnd(), NULL_HWND);
    assert_eq!(w.Detach(), NULL_HWND);
}

#[test]
fn attach_then_detach_gives_handle_back() {
    let mut w = CWindow::new(NULL_HWND);
    w.Attach(501);
    assert_eq!(w.GetHwnd(), 501);
    assert_eq!(w.Detach(), 501);
    assert!(w.is_null());
}

#[test]
fn destroy_window_lets_go_only_on_true() {
    let mut w = CWindow::new(9);
    assert_eq!(w.DestroyWindow(0), 0);
    assert_eq!(w.GetHwnd(), 9);
    assert_eq!(w.DestroyWindow(2), 0);
    assert_eq!(w.GetHwnd(), 9);
    assert_eq!(w.DestroyWindow(1), 1);
    assert_eq!(w.GetHwnd(), NULL_HWND);
}

#[test]
fn is_true_only_for_one() {
    assert!(is_true(1));
    assert!(!is_true(0));
    assert!(!is_true(-1));
    assert!(!is_true(2));
}

#[test]
fn make_word_packs_bytes() {
    assert_eq!(MAKEWORD(0x34, 0x12), 0x1234);
    assert_eq!(MAKEWORD(0xff, 0), 0x00ff);
    assert_eq!(MAKEWORD(0, 0xff), 0xff00);
}

#[test]
fn style_requests() {
    let w = CWindow::new(5);
    assert_eq!(w.GetStyle(), Request::GetWindowLong { hwnd: 5, index: GWL_STYLE });
    assert_eq!(w.GetExStyle(), Request::GetWindowLong { hwnd: 5, index: GWL_EXSTYLE });
    assert_eq!(w.SetDlgCtrlID(42), Request::SetWindowLong { hwnd: 5, index: GWL_ID, value: 42 });
    assert_eq!(w.GetDlgItem(65535), Request::GetDlgItem { hwnd: 5, id: 65535 });
}

#[test]
fn move_window_from_rect() {
    let w = CWindow::new(3);
    let r = Rect { left: 10, top: 20, right: 110, bottom: 70 };
    assert_eq!(
        w.MoveWindow2(&r, 1),
        Request::MoveWindow { hwnd: 3, x: 10, y: 20, width: 100, height: 50, repaint: 1 }
    );
    assert_eq!(
        w.SetWindowPos2(8, &r, 0x10),
        Request::SetWindowPos { hwnd: 3, insert_after: 8, x: 10, y: 20, cx: 100, cy: 50, flags: 0x10 }
    );
    let neg = Rect { left: -5, top: -5, right: -10, bottom: 5 };
    assert_eq!(neg.to_pos_size(), (-5, -5, -5, 10));
}

#[test]
fn lock_window_update_target() {
    let w = CWindow::new(11);
    assert_eq!(w.LockWindowUpdate(true), Request::LockWindowUpdate { hwnd: 11 });
    assert_eq!(w.LockWindowUpdate(false), Request::LockWindowUpdate { hwnd: NULL_HWND });
}

#[test]
fn message_requests() {
    let w = CWindow::new(4);
    assert_eq!(
        w.SetFont(0xF0, 0x12345),
        Request::SendMessage { hwnd: 4, msg: WM_SETFONT, wparam: 0xF0, lparam: 0x2345 }
    );
    assert_eq!(
        w.SetFont(0xF0, -1),
        Request::SendMessage { hwnd: 4, msg: WM_SETFONT, wparam: 0xF0, lparam: 0xFFFF }
    );
    assert_eq!(
        w.SetHotKey(0x1141, 0x0203),
        Request::SendMessage { hwnd: 4, msg: WM_SETHOTKEY, wparam: 0x0341, lparam: 0 }
    );
    assert_eq!(
        w.SetRedraw(-1),
        Request::SendMessage { hwnd: 4, msg: WM_SETREDRAW, wparam: usize::MAX, lparam: 0 }
    );
    assert_eq!(
        w.SetIcon(0x99, 1),
        Request::SendMessage { hwnd: 4, msg: WM_SETICON, wparam: 1, lparam: 0x99 }
    );
    assert_eq!(w.GetIcon(0), Request::SendMessage { hwnd: 4, msg: WM_GETICON, wparam: 0, lparam: 0 });
    assert_eq!(w.Print(0x50, 0x6), Request::SendMessage { hwnd: 4, msg: WM_PRINT, wparam: 0x50, lparam: 6 });
    assert_eq!(w.NextDlgCtrl(), Request::SendMessage { hwnd: 4, msg: WM_NEXTDLGCTL, wparam: 0, lparam: 0 });
    assert_eq!(w.PrevDlgCtrl(), Request::SendMessage { hwnd: 4, msg: WM_NEXTDLGCTL, wparam: 1, lparam: 0 });
    assert_eq!(w.GotoDlgCtrl(12), Request::SendMessage { hwnd: 4, msg: WM_NEXTDLGCTL, wparam: 12, lparam: 1 });
}

#[test]
fn whole_window_requests() {
    let w = CWindow::new(6);
    assert_eq!(w.RedrawWindow2(), Request::RedrawWindow { hwnd: 6, flags: 0x0105 });
    assert_eq!(w.Invalidate(1), Request::InvalidateRect { hwnd: 6, erase: 1 });
    assert_eq!(w.ScrollWindowExDefault(3, -4, 2), Request::ScrollWindowEx { hwnd: 6, dx: 3, dy: -4, flags: 2 });
    assert_eq!(w.CreateCaret(0x55), Request::CreateCaret { hwnd: 6, bitmap: 0x55, width: 0, height: 0 });
    assert_eq!(w.CreateSolidCaret(2, 16), Request::CreateCaret { hwnd: 6, bitmap: 0, width: 2, height: 16 });
    assert_eq!(w.CreateGrayCaret(2, 16), Request::CreateCaret { hwnd: 6, bitmap: 1, width: 2, height: 16 });
}
