use wtl::create::default_create_rect;
use wtl::cwindow::CWindow;
use wtl::geometry::{Point, Rect};
use wtl::mapping::RectMappingOp;
use wtl::request::{Reply, Request, Step};
use wtl::resize::ResizeClientOp;
use wtl::win::{CW_USEDEFAULT, GWL_EXSTYLE, GWL_STYLE, WS_CHILD};

fn r(left: i32, top: i32, right: i32, bottom: i32) -> Rect {
    Rect { left, top, right, bottom }
}

fn call(s: Step<bool>) -> Request {
    match s {
        Step::Call(r) => r,
        Step::Done(v) => panic!("finished early with {}", v),
    }
}

fn done(s: Step<bool>) -> bool {
    match s {
        Step::Done(v) => v,
        Step::Call(r) => panic!("still asking {:?}", r),
    }
}

#[test]
fn resize_client_fails_without_client_rect() {
    let mut op = CWindow::new(6).ResizeClient(100, 50, 1);
    assert_eq!(op.request(), Request::GetClientRect { hwnd: 6 });
    let reply = Reply::RectOut { result: 0, rect: r(0, 0, 0, 0) };
    assert!(op.can_accept(&reply));
    assert!(!done(op.advance(reply)));
}

fn resize_to_adjust(op: &mut ResizeClientOp, child: bool) -> Request {
    let q = call(op.advance(Reply::RectOut { result: 1, rect: r(0, 0, 300, 200) }));
    assert_eq!(q, Request::GetWindowLong { hwnd: 6, index: GWL_STYLE });
    let style = if child { WS_CHILD as i32 } else { 0 };
    let q = call(op.advance(Reply::Long(style)));
    let q = if child {
        q
    } else {
        assert_eq!(q, Request::GetMenu { hwnd: 6 });
        call(op.advance(Reply::Handle(0x77)))
    };
    assert_eq!(q, Request::GetWindowLong { hwnd: 6, index: GWL_STYLE });
    let q = call(op.advance(Reply::Long(style)));
    assert_eq!(q, Request::GetWindowLong { hwnd: 6, index: GWL_EXSTYLE });
    call(op.advance(Reply::Long(0x200)))
}

#[test]
fn resize_client_sets_size_and_menu_flag() {
    let mut op = CWindow::new(6).ResizeClient(100, -1, 0);
    let q = resize_to_adjust(&mut op, false);
    assert_eq!(q, Request::AdjustWindowRectEx { rect: r(0, 0, 100, 200), style: 0, menu: 1, ex_style: 0x200 });
    // an adjustment that does not report TRUE goes on to the resize
    let q = call(op.advance(Reply::RectOut { result: 0, rect: r(-8, -30, 108, 208) }));
    assert_eq!(q, Request::SetWindowPos { hwnd: 6, insert_after: 0, x: 0, y: 0, cx: 116, cy: 238, flags: 0x1E });
    assert!(done(op.advance(Reply::Bool(1))));
}

#[test]
fn resize_client_child_has_no_menu_and_true_adjust_stops() {
    let mut op = CWindow::new(6).ResizeClient(-1, 40, 1);
    let q = resize_to_adjust(&mut op, true);
    assert_eq!(q, Request::AdjustWindowRectEx { rect: r(0, 0, 300, 40), style: WS_CHILD, menu: 0, ex_style: 0x200 });
    assert!(!done(op.advance(Reply::RectOut { result: 1, rect: r(0, 0, 300, 40) })));
}

#[test]
fn resize_client_rejects_overflowing_rectangle() {
    let mut op = CWindow::new(6).ResizeClient(-1, -1, 1);
    resize_to_adjust(&mut op, true);
    assert!(!op.can_accept(&Reply::RectOut { result: 0, rect: r(i32::MIN, 0, i32::MAX, 0) }));
    assert!(op.can_accept(&Reply::RectOut { result: 1, rect: r(i32::MIN, 0, i32::MAX, 0) }));
}

fn map(mut op: RectMappingOp, replies: Vec<Reply>) -> (Vec<Request>, (bool, Rect)) {
    let mut calls = vec![op.request()];
    for reply in replies {
        match op.advance(reply) {
            Step::Call(req) => calls.push(req),
            Step::Done(v) => return (calls, v),
        }
    }
    panic!("not finished");
}

#[test]
fn client_to_screen_maps_both_corners() {
    let w = CWindow::new(2);
    let (calls, (ok, rect)) = map(w.ClientToScreen2(&r(1, 2, 3, 4)), vec![
        Reply::PointOut { ok: 1, point: Point { x: 101, y: 202 } },
        Reply::PointOut { ok: 1, point: Point { x: 103, y: 204 } },
    ]);
    assert!(ok);
    assert_eq!(rect, r(101, 202, 103, 204));
    assert_eq!(calls, vec![
        Request::ClientToScreen { hwnd: 2, point: Point { x: 1, y: 2 } },
        Request::ClientToScreen { hwnd: 2, point: Point { x: 3, y: 4 } },
    ]);
}

#[test]
fn screen_to_client_stops_after_failed_first_corner() {
    let w = CWindow::new(2);
    let (calls, (ok, rect)) = map(w.ScreenToClient2(&r(1, 2, 3, 4)), vec![
        Reply::PointOut { ok: 0, point: Point { x: 1, y: 2 } },
    ]);
    assert!(!ok);
    assert_eq!(rect, r(1, 2, 3, 4));
    assert_eq!(calls, vec![Request::ScreenToClient { hwnd: 2, point: Point { x: 1, y: 2 } }]);
}

#[test]
fn client_to_screen_second_corner_must_report_true() {
    let w = CWindow::new(2);
    let (_, (ok, _)) = map(w.ClientToScreen2(&r(1, 2, 3, 4)), vec![
        Reply::PointOut { ok: 5, point: Point { x: 1, y: 2 } },
        Reply::PointOut { ok: 5, point: Point { x: 3, y: 4 } },
    ]);
    assert!(!ok);
}

#[test]
fn create_arguments_with_rect() {
    let w = CWindow::new(0);
    let rect = r(10, 20, 110, 220);
    let args = w.Create("BUTTON", 5, Some(&rect), "Ok", 0x5000_0000, 0x200, 1001, 0);
    assert_eq!(args.class_name, vec![66u16, 85, 84, 84, 79, 78, 0]);
    assert_eq!(args.window_name, vec![79u16, 107, 0]);
    assert_eq!((args.x, args.y, args.width, args.height), (10, 20, 100, 200));
    assert_eq!((args.parent, args.menu, args.instance, args.param), (5, 1001, 0, 0));
    assert_eq!((args.style, args.ex_style), (0x5000_0000, 0x200));
}

#[test]
fn create_arguments_default_rect() {
    let w = CWindow::new(0);
    let args = w.Create("C", 0, None, "", 0, 0, 0, 0);
    assert_eq!((args.x, args.y, args.width, args.height), (CW_USEDEFAULT, 0, 0, 0));
    assert_eq!(default_create_rect(), r(CW_USEDEFAULT, 0, CW_USEDEFAULT, 0));
    assert_eq!(args.window_name, vec![0u16]);
}

#[test]
fn finish_create_holds_new_window() {
    let mut w = CWindow::new(0);
    assert_eq!(w.finish_create(0x4242), 0x4242);
    assert_eq!(w.GetHwnd(), 0x4242);
}
