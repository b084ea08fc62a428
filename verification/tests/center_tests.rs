use wtl::center::{CenterPhase, CenterWindowOp};
use wtl::cwindow::CWindow;
use wtl::geometry::{center_origin, center_origin_fits, Rect};
use wtl::request::{Reply, Request, Step};
use wtl::win::{GWL_STYLE, GW_OWNER, MONITOR_DEFAULTTONEAREST, SWP_NOACTIVATE, SWP_NOSIZE, SWP_NOZORDER, WS_CHILD, WS_MINIMIZE, WS_VISIBLE};

fn r(left: i32, top: i32, right: i32, bottom: i32) -> Rect {
    Rect { left, top, right, bottom }
}

/// Drives a CenterWindow operation against scripted answers, recording the calls.
fn drive(mut op: CenterWindowOp, answer: impl Fn(&Request) -> Reply) -> (Vec<Request>, i32) {
    let mut calls = vec![op.request()];
    loop {
        let reply = answer(calls.last().unwrap());
        assert!(op.can_accept(&reply));
        match op.advance(reply) {
            Step::Call(req) => calls.push(req),
            Step::Done(v) => return (calls, v),
        }
    }
}

#[test]
fn center_origin_centres_when_room() {
    let p = center_origin(&r(0, 0, 100, 50), &r(0, 0, 1000, 800), &r(0, 0, 1000, 800));
    assert_eq!((p.x, p.y), (450, 375));
}

#[test]
fn center_origin_rounds_toward_zero() {
    // (−3 + 0) / 2 = −1 in Rust, and 3 / 2 = 1
    let p = center_origin(&r(0, 0, 3, 3), &r(-3, -3, 0, 0), &r(-100, -100, 100, 100));
    assert_eq!((p.x, p.y), (-2, -2));
}

#[test]
fn center_origin_pulls_back_inside_area() {
    // centred at the right edge: pulled back so the far edge meets the area's right
    let p = center_origin(&r(0, 0, 200, 100), &r(900, 700, 1000, 800), &r(0, 0, 1000, 800));
    assert_eq!((p.x, p.y), (800, 700));
    // centred left of the area: pushed to the near edge
    let q = center_origin(&r(0, 0, 200, 100), &r(-100, -100, 0, 0), &r(0, 0, 1000, 800));
    assert_eq!((q.x, q.y), (0, 0));
}

#[test]
fn center_origin_too_large_sticks_to_near_edge() {
    let p = center_origin(&r(0, 0, 2000, 2000), &r(0, 0, 1000, 800), &r(10, 20, 1000, 800));
    assert_eq!((p.x, p.y), (10, 20));
}

#[test]
fn center_origin_overflow_is_detected() {
    assert!(!center_origin_fits(&r(0, 0, 10, 10), &r(i32::MAX, 0, i32::MAX, 0), &r(0, 0, 10, 10)));
    assert!(!center_origin_fits(&r(i32::MIN, 0, i32::MAX, 10), &r(0, 0, 10, 10), &r(0, 0, 10, 10)));
    assert!(center_origin_fits(&r(0, 0, 10, 10), &r(0, 0, 10, 10), &r(0, 0, 10, 10)));
}

#[test]
fn center_top_level_on_owner() {
    let w = CWindow::new(100);
    let (calls, result) = drive(w.CenterWindow(0), |req| match req {
        Request::GetWindowLong { hwnd: 100, .. } => Reply::Long(0),
        Request::GetWindowLong { hwnd: 200, .. } => Reply::Long(WS_VISIBLE as i32),
        Request::GetWindow { .. } => Reply::Handle(200),
        Request::GetWindowRect { hwnd: 100 } => Reply::RectOut { result: 1, rect: r(0, 0, 100, 50) },
        Request::GetWindowRect { hwnd: 200 } => Reply::RectOut { result: 1, rect: r(100, 100, 500, 300) },
        Request::MonitorFromWindow { .. } => Reply::Handle(7),
        Request::GetMonitorWorkArea { .. } => Reply::RectOut { result: 1, rect: r(0, 0, 1920, 1080) },
        Request::SetWindowPos { .. } => Reply::Bool(1),
        _ => panic!("unexpected {:?}", req),
    });
    assert_eq!(result, 1);
    assert_eq!(calls, vec![
        Request::GetWindowLong { hwnd: 100, index: GWL_STYLE },
        Request::GetWindow { hwnd: 100, cmd: GW_OWNER },
        Request::GetWindowRect { hwnd: 100 },
        Request::GetWindowLong { hwnd: 200, index: GWL_STYLE },
        Request::MonitorFromWindow { hwnd: 200, flags: MONITOR_DEFAULTTONEAREST },
        Request::GetMonitorWorkArea { monitor: 7 },
        Request::GetWindowRect { hwnd: 200 },
        Request::SetWindowPos { hwnd: 100, insert_after: 0, x: 250, y: 175, cx: -1, cy: -1, flags: SWP_NOSIZE | SWP_NOZORDER | SWP_NOACTIVATE },
    ]);
}

#[test]
fn center_skips_minimized_owner() {
    let w = CWindow::new(100);
    let (calls, result) = drive(w.CenterWindow(200), |req| match req {
        Request::GetWindowLong { hwnd: 100, .. } => Reply::Long(0),
        Request::GetWindowLong { hwnd: 200, .. } => Reply::Long((WS_VISIBLE | WS_MINIMIZE) as i32),
        Request::GetWindowRect { hwnd: 100 } => Reply::RectOut { result: 1, rect: r(0, 0, 100, 50) },
        Request::MonitorFromWindow { .. } => Reply::Handle(7),
        Request::GetMonitorWorkArea { .. } => Reply::RectOut { result: 1, rect: r(0, 0, 1000, 800) },
        Request::SetWindowPos { .. } => Reply::Bool(0),
        _ => panic!("unexpected {:?}", req),
    });
    assert_eq!(result, 0);
    assert_eq!(calls[3], Request::MonitorFromWindow { hwnd: 100, flags: MONITOR_DEFAULTTONEAREST });
    assert_eq!(calls.len(), 6);
    assert_eq!(calls[5], Request::SetWindowPos { hwnd: 100, insert_after: 0, x: 450, y: 375, cx: -1, cy: -1, flags: 0x15 });
}

#[test]
fn center_child_in_parent_client_area() {
    let w = CWindow::new(10);
    let mut op = w.CenterWindow(0);
    let replies = vec![
        Reply::Long(WS_CHILD as i32),                               // style
        Reply::Handle(20),                                          // parent, as the centre
        Reply::RectOut { result: 1, rect: r(0, 0, 40, 20) },        // own rectangle
        Reply::Handle(20),                                          // parent
        Reply::RectOut { result: 1, rect: r(0, 0, 300, 200) },      // parent's client area
        Reply::RectOut { result: 1, rect: r(0, 0, 300, 200) },      // centre's client area
        Reply::RectOut { result: 2, rect: r(0, 0, 300, 200) },      // mapped
    ];
    for reply in replies {
        assert!(op.can_accept(&reply));
        match op.advance(reply) {
            Step::Call(_) => {}
            Step::Done(_) => panic!("finished early"),
        }
    }
    assert_eq!(op.phase, CenterPhase::Move);
    assert_eq!(op.request(), Request::SetWindowPos { hwnd: 10, insert_after: 0, x: 130, y: 90, cx: -1, cy: -1, flags: 0x15 });
    match op.advance(Reply::Bool(1)) {
        Step::Done(v) => assert_eq!(v, 1),
        Step::Call(_) => panic!("expected the end"),
    }
}

#[test]
fn center_rejects_wrong_or_overflowing_replies() {
    let w = CWindow::new(1);
    let op = w.CenterWindow(0);
    assert!(!op.can_accept(&Reply::Handle(3)));
    assert!(op.can_accept(&Reply::Long(0)));
}
