use wtl::cwindow::CWindow;
use wtl::request::{Reply, Request, Step};
use wtl::style::{modified_style, StylePhase};
use wtl::win::{GWL_EXSTYLE, GWL_STYLE};

#[test]
fn modified_style_masks() {
    assert_eq!(modified_style(0b1010, 0b0010, 0b0101), Some(0b1101));
    assert_eq!(modified_style(0b1010, 0b0001, 0b1000), None);
    // a bit both removed and added ends up set
    assert_eq!(modified_style(0, 0b1, 0b1), Some(0b1));
}

#[test]
fn modify_style_twice_changes_once() {
    let style = 0x1000_0000u32;
    let first = modified_style(style, 0x1000_0000, 0x4000_0000).unwrap();
    assert_eq!(first, 0x4000_0000);
    assert_eq!(modified_style(first, 0x1000_0000, 0x4000_0000), None);
}

#[test]
fn modify_style_unchanged_writes_nothing() {
    let w = CWindow::new(8);
    let mut op = w.ModifyStyle(0, 0x10, 0x20);
    assert_eq!(op.request(), Request::GetWindowLong { hwnd: 8, index: GWL_STYLE });
    match op.advance(Reply::Long(0x10)) {
        Step::Done(changed) => assert!(!changed),
        Step::Call(r) => panic!("unexpected {:?}", r),
    }
}

#[test]
fn modify_style_writes_then_repositions() {
    let w = CWindow::new(8);
    let mut op = w.ModifyStyle(0x1, 0x10, 0x20);
    match op.advance(Reply::Long(0x3)) {
        Step::Call(r) => assert_eq!(r, Request::SetWindowLong { hwnd: 8, index: GWL_STYLE, value: 0x12 }),
        Step::Done(_) => panic!("expected a write"),
    }
    match op.advance(Reply::Long(0x3)) {
        Step::Call(r) => assert_eq!(r, Request::SetWindowPos { hwnd: 8, insert_after: 0, x: 0, y: 0, cx: 0, cy: 0, flags: 0x37 }),
        Step::Done(_) => panic!("expected a reposition"),
    }
    match op.advance(Reply::Bool(0)) {
        Step::Done(changed) => assert!(changed),
        Step::Call(r) => panic!("unexpected {:?}", r),
    }
    assert_eq!(op.phase, StylePhase::Finished);
}

#[test]
fn modify_style_ex_without_flags_skips_reposition() {
    let w = CWindow::new(9);
    let mut op = w.ModifyStyleEx(0, 0x8000_0000, 0);
    assert_eq!(op.request(), Request::GetWindowLong { hwnd: 9, index: GWL_EXSTYLE });
    match op.advance(Reply::Long(0)) {
        Step::Call(r) => assert_eq!(r, Request::SetWindowLong { hwnd: 9, index: GWL_EXSTYLE, value: i32::MIN }),
        Step::Done(_) => panic!("expected a write"),
    }
    match op.advance(Reply::Long(0)) {
        Step::Done(changed) => assert!(changed),
        Step::Call(r) => panic!("unexpected {:?}", r),
    }
}
