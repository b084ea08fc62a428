use wtl::cwindow::CWindow;
use wtl::request::{Reply, Request, Step};
use wtl::text::{to_c_u16, TextRead};

fn read(mut op: TextRead, answer: impl Fn(&Request) -> Reply) -> String {
    let mut req = op.request();
    loop {
        let reply = answer(&req);
        assert!(op.can_accept(&reply));
        match op.advance(reply) {
            Step::Call(r) => req = r,
            Step::Done(s) => return s,
        }
    }
}

fn text_window(text: &str) -> impl Fn(&Request) -> Reply {
    let units: Vec<u16> = text.encode_utf16().collect();
    move |req| match req {
        Request::GetWindowTextLength { .. } => Reply::Long(units.len() as i32),
        Request::GetWindowText { max_count, buffer_len, .. } => {
            let mut buffer = vec![0u16; *buffer_len];
            let n = units.len().min((*max_count - 1) as usize);
            buffer[..n].copy_from_slice(&units[..n]);
            Reply::Text { count: n as i32, buffer }
        }
        Request::GetDlgItem { id, .. } => Reply::Handle(if *id == 7 { 70 } else { 0 }),
        _ => panic!("unexpected {:?}", req),
    }
}

#[test]
fn to_c_u16_terminates_and_encodes_pairs() {
    assert_eq!(to_c_u16("Hi"), vec![72, 105, 0]);
    assert_eq!(to_c_u16(""), vec![0]);
    assert_eq!(to_c_u16("é€"), vec![0xE9, 0x20AC, 0]);
    assert_eq!(to_c_u16("😀"), vec![0xD83D, 0xDE00, 0]);
}

#[test]
fn short_text_reads_through_fixed_buffer() {
    let s = read(CWindow::new(3).GetWindowText(), text_window("Hello"));
    assert_eq!(s, "Hello");
    let mut op = CWindow::new(3).GetWindowText();
    match op.advance(Reply::Long(5)) {
        Step::Call(r) => assert_eq!(r, Request::GetWindowText { hwnd: 3, max_count: 6, buffer_len: 128 }),
        Step::Done(_) => panic!(),
    }
}

#[test]
fn long_text_reads_through_sized_buffer() {
    let long: String = std::iter::repeat("ab😀").take(100).collect();
    let s = read(CWindow::new(3).GetWindowText(), text_window(&long));
    assert_eq!(s, long);
    let mut op = CWindow::new(3).GetWindowText();
    match op.advance(Reply::Long(400)) {
        Step::Call(r) => assert_eq!(r, Request::GetWindowText { hwnd: 3, max_count: 401, buffer_len: 401 }),
        Step::Done(_) => panic!(),
    }
}

#[test]
fn text_round_trips_through_utf16() {
    for t in ["", "plain", "Grüße", "日本語", "😀x😀"] {
        let units = to_c_u16(t);
        let written = String::from_utf16(&units[..units.len() - 1]).unwrap();
        assert_eq!(written, t);
        assert_eq!(read(CWindow::new(1).GetWindowText(), text_window(t)), t);
    }
}

#[test]
fn unpaired_surrogate_reads_as_replacement() {
    let s = read(CWindow::new(3).GetWindowText(), |req| match req {
        Request::GetWindowTextLength { .. } => Reply::Long(2),
        Request::GetWindowText { buffer_len, .. } => {
            let mut buffer = vec![0u16; *buffer_len];
            buffer[0] = 0xD800;
            buffer[1] = 0x41;
            Reply::Text { count: 2, buffer }
        }
        _ => panic!(),
    });
    assert_eq!(s, "\u{FFFD}A");
}

#[test]
fn dlg_item_text_of_missing_item_is_empty() {
    let s = read(CWindow::new(1).GetDlgItemText(8), text_window("x"));
    assert_eq!(s, "");
    let t = read(CWindow::new(1).GetDlgItemText(7), text_window("item"));
    assert_eq!(t, "item");
}

#[test]
fn text_read_rejects_short_count() {
    let mut op = CWindow::new(3).GetWindowText();
    let _ = op.advance(Reply::Long(5));
    assert!(!op.can_accept(&Reply::Text { count: 3, buffer: vec![0; 128] }));
    assert!(!op.can_accept(&Reply::Text { count: 5, buffer: vec![0; 6] }));
    assert!(op.can_accept(&Reply::Text { count: 5, buffer: vec![0; 128] }));
    let op2 = CWindow::new(3).GetWindowText();
    assert!(!op2.can_accept(&Reply::Long(i32::MAX)));
}
