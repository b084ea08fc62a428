use std::collections::HashMap;
use wtl::broadcast::DescendantBroadcast;
use wtl::cwindow::CWindow;
use wtl::descend::DescendantSearch;
use wtl::request::{Reply, Request, Step};
use wtl::walk::{TopLevelParentSearch, TopLevelWindowSearch};
use wtl::win::{GWL_STYLE, GW_HWNDNEXT, GW_OWNER, WS_CHILD};

/// A little window tree: parent, owner, style, first child, next sibling, control ID.
#[derive(Default)]
struct Tree {
    parent: HashMap<usize, usize>,
    owner: HashMap<usize, usize>,
    style: HashMap<usize, u32>,
    first_child: HashMap<usize, usize>,
    next: HashMap<usize, usize>,
    id: HashMap<usize, i32>,
    sent: std::cell::RefCell<Vec<(usize, u32, usize, isize)>>,
}

impl Tree {
    fn answer(&self, req: &Request) -> Reply {
        let get = |m: &HashMap<usize, usize>, k: &usize| *m.get(k).unwrap_or(&0);
        match req {
            Request::GetParent { hwnd } => Reply::Handle(get(&self.parent, hwnd)),
            Request::GetWindow { hwnd, cmd } if *cmd == GW_OWNER => Reply::Handle(get(&self.owner, hwnd)),
            Request::GetWindow { hwnd, cmd } if *cmd == GW_HWNDNEXT => Reply::Handle(get(&self.next, hwnd)),
            Request::GetTopWindow { hwnd } => Reply::Handle(get(&self.first_child, hwnd)),
            Request::GetWindowLong { hwnd, index } if *index == GWL_STYLE => Reply::Long(*self.style.get(hwnd).unwrap_or(&0) as i32),
            Request::GetDlgItem { hwnd, id } => {
                // direct children with the ID
                let mut c = get(&self.first_child, hwnd);
                while c != 0 {
                    if self.id.get(&c) == Some(id) {
                        return Reply::Handle(c);
                    }
                    c = get(&self.next, &c);
                }
                Reply::Handle(0)
            }
            Request::SendMessage { hwnd, msg, wparam, lparam } => {
                self.sent.borrow_mut().push((*hwnd, *msg, *wparam, *lparam));
                Reply::Message(0)
            }
            _ => panic!("unexpected {:?}", req),
        }
    }
}

fn run_parent(mut op: TopLevelParentSearch, t: &Tree) -> usize {
    let mut req = op.request();
    loop {
        match op.advance(t.answer(&req)) {
            Step::Call(r) => req = r,
            Step::Done(w) => return w.GetHwnd(),
        }
    }
}

fn run_top_level(mut op: TopLevelWindowSearch, t: &Tree) -> usize {
    let mut req = op.request();
    loop {
        match op.advance(t.answer(&req)) {
            Step::Call(r) => req = r,
            Step::Done(w) => return w.GetHwnd(),
        }
    }
}

fn run_descendant(mut op: DescendantSearch, t: &Tree, limit: usize) -> Option<usize> {
    let mut req = op.request();
    for _ in 0..limit {
        match op.advance(t.answer(&req)) {
            Step::Call(r) => req = r,
            Step::Done(w) => return Some(w.GetHwnd()),
        }
    }
    None
}

fn run_broadcast(mut op: DescendantBroadcast, t: &Tree) {
    let mut req = op.request();
    loop {
        match op.advance(t.answer(&req)) {
            Step::Call(r) => req = r,
            Step::Done(()) => return,
        }
    }
}

#[test]
fn top_level_parent_follows_parents() {
    let mut t = Tree::default();
    t.parent.insert(3, 2);
    t.parent.insert(2, 1);
    assert_eq!(run_parent(CWindow::new(3).GetTopLevelParent(), &t), 1);
    assert_eq!(run_parent(CWindow::new(1).GetTopLevelParent(), &t), 1);
}

#[test]
fn top_level_window_uses_parent_for_children_and_owner_otherwise() {
    let mut t = Tree::default();
    t.style.insert(4, WS_CHILD);
    t.parent.insert(4, 3);
    t.owner.insert(4, 99); // not followed: 4 is a child
    t.owner.insert(3, 2); // 3 is not a child: its owner is followed
    t.parent.insert(3, 50); // not followed
    assert_eq!(run_top_level(CWindow::new(4).GetTopLevelWindow(), &t), 2);
    let mut op = CWindow::new(4).GetTopLevelWindow();
    assert_eq!(op.request(), Request::GetWindowLong { hwnd: 4, index: GWL_STYLE });
    match op.advance(Reply::Long(WS_CHILD as i32)) {
        Step::Call(r) => assert_eq!(r, Request::GetParent { hwnd: 4 }),
        Step::Done(_) => panic!("too early"),
    }
}

#[test]
fn descendant_found_directly() {
    let mut t = Tree::default();
    t.first_child.insert(1, 10);
    t.id.insert(10, 5);
    assert_eq!(run_descendant(CWindow::new(1).GetDescendantWindow(5), &t, 100), Some(10));
}

#[test]
fn descendant_prefers_match_below_found_item() {
    let mut t = Tree::default();
    t.first_child.insert(1, 10);
    t.id.insert(10, 5);
    t.first_child.insert(10, 20);
    t.id.insert(20, 5);
    assert_eq!(run_descendant(CWindow::new(1).GetDescendantWindow(5), &t, 100), Some(20));
}

#[test]
fn descendant_found_item_kept_when_its_child_has_no_children() {
    let mut t = Tree::default();
    t.first_child.insert(1, 10);
    t.id.insert(10, 5);
    t.first_child.insert(10, 20);
    t.next.insert(20, 21);
    t.id.insert(20, 6);
    t.first_child.insert(21, 0);
    // below 10: no item 5; its first child 20 is skipped and the search goes
    // below 21, which finds nothing; the loop then starts over at 20 and 21
    // again, so with a sibling that has children the search keeps going.
    assert_eq!(run_descendant(CWindow::new(1).GetDescendantWindow(5), &t, 200), None);
}

#[test]
fn descendant_loop_restarts_at_first_child() {
    // The child loop asks for the first child again after each fruitless
    // search below the second one.
    let mut op = CWindow::new(1).GetDescendantWindow(5);
    let script = [
        (Reply::Handle(0), Request::GetTopWindow { hwnd: 1 }),
        (Reply::Handle(10), Request::GetWindow { hwnd: 10, cmd: GW_HWNDNEXT }),
        (Reply::Handle(11), Request::GetDlgItem { hwnd: 11, id: 5 }),
        (Reply::Handle(0), Request::GetTopWindow { hwnd: 11 }),
        (Reply::Handle(0), Request::GetTopWindow { hwnd: 1 }),
    ];
    for (reply, expected) in script {
        match op.advance(reply) {
            Step::Call(r) => assert_eq!(r, expected),
            Step::Done(_) => panic!("finished early"),
        }
    }
}

#[test]
fn descendant_searched_below_second_child() {
    let mut t = Tree::default();
    t.first_child.insert(1, 10);
    t.next.insert(10, 11);
    t.first_child.insert(11, 30);
    t.id.insert(30, 7);
    assert_eq!(run_descendant(CWindow::new(1).GetDescendantWindow(7), &t, 100), Some(30));
}

#[test]
fn descendant_none_without_children() {
    let t = Tree::default();
    assert_eq!(run_descendant(CWindow::new(1).GetDescendantWindow(7), &t, 100), Some(0));
}

#[test]
fn descendant_requests_in_order() {
    let mut op = CWindow::new(1).GetDescendantWindow(3);
    assert_eq!(op.request(), Request::GetDlgItem { hwnd: 1, id: 3 });
    match op.advance(Reply::Handle(0)) {
        Step::Call(r) => assert_eq!(r, Request::GetTopWindow { hwnd: 1 }),
        Step::Done(_) => panic!(),
    }
    match op.advance(Reply::Handle(10)) {
        Step::Call(r) => assert_eq!(r, Request::GetWindow { hwnd: 10, cmd: GW_HWNDNEXT }),
        Step::Done(_) => panic!(),
    }
    match op.advance(Reply::Handle(11)) {
        Step::Call(r) => assert_eq!(r, Request::GetDlgItem { hwnd: 11, id: 3 }),
        Step::Done(_) => panic!(),
    }
}

#[test]
fn broadcast_shallow_reaches_children_only() {
    let mut t = Tree::default();
    t.first_child.insert(1, 10);
    t.next.insert(10, 11);
    t.first_child.insert(10, 20);
    run_broadcast(CWindow::new(1).SendMessageToDescendants(0x400, 7, -3, 0), &t);
    assert_eq!(*t.sent.borrow(), vec![(10, 0x400, 7, -3), (11, 0x400, 7, -3)]);
}

#[test]
fn broadcast_deep_reaches_grandchildren_depth_first() {
    let mut t = Tree::default();
    t.first_child.insert(1, 10);
    t.next.insert(10, 11);
    t.first_child.insert(10, 20);
    t.next.insert(20, 21);
    t.first_child.insert(21, 30);
    run_broadcast(CWindow::new(1).SendMessageToDescendants(0x401, 1, 2, 1), &t);
    let order: Vec<usize> = t.sent.borrow().iter().map(|s| s.0).collect();
    assert_eq!(order, vec![10, 20, 21, 30, 11]);
}

#[test]
fn broadcast_without_children_sends_nothing() {
    let t = Tree::default();
    run_broadcast(CWindow::new(1).SendMessageToDescendants(0x401, 1, 2, 1), &t);
    assert!(t.sent.borrow().is_empty());
}
