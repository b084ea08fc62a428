//! `ModifyStyle` and `ModifyStyleEx`: change some bits of a window's style.
use vstd::prelude::*;
use crate::cwindow::CWindow;
use crate::request::{fits, reply_long, Reply, Request, Step};
use crate::win::{GWL_EXSTYLE, GWL_STYLE, NULL_HWND, SWP_NOACTIVATE, SWP_NOMOVE, SWP_NOSIZE, SWP_NOZORDER};

verus! {

/// The style `style` with the bits of `remove` cleared and those of `add`
/// set; a bit in both ends up set.
pub open spec fn modified_style_spec(style: u32, remove: u32, add: u32) -> u32 {
    (style & !remove) | add
}

/// The new style after removing `dwRemove` and adding `dwAdd`, or `None`
/// when that leaves `style` as it is.
pub fn modified_style(style: u32, dwRemove: u32, dwAdd: u32) -> (r: Option<u32>)
    ensures
        modified_style_spec(style, dwRemove, dwAdd) == style ==> r is None,
        modified_style_spec(style, dwRemove, dwAdd) != style ==> r == Some(modified_style_spec(style, dwRemove, dwAdd)),
{
    let new_style = (style & !dwRemove) | dwAdd;
    if new_style == style {
        None
    } else {
        Some(new_style)
    }
}

/// The `SetWindowPos` flags with which a style change is made visible: keep
/// size, position, Z order and activation, plus the caller's `flags`.
pub open spec fn style_change_swp_flags(flags: u32) -> u32 {
    SWP_NOSIZE | SWP_NOMOVE | SWP_NOZORDER | SWP_NOACTIVATE | flags
}

/// Law: after a change, every bit of `add` is set, every bit of `remove`
/// that is not in `add` is clear, and every other bit is as it was.
pub proof fn lemma_modified_style_bits(style: u32, remove: u32, add: u32)
    ensures
        modified_style_spec(style, remove, add) & add == add,
        modified_style_spec(style, remove, add) & (remove & !add) == 0,
        modified_style_spec(style, remove, add) & !(remove | add) == style & !(remove | add),
{
    assert((((style & !remove) | add) & add) == add) by (bit_vector);
    assert((((style & !remove) | add) & (remove & !add)) == 0) by (bit_vector);
    assert((((style & !remove) | add) & !(remove | add)) == (style & !(remove | add))) by (bit_vector);
}

/// Law: the same change made twice changes nothing the second time, so a
/// second identical `ModifyStyle` reports that nothing changed.
pub proof fn lemma_modified_style_idempotent(style: u32, remove: u32, add: u32)
    ensures
        modified_style_spec(modified_style_spec(style, remove, add), remove, add) == modified_style_spec(style, remove, add),
{
    assert((((((style & !remove) | add)) & !remove) | add) == ((style & !remove) | add)) by (bit_vector);
}

/// Where a [`StyleChangeOp`] stands.
#[derive(Clone, Copy, Debug, PartialEq, Eq, Structural)]
pub enum StylePhase {
    /// Reading the current style.
    Read,
    /// Writing the new style.
    Write,
    /// Making the change take effect on screen.
    Reposition,
    /// Done.
    Finished,
}

/// The operation `ModifyStyle` (on `GWL_STYLE`) or `ModifyStyleEx` (on
/// `GWL_EXSTYLE`) in progress.
#[derive(Clone, Copy, Debug)]
pub struct StyleChangeOp {
    pub hwnd: usize,
    /// `GWL_STYLE` or `GWL_EXSTYLE`.
    pub index: i32,
    pub remove: u32,
    pub add: u32,
    pub flags: u32,
    /// The style to write, once the current one is known.
    pub new_style: u32,
    pub phase: StylePhase,
}

impl StyleChangeOp {
    /// The call this operation waits for.
    pub open spec fn pending(self) -> Request {
        match self.phase {
            StylePhase::Read => Request::GetWindowLong { hwnd: self.hwnd, index: self.index },
            StylePhase::Write => Request::SetWindowLong { hwnd: self.hwnd, index: self.index, value: self.new_style as i32 },
            _ => Request::SetWindowPos {
                hwnd: self.hwnd,
                insert_after: NULL_HWND,
                x: 0,
                y: 0,
                cx: 0,
                cy: 0,
                flags: style_change_swp_flags(self.flags),
            },
        }
    }

    /// The call this operation waits for.
    pub fn request(&self) -> (r: Request)
        ensures
            r == self.pending(),
    {
        match self.phase {
            StylePhase::Read => Request::GetWindowLong { hwnd: self.hwnd, index: self.index },
            StylePhase::Write => Request::SetWindowLong {
                hwnd: self.hwnd,
                index: self.index,
                value: #[verifier::truncate] (self.new_style as i32),
            },
            _ => Request::SetWindowPos {
                hwnd: self.hwnd,
                insert_after: NULL_HWND,
                x: 0,
                y: 0,
                cx: 0,
                cy: 0,
                flags: SWP_NOSIZE | SWP_NOMOVE | SWP_NOZORDER | SWP_NOACTIVATE | self.flags,
            },
        }
    }

    /// Takes the answer to the pending call. The result is `false` when the
    /// style was already as asked (nothing is written then), and `true` once
    /// the new style is written and, for non-zero `flags`, the window was
    /// repositioned with them.
    pub fn advance(&mut self, reply: Reply) -> (s: Step<bool>)
        requires
            old(self).phase != StylePhase::Finished,
            fits(old(self).pending(), reply),
        ensures
            final(self).hwnd == old(self).hwnd,
            final(self).index == old(self).index,
            final(self).remove == old(self).remove,
            final(self).add == old(self).add,
            final(self).flags == old(self).flags,
            old(self).phase == StylePhase::Read ==> {
                let style = reply->Long_0 as u32;
                let new_style = modified_style_spec(style, old(self).remove, old(self).add);
                if new_style == style {
                    s == Step::<bool>::Done(false) && final(self).phase == StylePhase::Finished
                } else {
                    final(self).new_style == new_style && final(self).phase == StylePhase::Write
                        && s == Step::<bool>::Call(final(self).pending())
                }
            },
            old(self).phase == StylePhase::Write ==> final(self).new_style == old(self).new_style && if old(self).flags != 0 {
                final(self).phase == StylePhase::Reposition && s == Step::<bool>::Call(final(self).pending())
            } else {
                final(self).phase == StylePhase::Finished && s == Step::<bool>::Done(true)
            },
            old(self).phase == StylePhase::Reposition ==> final(self).new_style == old(self).new_style
                && final(self).phase == StylePhase::Finished && s == Step::<bool>::Done(true),
    {
        match self.phase {
            StylePhase::Read => {
                let style = #[verifier::truncate] (reply_long(&reply) as u32);
                match modified_style(style, self.remove, self.add) {
                    None => {
                        self.phase = StylePhase::Finished;
                        Step::Done(false)
                    },
                    Some(new_style) => {
                        self.new_style = new_style;
                        self.phase = StylePhase::Write;
                        Step::Call(self.request())
                    },
                }
            },
            StylePhase::Write => {
                if self.flags != 0 {
                    self.phase = StylePhase::Reposition;
                    Step::Call(self.request())
                } else {
                    self.phase = StylePhase::Finished;
                    Step::Done(true)
                }
            },
            _ => {
                self.phase = StylePhase::Finished;
                Step::Done(true)
            },
        }
    }
}

/// Law: the reposition that applies a style change keeps the window's size,
/// position, Z order and activation: it is a `SetWindowPos` of the window
/// itself with zero position and size and no window to insert after, whose
/// flags hold `SWP_NOSIZE`, `SWP_NOMOVE`, `SWP_NOZORDER`, `SWP_NOACTIVATE`
/// and every bit of the caller's flags, and no other bit.
pub proof fn lemma_style_reposition_request(op: StyleChangeOp)
    requires
        op.phase == StylePhase::Reposition,
    ensures
        op.pending() matches Request::SetWindowPos { hwnd, insert_after, x, y, cx, cy, flags } && hwnd == op.hwnd
            && insert_after == NULL_HWND && x == 0 && y == 0 && cx == 0 && cy == 0
            && flags & (SWP_NOSIZE | SWP_NOMOVE | SWP_NOZORDER | SWP_NOACTIVATE) == (SWP_NOSIZE | SWP_NOMOVE | SWP_NOZORDER | SWP_NOACTIVATE)
            && flags & op.flags == op.flags
            && flags & !(SWP_NOSIZE | SWP_NOMOVE | SWP_NOZORDER | SWP_NOACTIVATE | op.flags) == 0,
{
    let f = op.flags;
    assert((0x1u32 | 0x2u32 | 0x4u32 | 0x10u32 | f) & (0x1u32 | 0x2u32 | 0x4u32 | 0x10u32) == (0x1u32 | 0x2u32 | 0x4u32 | 0x10u32)
        && (0x1u32 | 0x2u32 | 0x4u32 | 0x10u32 | f) & f == f
        && (0x1u32 | 0x2u32 | 0x4u32 | 0x10u32 | f) & !(0x1u32 | 0x2u32 | 0x4u32 | 0x10u32 | f) == 0) by (bit_vector);
}

/// Law: the write of a style change stores, at the operation's index, the
/// style read with the bits of `remove` cleared and those of `add` set.
pub proof fn lemma_style_write_request(op: StyleChangeOp)
    requires
        op.phase == StylePhase::Write,
    ensures
        op.pending() == (Request::SetWindowLong { hwnd: op.hwnd, index: op.index, value: op.new_style as i32 }),
{
}

/// Law: the style written is the style read with `remove` cleared and `add`
/// set, and a change is written only when that differs from the style read.
pub proof fn lemma_modified_style_is_mask(style: u32, remove: u32, add: u32)
    ensures
        modified_style_spec(style, remove, add) == ((style & !remove) | add),
        (modified_style_spec(style, remove, add) == style) == ((style & !remove) | add == style),
{
}

impl CWindow {
    /// Starts removing the style bits `dwRemove` and adding `dwAdd`; non-zero
    /// `nFlags` are passed to `SetWindowPos` to apply the change.
    pub fn ModifyStyle(&self, dwRemove: u32, dwAdd: u32, nFlags: u32) -> (op: StyleChangeOp)
        ensures
            op.hwnd == self@,
            op.index == GWL_STYLE,
            op.remove == dwRemove,
            op.add == dwAdd,
            op.flags == nFlags,
            op.phase == StylePhase::Read,
    {
        StyleChangeOp {
            hwnd: self.GetHwnd(),
            index: GWL_STYLE,
            remove: dwRemove,
            add: dwAdd,
            flags: nFlags,
            new_style: 0,
            phase: StylePhase::Read,
        }
    }

    /// As [`CWindow::ModifyStyle`], on the extended style.
    pub fn ModifyStyleEx(&self, dwRemove: u32, dwAdd: u32, nFlags: u32) -> (op: StyleChangeOp)
        ensures
            op.hwnd == self@,
            op.index == GWL_EXSTYLE,
            op.remove == dwRemove,
            op.add == dwAdd,
            op.flags == nFlags,
            op.phase == StylePhase::Read,
    {
        StyleChangeOp {
            hwnd: self.GetHwnd(),
            index: GWL_EXSTYLE,
            remove: dwRemove,
            add: dwAdd,
            flags: nFlags,
            new_style: 0,
            phase: StylePhase::Read,
        }
    }
}

} // verus!
