//! Window text: UTF-16 strings for the window manager, and reading a
//! window's text back.
use vstd::prelude::*;
use crate::cwindow::CWindow;
use crate::request::{fits, reply_handle, reply_long, Reply, Request, Step};
use crate::win::NULL_HWND;

verus! {

/// The UTF-16 encoding of one character: one unit below `0x10000`, a
/// surrogate pair above.
pub open spec fn utf16_of_char(c: char) -> Seq<u16> {
    let v = c as u32;
    if v < 0x10000 {
        seq![v as u16]
    } else {
        seq![(0xD800 + (v - 0x10000) / 0x400) as u16, (0xDC00 + (v - 0x10000) % 0x400) as u16]
    }
}

/// The UTF-16 encoding of a string.
pub open spec fn utf16_encode(s: Seq<char>) -> Seq<u16>
    decreases s.len(),
{
    if s.len() == 0 {
        seq![]
    } else {
        utf16_of_char(s[0]) + utf16_encode(s.drop_first())
    }
}

/// A leading (high) surrogate.
pub open spec fn is_high_surrogate(u: u16) -> bool {
    0xD800 <= u < 0xDC00
}

/// A trailing (low) surrogate.
pub open spec fn is_low_surrogate(u: u16) -> bool {
    0xDC00 <= u < 0xE000
}

/// The character that the surrogate pair `hi`, `lo` encodes.
pub open spec fn surrogate_pair_char(hi: u16, lo: u16) -> char {
    (0x10000 + (hi - 0xD800) * 0x400 + (lo - 0xDC00)) as char
}

/// The replacement character U+FFFD.
pub open spec fn replacement_char() -> char {
    '\u{FFFD}'
}

/// UTF-16 decoding that replaces each unpaired surrogate with U+FFFD.
pub open spec fn utf16_decode_lossy(s: Seq<u16>) -> Seq<char>
    decreases s.len(),
{
    if s.len() == 0 {
        seq![]
    } else if s.len() >= 2 && is_high_surrogate(s[0]) && is_low_surrogate(s[1]) {
        seq![surrogate_pair_char(s[0], s[1])] + utf16_decode_lossy(s.skip(2))
    } else if is_high_surrogate(s[0]) || is_low_surrogate(s[0]) {
        seq![replacement_char()] + utf16_decode_lossy(s.skip(1))
    } else {
        seq![s[0] as char] + utf16_decode_lossy(s.skip(1))
    }
}

/// `String::from_utf16_lossy`: decodes UTF-16, each unpaired surrogate
/// becoming U+FFFD. The contract restates std's documented behaviour (that
/// of `char::decode_utf16` with lossy replacement); it is not proved here.
#[verifier::external_body]
fn string_from_utf16_lossy(units: &[u16]) -> (s: String)
    ensures
        s@ == utf16_decode_lossy(units@),
{
    String::from_utf16_lossy(units)
}

proof fn lemma_encode_push(s: Seq<char>, c: char)
    ensures
        utf16_encode(s.push(c)) == utf16_encode(s) + utf16_of_char(c),
    decreases s.len(),
{
    if s.len() == 0 {
        assert(s.push(c).drop_first() =~= Seq::<char>::empty());
        assert(utf16_encode(Seq::<char>::empty()) =~= Seq::<u16>::empty());
        assert(utf16_encode(s.push(c)) =~= utf16_of_char(c));
    } else {
        assert(s.push(c).drop_first() =~= s.drop_first().push(c));
        lemma_encode_push(s.drop_first(), c);
        assert(utf16_encode(s.push(c)) =~= utf16_encode(s) + utf16_of_char(c));
    }
}

/// Law: text encoded for the window manager decodes back to the same text,
/// so what `SetWindowText` writes, `GetWindowText` reads back unchanged.
pub proof fn lemma_utf16_round_trip(s: Seq<char>)
    ensures
        utf16_decode_lossy(utf16_encode(s)) == s,
    decreases s.len(),
{
    if s.len() == 0 {
        assert(utf16_encode(s) =~= Seq::<u16>::empty());
        assert(utf16_decode_lossy(Seq::<u16>::empty()) =~= s);
    } else {
        let c = s[0];
        let rest = s.drop_first();
        let enc = utf16_encode(s);
        let tail = utf16_encode(rest);
        lemma_utf16_round_trip(rest);
        vstd::utf8::char_is_scalar(c);
        let v = c as u32;
        vstd::utf8::char_u32_cast(c, v);
        if v < 0x10000 {
            let u = v as u16;
            assert(enc =~= seq![u] + tail);
            assert(enc[0] == u);
            assert(!is_high_surrogate(u) && !is_low_surrogate(u));
            assert(enc.skip(1) =~= tail);
            assert(u as char == c);
            assert(utf16_decode_lossy(enc) =~= seq![c] + rest);
        } else {
            let hi = (0xD800 + (v - 0x10000) / 0x400) as u16;
            let lo = (0xDC00 + (v - 0x10000) % 0x400) as u16;
            assert(enc =~= seq![hi, lo] + tail);
            assert(enc[0] == hi && enc[1] == lo);
            assert(is_high_surrogate(hi) && is_low_surrogate(lo));
            assert(enc.skip(2) =~= tail);
            assert(0x10000 + (hi - 0xD800) * 0x400 + (lo - 0xDC00) == v);
            assert(surrogate_pair_char(hi, lo) == c);
            assert(utf16_decode_lossy(enc) =~= seq![c] + rest);
        }
        assert(seq![c] + rest =~= s);
    }
}

/// Law: a character below `0x10000` is one UTF-16 unit equal to its code;
/// any other is a leading surrogate followed by a trailing one, which
/// together give back its code.
pub proof fn lemma_utf16_of_char(c: char)
    ensures
        (c as u32) < 0x10000 ==> utf16_of_char(c).len() == 1 && utf16_of_char(c)[0] as u32 == c as u32
            && !is_high_surrogate(utf16_of_char(c)[0]) && !is_low_surrogate(utf16_of_char(c)[0]),
        (c as u32) >= 0x10000 ==> utf16_of_char(c).len() == 2 && is_high_surrogate(utf16_of_char(c)[0])
            && is_low_surrogate(utf16_of_char(c)[1])
            && 0x10000 + (utf16_of_char(c)[0] - 0xD800) * 0x400 + (utf16_of_char(c)[1] - 0xDC00) == c as u32,
{
    vstd::utf8::char_is_scalar(c);
}

/// Law: the encoding of two strings one after the other is the two
/// encodings one after the other.
pub proof fn lemma_utf16_encode_concat(s: Seq<char>, t: Seq<char>)
    ensures
        utf16_encode(s + t) == utf16_encode(s) + utf16_encode(t),
    decreases s.len(),
{
    if s.len() == 0 {
        assert(s + t =~= t);
        assert(utf16_encode(s) =~= Seq::<u16>::empty());
        assert(utf16_encode(s) + utf16_encode(t) =~= utf16_encode(t));
    } else {
        assert((s + t).drop_first() =~= s.drop_first() + t);
        assert((s + t)[0] == s[0]);
        lemma_utf16_encode_concat(s.drop_first(), t);
        assert(utf16_encode(s + t) =~= utf16_encode(s) + utf16_encode(t));
    }
}

/// Law: decoding a single unit gives that character, except that a lone
/// surrogate becomes U+FFFD; a leading surrogate followed by a trailing one
/// becomes the one character they encode.
pub proof fn lemma_utf16_decode_units(u: u16, w: u16)
    ensures
        !is_high_surrogate(u) && !is_low_surrogate(u) ==> utf16_decode_lossy(seq![u]) == seq![u as char],
        is_high_surrogate(u) || is_low_surrogate(u) ==> utf16_decode_lossy(seq![u]) == seq!['\u{FFFD}'],
        is_high_surrogate(u) && is_low_surrogate(w) ==> utf16_decode_lossy(seq![u, w])
            == seq![(0x10000 + (u - 0xD800) * 0x400 + (w - 0xDC00)) as char],
{
    reveal_with_fuel(utf16_decode_lossy, 2);
    assert(seq![u].skip(1) =~= Seq::<u16>::empty());
    assert(seq![u, w].skip(2) =~= Seq::<u16>::empty());
    assert(utf16_decode_lossy(Seq::<u16>::empty()) =~= Seq::<char>::empty());
    assert(seq![u as char] + Seq::<char>::empty() =~= seq![u as char]);
    assert(seq!['\u{FFFD}'] + Seq::<char>::empty() =~= seq!['\u{FFFD}']);
    assert(seq![surrogate_pair_char(u, w)] + Seq::<char>::empty() =~= seq![surrogate_pair_char(u, w)]);
}

/// `s` as a nul-terminated UTF-16 string, as the `W` functions of the
/// window manager take it.
pub fn to_c_u16(s: &str) -> (v: Vec<u16>)
    ensures
        v@ == utf16_encode(s@).push(0u16),
{
    let mut v: Vec<u16> = Vec::new();
    let ghost mut done: Seq<char> = Seq::empty();
    proof {
        broadcast use vstd::string::axiom_spec_iter;
    }
    for c in it: s.chars()
        invariant
            it.seq() == s@,
            done == it.seq().take(it.index()),
            v@ == utf16_encode(done),
    {
        proof {
            lemma_encode_push(done, c);
            assert(it.seq().take(it.index() + 1) =~= done.push(c));
        }
        let ghost before = v@;
        let code = c as u32;
        proof {
            vstd::utf8::char_is_scalar(c);
        }
        if code < 0x10000 {
            v.push(code as u16);
        } else {
            let u = code - 0x10000;
            assert(u / 0x400 < 0x400);
            v.push((0xD800 + u / 0x400) as u16);
            v.push((0xDC00 + u % 0x400) as u16);
        }
        assert(v@ =~= before + utf16_of_char(c));
        proof {
            done = done.push(c);
        }
    }
    proof {
        assert(done =~= s@);
    }
    v.push(0u16);
    v
}

/// The size of the buffer that text of `n_length` units (terminator
/// included) is read into: a fixed 128 units for short text, `n_length`
/// units otherwise.
pub open spec fn text_buffer_len(n_length: i32) -> usize {
    if n_length < 128 { 128 } else { n_length as usize }
}

/// Where a [`TextRead`] stands.
#[derive(Clone, Copy, Debug, PartialEq, Eq, Structural)]
pub enum TextPhase {
    /// Looking up the dialog item whose text is read.
    Item,
    /// Asking for the text's length.
    Length,
    /// Reading the text.
    Text,
    /// Done.
    Finished,
}

/// The operation `GetWindowText` (or `GetDlgItemText`) in progress.
#[derive(Clone, Copy, Debug)]
pub struct TextRead {
    /// The dialog that holds the item (for `GetDlgItemText`).
    pub owner: usize,
    /// The item's ID (for `GetDlgItemText`).
    pub id: i32,
    /// The window whose text is read.
    pub hwnd: usize,
    /// The text's length plus one, for the terminator.
    pub n_length: i32,
    pub phase: TextPhase,
}

impl TextRead {
    /// The call this operation waits for.
    pub open spec fn pending(self) -> Request {
        match self.phase {
            TextPhase::Item => Request::GetDlgItem { hwnd: self.owner, id: self.id },
            TextPhase::Length => Request::GetWindowTextLength { hwnd: self.hwnd },
            _ => Request::GetWindowText {
                hwnd: self.hwnd,
                max_count: self.n_length,
                buffer_len: text_buffer_len(self.n_length),
            },
        }
    }

    /// What `advance` needs of a reply: it answers the pending call; a
    /// length leaves room for the terminator in an `int`; the count read is
    /// the length asked for, less the terminator, and lies in the buffer.
    pub open spec fn accepts(self, reply: Reply) -> bool {
        &&& self.phase != TextPhase::Finished
        &&& fits(self.pending(), reply)
        &&& (self.phase == TextPhase::Length ==> reply->Long_0 < i32::MAX)
        &&& (self.phase == TextPhase::Text ==> {
            &&& reply->count == self.n_length - 1
            &&& 0 <= reply->count <= reply->buffer@.len()
        })
    }

    /// Whether `advance` can take `reply`.
    pub fn can_accept(&self, reply: &Reply) -> (b: bool)
        ensures
            b == self.accepts(*reply),
    {
        match (self.phase, reply) {
            (TextPhase::Item, Reply::Handle(_)) => true,
            (TextPhase::Length, Reply::Long(n)) => *n < i32::MAX,
            (TextPhase::Text, Reply::Text { count, buffer }) => {
                let want: usize = if self.n_length < 128 { 128 } else { self.n_length as usize };
                buffer.len() == want && self.n_length > i32::MIN && *count == self.n_length - 1 && 0 <= *count
                    && (*count as usize) <= buffer.len()
            },
            _ => false,
        }
    }

    /// The call this operation waits for.
    pub fn request(&self) -> (r: Request)
        requires
            self.phase != TextPhase::Finished,
        ensures
            r == self.pending(),
    {
        match self.phase {
            TextPhase::Item => Request::GetDlgItem { hwnd: self.owner, id: self.id },
            TextPhase::Length => Request::GetWindowTextLength { hwnd: self.hwnd },
            _ => Request::GetWindowText {
                hwnd: self.hwnd,
                max_count: self.n_length,
                buffer_len: if self.n_length < 128 { 128 } else { self.n_length as usize },
            },
        }
    }

    /// Takes the answer to the pending call. The text is what the buffer
    /// held up to the count read, decoded; a missing dialog item gives the
    /// empty text.
    pub fn advance(&mut self, reply: Reply) -> (s: Step<String>)
        requires
            old(self).accepts(reply),
        ensures
            final(self).owner == old(self).owner,
            final(self).id == old(self).id,
            old(self).phase == TextPhase::Item && reply->Handle_0 == NULL_HWND ==> final(self).phase == TextPhase::Finished
                && (s matches Step::Done(t) && t@ == Seq::<char>::empty()),
            old(self).phase == TextPhase::Item && reply->Handle_0 != NULL_HWND ==> final(self).phase == TextPhase::Length
                && final(self).hwnd == reply->Handle_0 && final(self).n_length == old(self).n_length
                && s == Step::<String>::Call(final(self).pending()),
            old(self).phase == TextPhase::Length ==> final(self).phase == TextPhase::Text && final(self).hwnd == old(self).hwnd
                && final(self).n_length == reply->Long_0 + 1 && s == Step::<String>::Call(final(self).pending()),
            old(self).phase == TextPhase::Text ==> final(self).phase == TextPhase::Finished
                && (s matches Step::Done(t) && t@ == utf16_decode_lossy(reply->buffer@.take(reply->count as int))),
    {
        match self.phase {
            TextPhase::Item => {
                let item = reply_handle(&reply);
                if item == NULL_HWND {
                    self.phase = TextPhase::Finished;
                    return Step::Done(String::new());
                }
                self.hwnd = item;
                self.phase = TextPhase::Length;
                Step::Call(self.request())
            },
            TextPhase::Length => {
                self.n_length = reply_long(&reply) + 1;
                self.phase = TextPhase::Text;
                Step::Call(self.request())
            },
            _ => {
                self.phase = TextPhase::Finished;
                match reply {
                    Reply::Text { count, buffer } => {
                        let n = count as usize;
                        let slice = vstd::slice::slice_subrange(buffer.as_slice(), 0, n);
                        Step::Done(string_from_utf16_lossy(slice))
                    },
                    _ => Step::Done(String::new()),
                }
            },
        }
    }
}

/// Law: a dialog item's text starts with looking the item up in its dialog
/// by ID, and any text starts with asking for its length.
pub proof fn lemma_text_first_calls(op: TextRead)
    ensures
        op.phase == TextPhase::Item ==> op.pending() == (Request::GetDlgItem { hwnd: op.owner, id: op.id }),
        op.phase == TextPhase::Length ==> op.pending() == (Request::GetWindowTextLength { hwnd: op.hwnd }),
{
}

/// Law: text is read into a buffer with room for everything asked for: at
/// least `max_count` units, and 128 units for short text.
pub proof fn lemma_text_buffer(op: TextRead)
    requires
        op.phase == TextPhase::Text,
    ensures
        op.pending() matches Request::GetWindowText { hwnd, max_count, buffer_len } && hwnd == op.hwnd
            && max_count == op.n_length && buffer_len >= 128 && buffer_len >= max_count
            && (max_count < 128 ==> buffer_len == 128),
{
}

impl CWindow {
    /// Starts reading this window's text.
    pub fn GetWindowText(&self) -> (op: TextRead)
        ensures
            op.hwnd == self@,
            op.phase == TextPhase::Length,
            op.pending() == (Request::GetWindowTextLength { hwnd: self@ }),
    {
        TextRead { owner: self.GetHwnd(), id: 0, hwnd: self.GetHwnd(), n_length: 0, phase: TextPhase::Length }
    }

    /// Starts reading the text of the dialog item `nID`; a missing item
    /// reads as the empty text.
    pub fn GetDlgItemText(&self, nID: u16) -> (op: TextRead)
        ensures
            op.owner == self@,
            op.id == nID as i32,
            op.phase == TextPhase::Item,
            op.pending() == (Request::GetDlgItem { hwnd: self@, id: nID as i32 }),
    {
        TextRead { owner: self.GetHwnd(), id: nID as i32, hwnd: NULL_HWND, n_length: 0, phase: TextPhase::Item }
    }
}

} // verus!
