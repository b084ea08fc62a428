//! The 32-bit x86 window-procedure thunk: a few bytes of machine code that
//! put the window object in place of the first argument on the stack and
//! jump to the real window procedure.
use vstd::prelude::*;
use crate::bytes::{hex_string, hex_text, le_bytes, le_value, lemma_le_bytes_value, pow256, push_le_bytes};
use crate::thunk_x64::lemma_le_bytes_len;

verus! {

/// The thunk's fields, laid out packed in this order.
#[derive(Debug)]
pub struct Thunk {
    /// `mov dword ptr [esp+4], imm32` (`C7 44 24 04`).
    pub m_mov: u32,
    /// The window object's address.
    pub m_this: u32,
    /// `jmp rel32` (`E9`).
    pub m_jmp: u8,
    /// The jump's offset, counted from the end of the thunk.
    pub m_relproc: u32,
}

/// The packed size of a [`Thunk`] in bytes.
pub const THUNK_SIZE: u32 = 13;

/// The machine code `mov dword ptr [esp+4], this; jmp rel`.
pub open spec fn thunk_code(this: u32, rel: u32) -> Seq<u8> {
    seq![0xC7u8, 0x44u8, 0x24u8, 0x04u8] + le_bytes(this as nat, 4) + seq![0xE9u8] + le_bytes(rel as nat, 4)
}

/// `init` can compute the jump offset on pointer-sized signed integers
/// without overflow: the thunk's end, `at + 13`, and `func - (at + 13)`.
pub open spec fn init_fits(func: u32, at: u32) -> bool {
    &&& (at as i32) + 13 <= i32::MAX
    &&& i32::MIN <= (func as i32) - ((at as i32) + 13) <= i32::MAX
}

/// Whether `init` can compute the jump offset for `func` at `at`.
pub fn init_fits_exec(func: u32, at: u32) -> (b: bool)
    ensures
        b == init_fits(func, at),
{
    let f: i64 = (#[verifier::truncate] (func as i32)) as i64;
    let a: i64 = (#[verifier::truncate] (at as i32)) as i64;
    a + 13 <= i32::MAX as i64 && i32::MIN as i64 <= f - (a + 13) && f - (a + 13) <= i32::MAX as i64
}

/// The jump offset that `init` stores: `func - (at + 13)`, on signed
/// 32-bit integers, stored as its bit pattern.
pub open spec fn relproc_spec(func: u32, at: u32) -> u32 {
    ((func as i32) - ((at as i32) + 13)) as u32
}

impl Default for Thunk {
    fn default() -> (t: Thunk)
        ensures
            t.m_mov == 0 && t.m_this == 0 && t.m_jmp == 0 && t.m_relproc == 0,
    {
        Thunk { m_mov: 0, m_this: 0, m_jmp: 0, m_relproc: 0 }
    }
}

impl Thunk {
    /// The thunk's bytes as they lie in memory.
    pub open spec fn layout(&self) -> Seq<u8> {
        le_bytes(self.m_mov as nat, 4) + le_bytes(self.m_this as nat, 4) + le_bytes(self.m_jmp as nat, 1)
            + le_bytes(self.m_relproc as nat, 4)
    }

    /// Fills the thunk in, at address `at`, to call `func` with the window
    /// object `p_this`.
    pub fn init(&mut self, func: u32, p_this: u32, at: u32)
        requires
            init_fits(func, at),
        ensures
            final(self).m_mov == 0x042444C7,
            final(self).m_this == p_this,
            final(self).m_jmp == 0xe9,
            final(self).m_relproc == relproc_spec(func, at),
            final(self).layout() == thunk_code(p_this, relproc_spec(func, at)),
    {
        self.m_mov = 0x042444C7;
        self.m_this = p_this;
        self.m_jmp = 0xe9;
        let f = #[verifier::truncate] (func as i32);
        let a = #[verifier::truncate] (at as i32);
        self.m_relproc = #[verifier::truncate] ((f - (a + 13)) as u32);
        proof {
            reveal_with_fuel(le_bytes, 5);
            assert(le_bytes(0x042444C7, 4) =~= seq![0xC7u8, 0x44u8, 0x24u8, 0x04u8]);
            assert(le_bytes(0xe9, 1) =~= seq![0xE9u8]);
        }
    }

    /// The thunk's bytes as they lie in memory.
    pub fn bytes(&self) -> (b: Vec<u8>)
        ensures
            b@ == self.layout(),
            b@.len() == THUNK_SIZE,
    {
        let mut b: Vec<u8> = Vec::new();
        push_le_bytes(&mut b, self.m_mov as u64, 4);
        push_le_bytes(&mut b, self.m_this as u64, 4);
        push_le_bytes(&mut b, self.m_jmp as u64, 1);
        push_le_bytes(&mut b, self.m_relproc as u64, 4);
        proof {
            lemma_le_bytes_len(self.m_mov as nat, 4);
            lemma_le_bytes_len(self.m_this as nat, 4);
            lemma_le_bytes_len(self.m_jmp as nat, 1);
            lemma_le_bytes_len(self.m_relproc as nat, 4);
        }
        b
    }

    /// The thunk's bytes in lowercase hexadecimal, each followed by a space.
    pub fn to_hex_string(&self) -> (s: String)
        ensures
            s@ == hex_text(self.layout()),
    {
        hex_string(&self.bytes())
    }
}

/// Law: an initialised thunk's bytes are `C7 44 24 04`, then the four bytes
/// that read back as the window object, then `E9`, then the four bytes that
/// read back as the jump offset.
pub proof fn lemma_thunk_fields(this: u32, rel: u32)
    ensures
        thunk_code(this, rel).len() == THUNK_SIZE,
        thunk_code(this, rel).subrange(0, 4) == seq![0xC7u8, 0x44u8, 0x24u8, 0x04u8],
        le_value(thunk_code(this, rel).subrange(4, 8)) == this,
        thunk_code(this, rel)[8] == 0xE9u8,
        le_value(thunk_code(this, rel).subrange(9, 13)) == rel,
{
    lemma_le_bytes_value(this as nat, 4);
    lemma_le_bytes_value(rel as nat, 4);
    assert(pow256(0) == 1);
    assert(pow256(1) == 0x100);
    assert(pow256(2) == 0x1_0000);
    assert(pow256(3) == 0x100_0000);
    assert(pow256(4) == 0x1_0000_0000);
    vstd::arithmetic::div_mod::lemma_small_mod(this as nat, pow256(4));
    vstd::arithmetic::div_mod::lemma_small_mod(rel as nat, pow256(4));
    let c = thunk_code(this, rel);
    assert(c.subrange(0, 4) =~= seq![0xC7u8, 0x44u8, 0x24u8, 0x04u8]);
    assert(c.subrange(4, 8) =~= le_bytes(this as nat, 4));
    assert(c.subrange(9, 13) =~= le_bytes(rel as nat, 4));
}

/// Law: the jump of a thunk initialised at `at` lands on `func`: the end of
/// the thunk plus the stored offset is `func`, modulo the 32-bit address
/// space.
pub proof fn lemma_jump_lands_on_func(func: u32, at: u32)
    requires
        init_fits(func, at),
    ensures
        (at as int + THUNK_SIZE as int + relproc_spec(func, at) as int) % 0x1_0000_0000 == func as int,
{
    let r = relproc_spec(func, at);
    assert((((at as int + 13 + r as int) % 0x1_0000_0000) as u32) == func) by (bit_vector)
        requires
            r == (((func as i32) - ((at as i32) + 13)) as u32),
            (at as i32) + 13 <= i32::MAX,
    ;
}

} // verus!
