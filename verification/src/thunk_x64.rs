//! The x86-64 window-procedure thunk: a few bytes of machine code that load
//! the window object into `rcx` and jump to the real window procedure.
use vstd::prelude::*;
use crate::bytes::{hex_string, hex_text, le_bytes, le_value, lemma_le_bytes_value, pow256, push_le_bytes};

verus! {

/// The thunk's fields, laid out packed in this order.
#[derive(Debug)]
pub struct Thunk {
    /// `mov rcx, imm64` (`48 B9`).
    pub rcx_mov: u16,
    /// The window object's address.
    pub rcx_imm: u64,
    /// `mov rax, imm64` (`48 B8`).
    pub rax_mov: u16,
    /// The window procedure's address.
    pub rax_imm: u64,
    /// `jmp rax` (`FF E0`).
    pub rax_jmp: u16,
}

/// The packed size of a [`Thunk`] in bytes.
pub const THUNK_SIZE: usize = 22;

/// The machine code `mov rcx, this; mov rax, func; jmp rax`.
pub open spec fn thunk_code(func: u64, this: u64) -> Seq<u8> {
    seq![0x48u8, 0xB9u8] + le_bytes(this as nat, 8) + seq![0x48u8, 0xB8u8] + le_bytes(func as nat, 8) + seq![0xFFu8, 0xE0u8]
}

impl Default for Thunk {
    fn default() -> (t: Thunk)
        ensures
            t.rcx_mov == 0 && t.rcx_imm == 0 && t.rax_mov == 0 && t.rax_imm == 0 && t.rax_jmp == 0,
    {
        Thunk { rcx_mov: 0, rcx_imm: 0, rax_mov: 0, rax_imm: 0, rax_jmp: 0 }
    }
}

impl Thunk {
    /// The thunk's bytes as they lie in memory.
    pub open spec fn layout(&self) -> Seq<u8> {
        le_bytes(self.rcx_mov as nat, 2) + le_bytes(self.rcx_imm as nat, 8) + le_bytes(self.rax_mov as nat, 2)
            + le_bytes(self.rax_imm as nat, 8) + le_bytes(self.rax_jmp as nat, 2)
    }

    /// Fills the thunk in to call `func` with the window object `p_this`.
    pub fn init(&mut self, func: u64, p_this: u64)
        ensures
            final(self).rcx_mov == 0xb948,
            final(self).rcx_imm == p_this,
            final(self).rax_mov == 0xb848,
            final(self).rax_imm == func,
            final(self).rax_jmp == 0xe0ff,
            final(self).layout() == thunk_code(func, p_this),
    {
        self.rcx_mov = 0xb948;
        self.rcx_imm = p_this;
        self.rax_mov = 0xb848;
        self.rax_imm = func;
        self.rax_jmp = 0xe0ff;
        proof {
            lemma_init_code(*self, func, p_this);
        }
    }

    /// The thunk's bytes as they lie in memory.
    pub fn bytes(&self) -> (b: Vec<u8>)
        ensures
            b@ == self.layout(),
            b@.len() == THUNK_SIZE,
    {
        let mut b: Vec<u8> = Vec::new();
        push_le_bytes(&mut b, self.rcx_mov as u64, 2);
        push_le_bytes(&mut b, self.rcx_imm, 8);
        push_le_bytes(&mut b, self.rax_mov as u64, 2);
        push_le_bytes(&mut b, self.rax_imm, 8);
        push_le_bytes(&mut b, self.rax_jmp as u64, 2);
        proof {
            lemma_le_bytes_len(self.rcx_mov as nat, 2);
            lemma_le_bytes_len(self.rcx_imm as nat, 8);
            lemma_le_bytes_len(self.rax_mov as nat, 2);
            lemma_le_bytes_len(self.rax_imm as nat, 8);
            lemma_le_bytes_len(self.rax_jmp as nat, 2);
        }
        b
    }

    /// The thunk's bytes in lowercase hexadecimal, each followed by a space.
    pub fn to_hex_string(&self) -> (s: String)
        ensures
            s@ == hex_text(self.layout()),
    {
        hex_string(&self.bytes())
    }
}

/// Law: an initialised thunk's bytes are `48 B9`, then the eight bytes that
/// read back as `p_this`, then `48 B8`, then the eight bytes that read back
/// as `func`, then `FF E0`.
pub proof fn lemma_thunk_fields(func: u64, p_this: u64)
    ensures
        thunk_code(func, p_this).len() == THUNK_SIZE,
        thunk_code(func, p_this).subrange(0, 2) == seq![0x48u8, 0xB9u8],
        le_value(thunk_code(func, p_this).subrange(2, 10)) == p_this,
        thunk_code(func, p_this).subrange(10, 12) == seq![0x48u8, 0xB8u8],
        le_value(thunk_code(func, p_this).subrange(12, 20)) == func,
        thunk_code(func, p_this).subrange(20, 22) == seq![0xFFu8, 0xE0u8],
{
    lemma_le_bytes_value(p_this as nat, 8);
    lemma_le_bytes_value(func as nat, 8);
    assert(pow256(0) == 1);
    assert(pow256(1) == 0x100);
    assert(pow256(2) == 0x1_0000);
    assert(pow256(3) == 0x100_0000);
    assert(pow256(4) == 0x1_0000_0000);
    assert(pow256(5) == 0x100_0000_0000);
    assert(pow256(6) == 0x1_0000_0000_0000);
    assert(pow256(7) == 0x100_0000_0000_0000);
    assert(pow256(8) == 0x1_0000_0000_0000_0000);
    vstd::arithmetic::div_mod::lemma_small_mod(p_this as nat, pow256(8));
    vstd::arithmetic::div_mod::lemma_small_mod(func as nat, pow256(8));
    let c = thunk_code(func, p_this);
    assert(c.subrange(0, 2) =~= seq![0x48u8, 0xB9u8]);
    assert(c.subrange(2, 10) =~= le_bytes(p_this as nat, 8));
    assert(c.subrange(10, 12) =~= seq![0x48u8, 0xB8u8]);
    assert(c.subrange(12, 20) =~= le_bytes(func as nat, 8));
    assert(c.subrange(20, 22) =~= seq![0xFFu8, 0xE0u8]);
}

/// `n` bytes are `n` long.
pub proof fn lemma_le_bytes_len(v: nat, n: nat)
    ensures
        le_bytes(v, n).len() == n,
    decreases n,
{
    if n > 0 {
        lemma_le_bytes_len(v / 256, (n - 1) as nat);
    }
}

/// The fields that `init` writes lay out as the code `mov rcx, p_this;
/// mov rax, func; jmp rax`.
proof fn lemma_init_code(t: Thunk, func: u64, p_this: u64)
    requires
        t.rcx_mov == 0xb948,
        t.rcx_imm == p_this,
        t.rax_mov == 0xb848,
        t.rax_imm == func,
        t.rax_jmp == 0xe0ff,
    ensures
        t.layout() == thunk_code(func, p_this),
{
    reveal_with_fuel(le_bytes, 3);
    assert(le_bytes(0xb948, 2) =~= seq![0x48u8, 0xB9u8]);
    assert(le_bytes(0xb848, 2) =~= seq![0x48u8, 0xB8u8]);
    assert(le_bytes(0xe0ff, 2) =~= seq![0xFFu8, 0xE0u8]);
}

} // verus!
