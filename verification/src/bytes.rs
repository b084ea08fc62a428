//! Little-endian byte layouts and their hexadecimal rendering.
use vstd::prelude::*;
use vstd::string::StringExecFns;

verus! {

/// The `n` low bytes of `v`, least significant first.
pub open spec fn le_bytes(v: nat, n: nat) -> Seq<u8>
    decreases n,
{
    if n == 0 {
        seq![]
    } else {
        seq![(v % 256) as u8] + le_bytes(v / 256, (n - 1) as nat)
    }
}

/// The `n` low bytes of `v`, least significant first.
pub fn push_le_bytes(out: &mut Vec<u8>, v: u64, n: u64)
    requires
        n <= 8,
    ensures
        final(out)@ == old(out)@ + le_bytes(v as nat, n as nat),
{
    let mut rest: u64 = v;
    let mut i: u64 = 0;
    while i < n
        invariant
            i <= n,
            old(out)@ + le_bytes(v as nat, n as nat) == out@ + le_bytes(rest as nat, (n - i) as nat),
        decreases n - i,
    {
        let ghost before = out@;
        let b = (rest & 0xff) as u8;
        assert(rest & 0xff == rest % 256) by (bit_vector);
        assert(rest >> 8 == rest / 256) by (bit_vector);
        out.push(b);
        let ghost old_rest = rest;
        rest = rest >> 8;
        i = i + 1;
        assert(le_bytes(old_rest as nat, (n - i + 1) as nat) == seq![(old_rest % 256) as u8] + le_bytes(rest as nat, (n - i) as nat));
        assert(out@ == before.push(b));
        assert(before + le_bytes(old_rest as nat, (n - i + 1) as nat) =~= out@ + le_bytes(rest as nat, (n - i) as nat));
    }
    assert(le_bytes(rest as nat, 0) =~= Seq::<u8>::empty());
    assert(out@ + le_bytes(rest as nat, 0) =~= out@);
}

/// The number that little-endian bytes stand for.
pub open spec fn le_value(bytes: Seq<u8>) -> nat
    decreases bytes.len(),
{
    if bytes.len() == 0 {
        0
    } else {
        (bytes[0] as nat + 256 * le_value(bytes.drop_first())) as nat
    }
}

/// `256` to the power `n`.
pub open spec fn pow256(n: nat) -> nat
    decreases n,
{
    if n == 0 {
        1
    } else {
        (256 * pow256((n - 1) as nat)) as nat
    }
}

/// Law: `n` little-endian bytes of `v` stand for `v` modulo `256^n`: they
/// are `n` bytes, and reading them back gives the low part of `v`.
pub proof fn lemma_le_bytes_value(v: nat, n: nat)
    ensures
        le_bytes(v, n).len() == n,
        pow256(n) > 0,
        le_value(le_bytes(v, n)) == v % pow256(n),
    decreases n,
{
    if n > 0 {
        lemma_le_bytes_value(v / 256, (n - 1) as nat);
        let b = le_bytes(v, n);
        assert(b.drop_first() =~= le_bytes(v / 256, (n - 1) as nat));
        assert(b[0] == (v % 256) as u8);
        vstd::arithmetic::div_mod::lemma_mod_breakdown(v as int, 256, pow256((n - 1) as nat) as int);
        assert(pow256(n) == 256 * pow256((n - 1) as nat));
    }
}

/// The lowercase hexadecimal digit for `d < 16`.
pub open spec fn hex_digit(d: nat) -> char {
    if d < 10 {
        ((48 + d) as u8) as char
    } else {
        ((87 + d) as u8) as char
    }
}

/// A byte in lowercase hexadecimal without leading zeros, as `{:x}` writes
/// it, followed by a space.
pub open spec fn hex_byte_text(b: u8) -> Seq<char> {
    if b < 16 {
        seq![hex_digit(b as nat), ' ']
    } else {
        seq![hex_digit((b / 16) as nat), hex_digit((b % 16) as nat), ' ']
    }
}

/// The bytes in lowercase hexadecimal, each followed by a space.
pub open spec fn hex_text(bytes: Seq<u8>) -> Seq<char>
    decreases bytes.len(),
{
    if bytes.len() == 0 {
        seq![]
    } else {
        hex_text(bytes.drop_last()) + hex_byte_text(bytes.last())
    }
}

/// Law: the digits are `0`-`9` for values below ten, and lowercase `a`-`f`
/// above.
pub proof fn lemma_hex_digit(d: nat)
    requires
        d < 16,
    ensures
        d < 10 ==> hex_digit(d) as u32 == 48 + d,
        d >= 10 ==> hex_digit(d) as u32 == 97 + (d - 10),
{
}

/// Law: the text of bytes one after the other is the texts one after the
/// other, so each byte's text stands on its own.
pub proof fn lemma_hex_text_concat(a: Seq<u8>, b: Seq<u8>)
    ensures
        hex_text(a + b) == hex_text(a) + hex_text(b),
    decreases b.len(),
{
    if b.len() == 0 {
        assert(a + b =~= a);
        assert(hex_text(b) =~= Seq::<char>::empty());
        assert(hex_text(a) + hex_text(b) =~= hex_text(a));
    } else {
        assert((a + b).drop_last() =~= a + b.drop_last());
        assert((a + b).last() == b.last());
        lemma_hex_text_concat(a, b.drop_last());
        assert(hex_text(a + b) =~= hex_text(a) + hex_text(b));
    }
}

/// `format!("{:x} ", b)`: the byte in lowercase hexadecimal, as std's
/// `LowerHex` writes an unsigned integer (no leading zeros, no prefix),
/// followed by a space. The contract restates that documented format; it is
/// not proved here.
#[verifier::external_body]
fn hex_byte_string(b: u8) -> (s: String)
    ensures
        s@ == hex_byte_text(b),
{
    format!("{:x} ", b)
}

/// The bytes in lowercase hexadecimal, each followed by a space.
pub fn hex_string(bytes: &Vec<u8>) -> (s: String)
    ensures
        s@ == hex_text(bytes@),
{
    let mut s = String::new();
    let mut i: usize = 0;
    while i < bytes.len()
        invariant
            i <= bytes.len(),
            s@ == hex_text(bytes@.take(i as int)),
        decreases bytes.len() - i,
    {
        let piece = hex_byte_string(bytes[i]);
        s.append(piece.as_str());
        assert(bytes@.take(i + 1).drop_last() =~= bytes@.take(i as int));
        i = i + 1;
    }
    assert(bytes@.take(bytes.len() as int) =~= bytes@);
    s
}

} // verus!
