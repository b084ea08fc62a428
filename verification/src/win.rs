//! Handle types, constants and integer helpers of the Win32 windowing API,
//! as plain values.
use vstd::prelude::*;

verus! {

/// A window handle, by its numeric value. `0` is the null handle.
pub type Hwnd = usize;

/// The null window handle.
pub const NULL_HWND: usize = 0;

/// The null `LPARAM`.
pub const NULL_LPARAM: isize = 0;

/// Win32 `TRUE`.
pub const TRUE: i32 = 1;

/// Win32 `FALSE`.
pub const FALSE: i32 = 0;

pub const WS_CHILD: u32 = 0x4000_0000;
pub const WS_MINIMIZE: u32 = 0x2000_0000;
pub const WS_VISIBLE: u32 = 0x1000_0000;

pub const SWP_NOSIZE: u32 = 0x0001;
pub const SWP_NOMOVE: u32 = 0x0002;
pub const SWP_NOZORDER: u32 = 0x0004;
pub const SWP_NOREDRAW: u32 = 0x0008;
pub const SWP_NOACTIVATE: u32 = 0x0010;

pub const GW_HWNDNEXT: u32 = 2;
pub const GW_OWNER: u32 = 4;

pub const GWL_EXSTYLE: i32 = -20;
pub const GWL_STYLE: i32 = -16;
pub const GWL_ID: i32 = -12;

/// `CW_USEDEFAULT`: the bit pattern `0x80000000` read as a signed `int`.
pub const CW_USEDEFAULT: i32 = -2147483648i32;

pub const RDW_INVALIDATE: u32 = 0x0001;
pub const RDW_ERASE: u32 = 0x0004;
pub const RDW_UPDATENOW: u32 = 0x0100;

pub const WM_SETREDRAW: u32 = 0x000B;
pub const WM_NEXTDLGCTL: u32 = 0x0028;
pub const WM_SETFONT: u32 = 0x0030;
pub const WM_GETFONT: u32 = 0x0031;
pub const WM_SETHOTKEY: u32 = 0x0032;
pub const WM_GETHOTKEY: u32 = 0x0033;
pub const WM_GETICON: u32 = 0x007F;
pub const WM_SETICON: u32 = 0x0080;
pub const WM_PRINT: u32 = 0x0317;
pub const WM_PRINTCLIENT: u32 = 0x0318;

pub const MONITOR_DEFAULTTONULL: u32 = 0x0000_0000;
pub const MONITOR_DEFAULTTOPRIMARY: u32 = 0x0000_0001;
pub const MONITOR_DEFAULTTONEAREST: u32 = 0x0000_0002;

/// The way this library reads a Win32 `BOOL` result: only `TRUE` (1) counts
/// as success; any other value, including other non-zero values, is failure.
pub fn is_true(b: i32) -> (r: bool)
    ensures
        r == (b == TRUE),
{
    b == TRUE
}

/// Whether `flags` has any of the bits of `mask`.
pub open spec fn has_bits(flags: u32, mask: u32) -> bool {
    flags & mask != 0
}

/// Whether a window style carries `WS_CHILD`.
pub fn is_child_style(style: u32) -> (r: bool)
    ensures
        r == has_bits(style, WS_CHILD),
{
    style & WS_CHILD != 0
}

/// `MAKEWORD(low, high)`: `low` in the low byte, `high` in the high byte.
pub open spec fn make_word_spec(low: u8, high: u8) -> u16 {
    (low as int + 256 * (high as int)) as u16
}

/// Law: `MAKEWORD` keeps both bytes: the low byte of the word is `low`,
/// the high byte is `high`.
pub proof fn lemma_make_word_bytes(low: u8, high: u8)
    ensures
        make_word_spec(low, high) % 256 == low,
        make_word_spec(low, high) / 256 == high,
{
}

/// `MAKEWORD(low, high)`.
pub fn MAKEWORD(low: u8, high: u8) -> (w: u16)
    ensures
        w == make_word_spec(low, high),
{
    let w = (low as u16) | ((high as u16) << 8u16);
    assert(w == (low as int + 256 * (high as int)) as u16) by (bit_vector)
        requires
            w == (low as u16) | ((high as u16) << 8u16),
    ;
    w
}

} // verus!
