//! Points and rectangles.
use vstd::prelude::*;

verus! {

/// A `POINT`.
#[derive(Clone, Copy, Debug, PartialEq, Eq, Structural)]
pub struct Point {
    pub x: i32,
    pub y: i32,
}

/// A `RECT`: left and top edges, right and bottom edges (exclusive).
#[derive(Clone, Copy, Debug, PartialEq, Eq, Structural)]
pub struct Rect {
    pub left: i32,
    pub top: i32,
    pub right: i32,
    pub bottom: i32,
}

impl Rect {
    /// The width `right - left`, as a mathematical integer.
    pub open spec fn width_spec(self) -> int {
        self.right - self.left
    }

    /// The height `bottom - top`, as a mathematical integer.
    pub open spec fn height_spec(self) -> int {
        self.bottom - self.top
    }

    /// Width and height both fit in an `int` (`i32`).
    pub open spec fn size_fits(self) -> bool {
        i32::MIN <= self.width_spec() <= i32::MAX && i32::MIN <= self.height_spec() <= i32::MAX
    }

    /// An all-zero rectangle.
    pub fn zero() -> (r: Rect)
        ensures
            r == (Rect { left: 0, top: 0, right: 0, bottom: 0 }),
    {
        Rect { left: 0, top: 0, right: 0, bottom: 0 }
    }

    /// Whether width and height both fit in an `i32`.
    pub fn size_fits_exec(&self) -> (r: bool)
        ensures
            r == self.size_fits(),
    {
        let w: i64 = self.right as i64 - self.left as i64;
        let h: i64 = self.bottom as i64 - self.top as i64;
        i32::MIN as i64 <= w && w <= i32::MAX as i64 && i32::MIN as i64 <= h && h <= i32::MAX as i64
    }

    /// The width `right - left`.
    pub fn width(&self) -> (w: i32)
        requires
            self.size_fits(),
        ensures
            w == self.width_spec(),
    {
        self.right - self.left
    }

    /// The height `bottom - top`.
    pub fn height(&self) -> (h: i32)
        requires
            self.size_fits(),
        ensures
            h == self.height_spec(),
    {
        self.bottom - self.top
    }

    /// The top-left corner, the first of the two points a `RECT` is made of.
    pub fn top_left(&self) -> (p: Point)
        ensures
            p == (Point { x: self.left, y: self.top }),
    {
        Point { x: self.left, y: self.top }
    }

    /// The bottom-right corner, the second of the two points a `RECT` is made of.
    pub fn bottom_right(&self) -> (p: Point)
        ensures
            p == (Point { x: self.right, y: self.bottom }),
    {
        Point { x: self.right, y: self.bottom }
    }

    /// The position and size `(x, y, width, height)` that `MoveWindow` and
    /// `SetWindowPos` take for this rectangle.
    pub fn to_pos_size(&self) -> (r: (i32, i32, i32, i32))
        requires
            self.size_fits(),
        ensures
            r.0 == self.left,
            r.1 == self.top,
            r.2 == self.width_spec(),
            r.3 == self.height_spec(),
    {
        (self.left, self.top, self.width(), self.height())
    }
}

/// `a / 2` as Rust computes it on integers: rounded toward zero.
pub open spec fn half_toward_zero(a: int) -> int {
    if a >= 0 {
        a / 2
    } else {
        -((-a) / 2)
    }
}

/// Whether `v` is a value of `i32`.
pub open spec fn in_i32(v: int) -> bool {
    i32::MIN <= v <= i32::MAX
}

/// Where a dialog spanning `dlg_lo..dlg_hi` along one axis goes when it is
/// centred on `ctr_lo..ctr_hi` and kept inside `area_lo..area_hi`: the
/// centred position, moved left (up) so that the far edge does not pass the
/// area's far edge, then moved right (down) so that the near edge does not
/// pass the area's near edge.
pub open spec fn centered_coord(dlg_lo: int, dlg_hi: int, ctr_lo: int, ctr_hi: int, area_lo: int, area_hi: int) -> int {
    let size = dlg_hi - dlg_lo;
    let centered = half_toward_zero(ctr_lo + ctr_hi) - half_toward_zero(size);
    let pulled = if centered + size > area_hi { area_hi - size } else { centered };
    if pulled < area_lo { area_lo } else { pulled }
}

/// Every intermediate value of [`centered_coord`], as computed on `int`s
/// (`i32`), fits: the size, the sum of the centre's edges, the centred
/// position, its far edge, and the position pulled back from the area's far
/// edge.
pub open spec fn centered_coord_fits(dlg_lo: int, dlg_hi: int, ctr_lo: int, ctr_hi: int, area_lo: int, area_hi: int) -> bool {
    let size = dlg_hi - dlg_lo;
    let centered = half_toward_zero(ctr_lo + ctr_hi) - half_toward_zero(size);
    &&& in_i32(size)
    &&& in_i32(ctr_lo + ctr_hi)
    &&& in_i32(centered)
    &&& in_i32(centered + size)
    &&& (centered + size > area_hi ==> in_i32(area_hi - size))
}

/// The top-left corner at which `CenterWindow` places a window whose
/// rectangle is `dlg`, centred on `center` and kept inside `area`.
pub open spec fn centered_origin(dlg: Rect, center: Rect, area: Rect) -> (int, int) {
    (
        centered_coord(dlg.left as int, dlg.right as int, center.left as int, center.right as int, area.left as int, area.right as int),
        centered_coord(dlg.top as int, dlg.bottom as int, center.top as int, center.bottom as int, area.top as int, area.bottom as int),
    )
}

/// Whether computing [`centered_origin`] on `i32`s stays in range on both axes.
pub open spec fn centered_origin_fits(dlg: Rect, center: Rect, area: Rect) -> bool {
    &&& centered_coord_fits(dlg.left as int, dlg.right as int, center.left as int, center.right as int, area.left as int, area.right as int)
    &&& centered_coord_fits(dlg.top as int, dlg.bottom as int, center.top as int, center.bottom as int, area.top as int, area.bottom as int)
}

/// `a / 2` rounded toward zero, for any `i64` above the minimum.
fn half_i64(a: i64) -> (h: i64)
    requires
        a > i64::MIN,
    ensures
        h == half_toward_zero(a as int),
{
    if a >= 0 {
        a / 2
    } else {
        let n: i64 = -a;
        -(n / 2)
    }
}

/// One axis of [`centered_origin`], with its overflow check.
fn centered_coord_exec(dlg_lo: i32, dlg_hi: i32, ctr_lo: i32, ctr_hi: i32, area_lo: i32, area_hi: i32) -> (r: Option<i32>)
    ensures
        r is Some <==> centered_coord_fits(dlg_lo as int, dlg_hi as int, ctr_lo as int, ctr_hi as int, area_lo as int, area_hi as int),
        r matches Some(v) ==> v == centered_coord(dlg_lo as int, dlg_hi as int, ctr_lo as int, ctr_hi as int, area_lo as int, area_hi as int),
{
    let size: i64 = dlg_hi as i64 - dlg_lo as i64;
    let sum: i64 = ctr_lo as i64 + ctr_hi as i64;
    if size < i32::MIN as i64 || size > i32::MAX as i64 || sum < i32::MIN as i64 || sum > i32::MAX as i64 {
        return None;
    }
    let centered: i64 = half_i64(sum) - half_i64(size);
    if centered < i32::MIN as i64 || centered > i32::MAX as i64 {
        return None;
    }
    let far: i64 = centered + size;
    if far < i32::MIN as i64 || far > i32::MAX as i64 {
        return None;
    }
    let mut pos: i64 = centered;
    if far > area_hi as i64 {
        let pulled: i64 = area_hi as i64 - size;
        if pulled < i32::MIN as i64 || pulled > i32::MAX as i64 {
            return None;
        }
        pos = pulled;
    }
    if pos < area_lo as i64 {
        pos = area_lo as i64;
    }
    Some(pos as i32)
}

/// Whether [`center_origin`] can be computed on `i32`s for these rectangles.
pub fn center_origin_fits(dlg: &Rect, center: &Rect, area: &Rect) -> (b: bool)
    ensures
        b == centered_origin_fits(*dlg, *center, *area),
{
    centered_coord_exec(dlg.left, dlg.right, center.left, center.right, area.left, area.right).is_some()
        && centered_coord_exec(dlg.top, dlg.bottom, center.top, center.bottom, area.top, area.bottom).is_some()
}

/// The top-left corner at which `CenterWindow` places a window whose
/// rectangle is `dlg`: centred on `center`, then kept inside `area`.
pub fn center_origin(dlg: &Rect, center: &Rect, area: &Rect) -> (p: Point)
    requires
        centered_origin_fits(*dlg, *center, *area),
    ensures
        p.x == centered_origin(*dlg, *center, *area).0,
        p.y == centered_origin(*dlg, *center, *area).1,
{
    let x = centered_coord_exec(dlg.left, dlg.right, center.left, center.right, area.left, area.right);
    let y = centered_coord_exec(dlg.top, dlg.bottom, center.top, center.bottom, area.top, area.bottom);
    match (x, y) {
        (Some(x), Some(y)) => Point { x, y },
        _ => Point { x: 0, y: 0 },
    }
}

/// Law: halving rounds toward zero: for `a >= 0` the half is the largest
/// `h` with `2h <= a`, for `a < 0` the smallest `h` with `2h >= a`.
pub proof fn lemma_half_toward_zero(a: int)
    ensures
        a >= 0 ==> 2 * half_toward_zero(a) <= a < 2 * half_toward_zero(a) + 2,
        a < 0 ==> 2 * half_toward_zero(a) - 2 < a <= 2 * half_toward_zero(a),
{
}

/// Law: along each axis, a dialog no larger than the area ends up wholly
/// inside it; a larger dialog is aligned with the area's near edge.
pub proof fn lemma_centered_stays_inside(dlg_lo: int, dlg_hi: int, ctr_lo: int, ctr_hi: int, area_lo: int, area_hi: int)
    ensures
        dlg_hi - dlg_lo <= area_hi - area_lo ==> area_lo <= centered_coord(dlg_lo, dlg_hi, ctr_lo, ctr_hi, area_lo, area_hi)
            && centered_coord(dlg_lo, dlg_hi, ctr_lo, ctr_hi, area_lo, area_hi) + (dlg_hi - dlg_lo) <= area_hi,
        dlg_hi - dlg_lo > area_hi - area_lo ==> centered_coord(dlg_lo, dlg_hi, ctr_lo, ctr_hi, area_lo, area_hi) == area_lo,
{
}

/// Law: when the centred position already lies inside the area, it is used
/// unchanged: the dialog's centre is the centre's centre (up to rounding).
pub proof fn lemma_centered_when_room(dlg_lo: int, dlg_hi: int, ctr_lo: int, ctr_hi: int, area_lo: int, area_hi: int)
    requires
        area_lo <= half_toward_zero(ctr_lo + ctr_hi) - half_toward_zero(dlg_hi - dlg_lo),
        half_toward_zero(ctr_lo + ctr_hi) - half_toward_zero(dlg_hi - dlg_lo) + (dlg_hi - dlg_lo) <= area_hi,
    ensures
        centered_coord(dlg_lo, dlg_hi, ctr_lo, ctr_hi, area_lo, area_hi)
            == half_toward_zero(ctr_lo + ctr_hi) - half_toward_zero(dlg_hi - dlg_lo),
{
}

} // verus!
