use vstd::prelude::*;

verus! {

/// The smaller of two integers.
pub open spec fn min_int(a: int, b: int) -> int {
    if a <= b {
        a
    } else {
        b
    }
}

/// The larger of two integers.
pub open spec fn max_int(a: int, b: int) -> int {
    if a >= b {
        a
    } else {
        b
    }
}

/// `v` moved into `[lo, hi]`: below `lo` it becomes `lo`, above `hi` it becomes `hi`.
/// When `lo > hi` the lower bound is tested first.
pub open spec fn clamp_int(v: int, lo: int, hi: int) -> int {
    if v < lo {
        lo
    } else if v > hi {
        hi
    } else {
        v
    }
}

pub open spec fn fits_i32(v: int) -> bool {
    i32::MIN <= v <= i32::MAX
}

/// An axis-aligned box: origin `(x, y)` and size `width` x `height`.
#[derive(Debug, Clone, Copy, PartialEq, Eq, Structural)]
pub struct Rect<T> {
    pub x: T,
    pub y: T,
    pub width: T,
    pub height: T,
}

impl<T> Rect<T> {
    pub fn new(x: T, y: T, width: T, height: T) -> (r: Self)
        ensures
            r.x == x,
            r.y == y,
            r.width == width,
            r.height == height,
    {
        Self { x, y, width, height }
    }
}

impl Default for Rect<i32> {
    fn default() -> (r: Self)
        ensures
            r.is_zero(),
    {
        Rect { x: 0, y: 0, width: 0, height: 0 }
    }
}

impl Rect<i32> {
    pub open spec fn right(self) -> int {
        self.x + self.width
    }

    pub open spec fn bottom(self) -> int {
        self.y + self.height
    }

    /// Width and height are not negative.
    pub open spec fn is_normal(self) -> bool {
        self.width >= 0 && self.height >= 0
    }

    /// The default rect, all four fields zero.
    pub open spec fn is_zero(self) -> bool {
        self.x == 0 && self.y == 0 && self.width == 0 && self.height == 0
    }

    /// The far edges are representable as `i32`.
    pub open spec fn edges_fit(self) -> bool {
        fits_i32(self.right()) && fits_i32(self.bottom())
    }

    pub open spec fn overlap_x(self, other: Self) -> int {
        min_int(self.right(), other.right()) - max_int(self.x as int, other.x as int)
    }

    pub open spec fn overlap_y(self, other: Self) -> int {
        min_int(self.bottom(), other.bottom()) - max_int(self.y as int, other.y as int)
    }

    /// Both one-dimensional overlaps are strictly positive.
    pub open spec fn spec_intersects(self, other: Self) -> bool {
        self.overlap_x(other) > 0 && self.overlap_y(other) > 0
    }

    /// `inner` lies wholly inside `self`, edges included.
    pub open spec fn contains_rect(self, inner: Self) -> bool {
        self.x <= inner.x && inner.right() <= self.right() && self.y <= inner.y
            && inner.bottom() <= self.bottom()
    }

    /// The point lies inside `self`, edges included.
    pub open spec fn contains_point(self, p: (i32, i32)) -> bool {
        self.x <= p.0 <= self.right() && self.y <= p.1 <= self.bottom()
    }

    /// The minimal box holding both `self` and `other`.
    pub open spec fn union_with(self, other: Self) -> Self {
        let x = min_int(self.x as int, other.x as int);
        let y = min_int(self.y as int, other.y as int);
        Rect {
            x: x as i32,
            y: y as i32,
            width: (max_int(self.right(), other.right()) - x) as i32,
            height: (max_int(self.bottom(), other.bottom()) - y) as i32,
        }
    }

    /// The size of the union of `self` and `other` is representable as `i32`.
    pub open spec fn union_fits(self, other: Self) -> bool {
        fits_i32(max_int(self.right(), other.right()) - min_int(self.x as int, other.x as int))
            && fits_i32(
            max_int(self.bottom(), other.bottom()) - min_int(self.y as int, other.y as int),
        )
    }

    /// What `extend` makes of `self`: the default rect is replaced by `other`,
    /// any other rect grows to the union of the two.
    pub open spec fn extended(self, other: Self) -> Self {
        if self.is_zero() {
            other
        } else {
            self.union_with(other)
        }
    }

    /// The part of `self` inside `area`: the origin is moved up to `area`'s origin
    /// and each size is clamped into `[0, what is left of area from that origin]`.
    pub open spec fn constrained(self, area: Self) -> Self {
        let x = max_int(self.x as int, area.x as int);
        let y = max_int(self.y as int, area.y as int);
        Rect {
            x: x as i32,
            y: y as i32,
            width: clamp_int(self.right() - x, 0, area.right() - x) as i32,
            height: clamp_int(self.bottom() - y, 0, area.bottom() - y) as i32,
        }
    }

    pub fn intersects(&self, other: &Self) -> (r: bool)
        ensures
            r == self.spec_intersects(*other),
    {
        let right = min_i64(self.x as i64 + self.width as i64, other.x as i64 + other.width as i64);
        let left = max_i64(self.x as i64, other.x as i64);
        let bottom = min_i64(
            self.y as i64 + self.height as i64,
            other.y as i64 + other.height as i64,
        );
        let top = max_i64(self.y as i64, other.y as i64);
        right - left > 0 && bottom - top > 0
    }

    /// The point lies inside `self`, edges included.
    pub fn contains(&self, p: &(i32, i32)) -> (r: bool)
        ensures
            r == self.contains_point(*p),
    {
        self.x as i64 <= p.0 as i64 && p.0 as i64 <= self.x as i64 + self.width as i64
            && self.y as i64 <= p.1 as i64 && p.1 as i64 <= self.y as i64 + self.height as i64
    }

    /// The drag from the origin to the far corner.
    pub open spec fn spec_to_extents(self) -> Extents {
        Extents {
            start_x: self.x,
            start_y: self.y,
            end_x: self.right() as i32,
            end_y: self.bottom() as i32,
        }
    }

    pub fn to_extents(self) -> (e: Extents)
        requires
            self.edges_fit(),
        ensures
            e == self.spec_to_extents(),
            e.start_x == self.x,
            e.start_y == self.y,
            e.end_x == self.right(),
            e.end_y == self.bottom(),
    {
        Extents {
            start_x: self.x,
            start_y: self.y,
            end_x: self.x + self.width,
            end_y: self.y + self.height,
        }
    }

    /// Grows `self` to the minimal rect holding both; the default rect is
    /// replaced outright.
    pub fn extend(&mut self, other: &Self)
        requires
            old(self).is_zero() || old(self).union_fits(*other),
        ensures
            *final(self) == old(self).extended(*other),
    {
        if self.x == 0 && self.y == 0 && self.width == 0 && self.height == 0 {
            *self = *other;
            return ;
        }
        let x = if self.x <= other.x {
            self.x
        } else {
            other.x
        };
        let y = if self.y <= other.y {
            self.y
        } else {
            other.y
        };
        let width = max_i64(
            self.x as i64 - x as i64 + self.width as i64,
            other.x as i64 - x as i64 + other.width as i64,
        );
        let height = max_i64(
            self.y as i64 - y as i64 + self.height as i64,
            other.y as i64 - y as i64 + other.height as i64,
        );
        *self = Self::new(x, y, width as i32, height as i32);
    }

    /// Clips `self` to `area`; `None` when the two do not intersect.
    pub fn constrain(&self, area: &Self) -> (r: Option<Self>)
        ensures
            r.is_none() == !self.spec_intersects(*area),
            self.spec_intersects(*area) ==> r == Some(self.constrained(*area)),
            self.spec_intersects(*area) ==> area.contains_rect(r.unwrap()) && self.contains_rect(
                r.unwrap(),
            ) && r.unwrap().width == self.overlap_x(*area) && r.unwrap().height == self.overlap_y(
                *area,
            ),
    {
        if !self.intersects(area) {
            None
        } else {
            let mut res = *self;
            res.x = if res.x >= area.x {
                res.x
            } else {
                area.x
            };
            res.y = if res.y >= area.y {
                res.y
            } else {
                area.y
            };
            let w = clamp_i64(
                self.x as i64 + self.width as i64 - res.x as i64,
                0,
                area.x as i64 + area.width as i64 - res.x as i64,
            );
            let h = clamp_i64(
                self.y as i64 + self.height as i64 - res.y as i64,
                0,
                area.y as i64 + area.height as i64 - res.y as i64,
            );
            res.width = w as i32;
            res.height = h as i32;
            Some(res)
        }
    }
}

fn min_i64(a: i64, b: i64) -> (r: i64)
    ensures
        r == min_int(a as int, b as int),
{
    if a <= b {
        a
    } else {
        b
    }
}

fn max_i64(a: i64, b: i64) -> (r: i64)
    ensures
        r == max_int(a as int, b as int),
{
    if a >= b {
        a
    } else {
        b
    }
}

fn clamp_i64(v: i64, lo: i64, hi: i64) -> (r: i64)
    ensures
        r == clamp_int(v as int, lo as int, hi as int),
{
    if v < lo {
        lo
    } else if v > hi {
        hi
    } else {
        v
    }
}

/// A drag in progress: the corner where it started and the corner where it is
/// now. Unlike a `Rect`, the start may lie past the end on either axis.
#[derive(Debug, Clone, Copy, PartialEq, Eq, Structural)]
pub struct Extents {
    pub start_x: i32,
    pub start_y: i32,
    pub end_x: i32,
    pub end_y: i32,
}

impl Extents {
    pub open spec fn min_x(self) -> int {
        min_int(self.start_x as int, self.end_x as int)
    }

    pub open spec fn max_x(self) -> int {
        max_int(self.start_x as int, self.end_x as int)
    }

    pub open spec fn min_y(self) -> int {
        min_int(self.start_y as int, self.end_y as int)
    }

    pub open spec fn max_y(self) -> int {
        max_int(self.start_y as int, self.end_y as int)
    }

    /// The span on each axis is representable as `i32`.
    pub open spec fn spans_fit(self) -> bool {
        fits_i32(self.max_x() - self.min_x()) && fits_i32(self.max_y() - self.min_y())
    }

    /// The bounding box of the two corners.
    pub open spec fn normalized(self) -> Rect<i32> {
        Rect {
            x: self.min_x() as i32,
            y: self.min_y() as i32,
            width: (self.max_x() - self.min_x()) as i32,
            height: (self.max_y() - self.min_y()) as i32,
        }
    }

    /// The upper end of the range the clamped origin may take, on each axis.
    pub open spec fn clamp_hi_x(self, area: Rect<i32>) -> int {
        area.right() - (self.max_x() - self.min_x())
    }

    pub open spec fn clamp_hi_y(self, area: Rect<i32>) -> int {
        area.bottom() - (self.max_y() - self.min_y())
    }

    /// `to_rect_clamped` can compute its result in `i32`.
    pub open spec fn clamp_fits(self, area: Rect<i32>) -> bool {
        self.spans_fit() && self.clamp_hi_x(area) >= i32::MIN && self.clamp_hi_y(area) >= i32::MIN
    }

    /// The normalized rect moved, not resized, so that it lies inside `area`
    /// where it is small enough to.
    pub open spec fn clamped_into(self, area: Rect<i32>) -> Rect<i32> {
        Rect {
            x: clamp_int(self.min_x(), area.x as int, self.clamp_hi_x(area)) as i32,
            y: clamp_int(self.min_y(), area.y as int, self.clamp_hi_y(area)) as i32,
            width: self.normalized().width,
            height: self.normalized().height,
        }
    }

    /// Every coordinate moved by `(dx, dy)`.
    pub open spec fn translated(self, dx: int, dy: int) -> Extents {
        Extents {
            start_x: (self.start_x + dx) as i32,
            start_y: (self.start_y + dy) as i32,
            end_x: (self.end_x + dx) as i32,
            end_y: (self.end_y + dy) as i32,
        }
    }

    /// Start and end swapped.
    pub open spec fn reversed(self) -> Extents {
        Extents {
            start_x: self.end_x,
            start_y: self.end_y,
            end_x: self.start_x,
            end_y: self.start_y,
        }
    }

    pub fn to_rect(self) -> (r: Rect<i32>)
        requires
            self.spans_fit(),
        ensures
            r == self.normalized(),
            r.x == self.min_x(),
            r.y == self.min_y(),
            r.right() == self.max_x(),
            r.bottom() == self.max_y(),
            r.is_normal(),
    {
        let (x, width) = if self.start_x < self.end_x {
            (self.start_x, (self.end_x as i64 - self.start_x as i64) as i32)
        } else {
            (self.end_x, (self.start_x as i64 - self.end_x as i64) as i32)
        };
        let (y, height) = if self.start_y < self.end_y {
            (self.start_y, (self.end_y as i64 - self.start_y as i64) as i32)
        } else {
            (self.end_y, (self.start_y as i64 - self.end_y as i64) as i32)
        };
        Rect { x, y, width, height }
    }

    pub fn to_rect_clamped(self, area: &Rect<i32>) -> (r: Rect<i32>)
        requires
            self.clamp_fits(*area),
        ensures
            r == self.clamped_into(*area),
    {
        let mut rect = self.to_rect();
        let hi_x = area.x as i64 + area.width as i64 - rect.width as i64;
        let hi_y = area.y as i64 + area.height as i64 - rect.height as i64;
        rect.x = clamp_i64(rect.x as i64, area.x as i64, hi_x) as i32;
        rect.y = clamp_i64(rect.y as i64, area.y as i64, hi_y) as i32;
        rect
    }
}

/// Bound on the coordinates and sizes of the monitor rects that `monitor_area`
/// folds; it keeps every union of them representable as `i32`.
pub const COORD_LIMIT: i32 = 0x1000_0000;

/// A monitor rect within the supported coordinate range.
pub open spec fn bounded(r: Rect<i32>) -> bool {
    -COORD_LIMIT <= r.x <= COORD_LIMIT && -COORD_LIMIT <= r.y <= COORD_LIMIT && 0 <= r.width
        <= COORD_LIMIT && 0 <= r.height <= COORD_LIMIT
}

/// Every union of bounded rects stays inside this envelope.
pub open spec fn in_envelope(r: Rect<i32>) -> bool {
    -COORD_LIMIT <= r.x <= COORD_LIMIT && -COORD_LIMIT <= r.y <= COORD_LIMIT && r.is_normal()
        && r.right() <= 2 * COORD_LIMIT && r.bottom() <= 2 * COORD_LIMIT
}

/// Every union of two rects of `s` has a size representable as `i32`, so
/// folding `extend` over `s` never overflows.
pub open spec fn unions_fit(s: Seq<Rect<i32>>) -> bool {
    forall|i: int, j: int|
        0 <= i < s.len() && 0 <= j < s.len() ==> (#[trigger] s[i]).union_fits(#[trigger] s[j])
}

/// Bounded rects never overflow when joined.
pub proof fn lemma_bounded_unions_fit(s: Seq<Rect<i32>>)
    requires
        forall|i: int| 0 <= i < s.len() ==> bounded(#[trigger] s[i]),
    ensures
        unions_fit(s),
{
    assert forall|i: int, j: int| 0 <= i < s.len() && 0 <= j < s.len() implies (
    #[trigger] s[i]).union_fits(#[trigger] s[j]) by {
        assert(bounded(s[i]));
        assert(bounded(s[j]));
    }
}

/// `extend` applied to the default rect and then to each rect of `s` in turn.
pub open spec fn fold_extend(s: Seq<Rect<i32>>) -> Rect<i32>
    decreases s.len(),
{
    if s.len() == 0 {
        Rect { x: 0, y: 0, width: 0, height: 0 }
    } else {
        fold_extend(s.drop_last()).extended(s.last())
    }
}

/// The combined area of all monitors: `extend` folded over them, starting
/// from the default rect.
pub fn monitor_area(monitors: &Vec<Rect<i32>>) -> (r: Rect<i32>)
    requires
        forall|i: int| 0 <= i < monitors@.len() ==> bounded(#[trigger] monitors@[i]),
    ensures
        r == fold_extend(monitors@),
        in_envelope(r),
{
    let mut area = Rect { x: 0, y: 0, width: 0, height: 0 };
    let mut i: usize = 0;
    while i < monitors.len()
        invariant
            0 <= i <= monitors@.len(),
            forall|j: int| 0 <= j < monitors@.len() ==> bounded(#[trigger] monitors@[j]),
            area == fold_extend(monitors@.subrange(0, i as int)),
            in_envelope(area),
        decreases monitors@.len() - i,
    {
        let ghost prefix = monitors@.subrange(0, i as int);
        let m = monitors[i];
        proof {
            lemma_envelope_union(area, m);
        }
        area.extend(&m);
        proof {
            assert(monitors@.subrange(0, i + 1).drop_last() == prefix);
        }
        i += 1;
    }
    proof {
        assert(monitors@.subrange(0, monitors@.len() as int) == monitors@);
    }
    area
}

proof fn lemma_envelope_union(a: Rect<i32>, b: Rect<i32>)
    requires
        in_envelope(a),
        bounded(b),
    ensures
        a.is_zero() || a.union_fits(b),
        in_envelope(a.extended(b)),
{
}

/// A union of two normal rects that are not the default rect is not the
/// default rect either.
proof fn lemma_union_not_zero(a: Rect<i32>, b: Rect<i32>)
    requires
        a.is_normal(),
        b.is_normal(),
        !a.is_zero(),
        a.union_fits(b),
    ensures
        !a.union_with(b).is_zero(),
        a.union_with(b).is_normal(),
        a.union_with(b).x == min_int(a.x as int, b.x as int),
        a.union_with(b).right() == max_int(a.right(), b.right()),
        a.union_with(b).y == min_int(a.y as int, b.y as int),
        a.union_with(b).bottom() == max_int(a.bottom(), b.bottom()),
{
}

/// The normalized rect of a drag has no negative size and is the bounding
/// box of its two corners, whichever of them the drag started at.
pub proof fn lemma_to_rect_bounding_box(e: Extents)
    requires
        e.spans_fit(),
    ensures
        e.normalized().is_normal(),
        e.normalized().x == min_int(e.start_x as int, e.end_x as int),
        e.normalized().y == min_int(e.start_y as int, e.end_y as int),
        e.normalized().right() == max_int(e.start_x as int, e.end_x as int),
        e.normalized().bottom() == max_int(e.start_y as int, e.end_y as int),
        e.reversed().normalized() == e.normalized(),
{
}

/// A drag no larger than `area` is moved wholly inside it, keeping its size.
pub proof fn lemma_clamped_inside(e: Extents, area: Rect<i32>)
    requires
        e.spans_fit(),
        area.is_normal(),
        e.normalized().width <= area.width,
        e.normalized().height <= area.height,
    ensures
        e.clamp_fits(area),
        area.contains_rect(e.clamped_into(area)),
        e.clamped_into(area).width == e.normalized().width,
        e.clamped_into(area).height == e.normalized().height,
{
}

/// `extend` is commutative on rects other than the default rect.
pub proof fn lemma_extend_commutative(a: Rect<i32>, b: Rect<i32>)
    requires
        !a.is_zero(),
        !b.is_zero(),
    ensures
        a.extended(b) == b.extended(a),
{
}

/// `extend` is associative on normal rects other than the default rect,
/// wherever no union of two of them overflows `i32`.
pub proof fn lemma_extend_associative(a: Rect<i32>, b: Rect<i32>, c: Rect<i32>)
    requires
        a.is_normal(),
        b.is_normal(),
        c.is_normal(),
        a.union_fits(b),
        b.union_fits(c),
        a.union_fits(c),
        !a.is_zero(),
        !b.is_zero(),
        !c.is_zero(),
    ensures
        a.extended(b).union_fits(c),
        b.extended(c).union_fits(a),
        a.extended(b).extended(c) == a.extended(b.extended(c)),
{
    lemma_union_not_zero(a, b);
    lemma_union_not_zero(b, c);
    let ab = a.union_with(b);
    let bc = b.union_with(c);
    lemma_union_not_zero(ab, c);
    lemma_union_not_zero(a, bc);
}

/// Folding `extend` over normal rects other than the default rect, where no
/// union of two of them overflows `i32`, gives the minimal rect holding all of
/// them: it holds each, and each of its four edges is an edge of one of them.
pub proof fn lemma_fold_is_bounding_box(s: Seq<Rect<i32>>)
    requires
        s.len() > 0,
        forall|i: int| 0 <= i < s.len() ==> (#[trigger] s[i]).is_normal() && !s[i].is_zero(),
        unions_fit(s),
    ensures
        fold_extend(s).is_normal(),
        !fold_extend(s).is_zero(),
        forall|i: int| 0 <= i < s.len() ==> fold_extend(s).contains_rect(#[trigger] s[i]),
        exists|i: int| 0 <= i < s.len() && fold_extend(s).x == #[trigger] s[i].x,
        exists|i: int| 0 <= i < s.len() && fold_extend(s).y == #[trigger] s[i].y,
        exists|i: int| 0 <= i < s.len() && fold_extend(s).right() == #[trigger] s[i].right(),
        exists|i: int| 0 <= i < s.len() && fold_extend(s).bottom() == #[trigger] s[i].bottom(),
    decreases s.len(),
{
    let init = s.drop_last();
    let last = s.last();
    let n = s.len() - 1;
    assert(s[n].is_normal());
    if init.len() == 0 {
        assert(fold_extend(init).is_zero());
        assert(fold_extend(s) == last);
        assert(fold_extend(s).x == s[0].x);
        assert(fold_extend(s).y == s[0].y);
        assert(fold_extend(s).right() == s[0].right());
        assert(fold_extend(s).bottom() == s[0].bottom());
    } else {
        assert forall|i: int| 0 <= i < init.len() implies (#[trigger] init[i]).is_normal()
            && !init[i].is_zero() by {
            assert(init[i] == s[i]);
        }
        assert forall|i: int, j: int| 0 <= i < init.len() && 0 <= j < init.len() implies (
        #[trigger] init[i]).union_fits(#[trigger] init[j]) by {
            assert(init[i] == s[i]);
            assert(init[j] == s[j]);
            assert(s[i].union_fits(s[j]));
        }
        lemma_fold_is_bounding_box(init);
        let f = fold_extend(init);
        let ix = choose|i: int| 0 <= i < init.len() && f.x == #[trigger] init[i].x;
        let iy = choose|i: int| 0 <= i < init.len() && f.y == #[trigger] init[i].y;
        let ir = choose|i: int| 0 <= i < init.len() && f.right() == #[trigger] init[i].right();
        let ib = choose|i: int| 0 <= i < init.len() && f.bottom() == #[trigger] init[i].bottom();
        assert(init[ix] == s[ix]);
        assert(init[iy] == s[iy]);
        assert(init[ir] == s[ir]);
        assert(init[ib] == s[ib]);
        assert(s[ix].union_fits(s[ir]));
        assert(s[ix].union_fits(s[n]));
        assert(s[n].union_fits(s[ir]));
        assert(s[iy].union_fits(s[ib]));
        assert(s[iy].union_fits(s[n]));
        assert(s[n].union_fits(s[ib]));
        assert(f.union_fits(last));
        lemma_union_not_zero(f, last);
        assert(fold_extend(s) == f.union_with(last));
        let u = fold_extend(s);
        assert forall|i: int| 0 <= i < s.len() implies u.contains_rect(#[trigger] s[i]) by {
            if i < s.len() - 1 {
                assert(init[i] == s[i]);
                assert(f.contains_rect(init[i]));
            }
        }
        if f.x <= last.x {
            assert(u.x == s[ix].x);
        } else {
            assert(u.x == s[n].x);
        }
        if f.y <= last.y {
            assert(u.y == s[iy].y);
        } else {
            assert(u.y == s[n].y);
        }
        if f.right() >= last.right() {
            assert(u.right() == s[ir].right());
        } else {
            assert(u.right() == s[n].right());
        }
        if f.bottom() >= last.bottom() {
            assert(u.bottom() == s[ib].bottom());
        } else {
            assert(u.bottom() == s[n].bottom());
        }
    }
}

/// Folding `extend` over normal rects other than the default rect, where no
/// union of two of them overflows `i32`, does not depend on their order: two
/// lists that hold the same rects fold to the same rect.
pub proof fn lemma_fold_order_independent(s1: Seq<Rect<i32>>, s2: Seq<Rect<i32>>)
    requires
        s1.len() > 0,
        forall|i: int| 0 <= i < s1.len() ==> (#[trigger] s1[i]).is_normal() && !s1[i].is_zero(),
        unions_fit(s1),
        forall|r: Rect<i32>| s1.contains(r) <==> s2.contains(r),
    ensures
        fold_extend(s1) == fold_extend(s2),
{
    assert(s2.contains(s1[0]));
    assert forall|i: int| 0 <= i < s2.len() implies (#[trigger] s2[i]).is_normal()
        && !s2[i].is_zero() by {
        assert(s2.contains(s2[i]));
        let j = choose|j: int| 0 <= j < s1.len() && s1[j] == s2[i];
        assert(s1[j].is_normal());
    }
    assert forall|i: int, j: int| 0 <= i < s2.len() && 0 <= j < s2.len() implies (
    #[trigger] s2[i]).union_fits(#[trigger] s2[j]) by {
        assert(s2.contains(s2[i]));
        assert(s2.contains(s2[j]));
        let a = choose|a: int| 0 <= a < s1.len() && s1[a] == s2[i];
        let b = choose|b: int| 0 <= b < s1.len() && s1[b] == s2[j];
        assert(s1[a].union_fits(s1[b]));
    }
    lemma_fold_is_bounding_box(s1);
    lemma_fold_is_bounding_box(s2);
    let f1 = fold_extend(s1);
    let f2 = fold_extend(s2);
    let a = choose|i: int| 0 <= i < s1.len() && f1.x == #[trigger] s1[i].x;
    let b = choose|i: int| 0 <= i < s2.len() && f2.x == #[trigger] s2[i].x;
    assert(s2.contains(s1[a]));
    assert(s1.contains(s2[b]));
    let a2 = choose|i: int| 0 <= i < s1.len() && f1.right() == #[trigger] s1[i].right();
    let b2 = choose|i: int| 0 <= i < s2.len() && f2.right() == #[trigger] s2[i].right();
    assert(s2.contains(s1[a2]));
    assert(s1.contains(s2[b2]));
    let a3 = choose|i: int| 0 <= i < s1.len() && f1.y == #[trigger] s1[i].y;
    let b3 = choose|i: int| 0 <= i < s2.len() && f2.y == #[trigger] s2[i].y;
    assert(s2.contains(s1[a3]));
    assert(s1.contains(s2[b3]));
    let a4 = choose|i: int| 0 <= i < s1.len() && f1.bottom() == #[trigger] s1[i].bottom();
    let b4 = choose|i: int| 0 <= i < s2.len() && f2.bottom() == #[trigger] s2[i].bottom();
    assert(s2.contains(s1[a4]));
    assert(s1.contains(s2[b4]));
}

/// Overlap is symmetric.
pub proof fn lemma_intersects_symmetric(a: Rect<i32>, b: Rect<i32>)
    ensures
        a.spec_intersects(b) == b.spec_intersects(a),
{
}

/// Moving a drag by `(dx, dy)` moves its normalized rect and keeps its size,
/// and clamping it into an area keeps that size too.
pub proof fn lemma_translation_keeps_size(e: Extents, dx: int, dy: int, area: Rect<i32>)
    requires
        e.spans_fit(),
        fits_i32(e.start_x + dx),
        fits_i32(e.end_x + dx),
        fits_i32(e.start_y + dy),
        fits_i32(e.end_y + dy),
    ensures
        e.translated(dx, dy).spans_fit(),
        e.translated(dx, dy).normalized().width == e.normalized().width,
        e.translated(dx, dy).normalized().height == e.normalized().height,
        e.translated(dx, dy).normalized().x == e.normalized().x + dx,
        e.translated(dx, dy).normalized().y == e.normalized().y + dy,
        e.translated(dx, dy).clamped_into(area).width == e.normalized().width,
        e.translated(dx, dy).clamped_into(area).height == e.normalized().height,
{
}

} // verus!
