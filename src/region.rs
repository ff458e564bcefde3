use vstd::prelude::*;

verus! {

/// An axis-aligned interactive rectangle in logical pixels, origin at the
/// window's top-left corner.
#[derive(Clone, Copy, Debug, PartialEq, Eq, Structural)]
pub struct HitRect {
    pub x: i32,
    pub y: i32,
    pub w: i32,
    pub h: i32,
}

/// Device pixels per logical pixel, held exactly as the fraction `num / den`.
#[derive(Clone, Copy, Debug, PartialEq, Eq, Structural)]
pub struct ScaleFactor {
    pub num: u32,
    pub den: u32,
}

impl ScaleFactor {
    /// A usable scale factor is strictly positive.
    pub open spec fn wf(self) -> bool {
        self.num > 0 && self.den > 0
    }

    /// The fraction `num / den`, or `None` when it is not strictly positive.
    pub fn new(num: u32, den: u32) -> (r: Option<ScaleFactor>)
        ensures
            r is Some <==> (num > 0 && den > 0),
            r matches Some(s) ==> s == (ScaleFactor { num, den }),
    {
        if num > 0 && den > 0 {
            Some(ScaleFactor { num, den })
        } else {
            None
        }
    }

    /// One device pixel per logical pixel.
    pub fn identity() -> (r: ScaleFactor)
        ensures
            r == (ScaleFactor { num: 1, den: 1 }),
            r.wf(),
    {
        ScaleFactor { num: 1, den: 1 }
    }
}

/// Half-open membership of a point given in logical pixels.
pub open spec fn rect_holds(r: HitRect, px: int, py: int) -> bool {
    &&& r.x <= px < r.x + r.w
    &&& r.y <= py < r.y + r.h
}

/// Half-open membership of a point given in device pixels: `x * s <= px < x * s + w * s`
/// (and likewise for `y`) with `s = num / den`, multiplied through by `den`.
pub open spec fn rect_holds_scaled(r: HitRect, s: ScaleFactor, px: int, py: int) -> bool {
    &&& r.x * s.num <= px * s.den < r.x * s.num + r.w * s.num
    &&& r.y * s.num <= py * s.den < r.y * s.num + r.h * s.num
}

/// The point (logical pixels) lies in at least one rectangle.
pub open spec fn any_holds(rects: Seq<HitRect>, px: int, py: int) -> bool {
    exists|i: int| 0 <= i < rects.len() && #[trigger] rect_holds(rects[i], px, py)
}

/// The point (device pixels) lies in at least one rectangle scaled by `s`.
pub open spec fn any_holds_scaled(rects: Seq<HitRect>, s: ScaleFactor, px: int, py: int) -> bool {
    exists|i: int| 0 <= i < rects.len() && #[trigger] rect_holds_scaled(rects[i], s, px, py)
}

proof fn lemma_mul_fits(a: int, b: int)
    requires
        -0x1_0000_0000_0000_0000 <= a <= 0x1_0000_0000_0000_0000,
        0 <= b <= 0x1_0000_0000,
    ensures
        -0x1_0000_0000_0000_0000_0000_0000 <= a * b <= 0x1_0000_0000_0000_0000_0000_0000,
{
    assert(-0x1_0000_0000_0000_0000_0000_0000 <= a * b <= 0x1_0000_0000_0000_0000_0000_0000)
        by (nonlinear_arith)
        requires
            -0x1_0000_0000_0000_0000 <= a <= 0x1_0000_0000_0000_0000,
            0 <= b <= 0x1_0000_0000,
    ;
}

impl HitRect {
    /// Whether the point, in logical pixels, lies in this rectangle.
    pub fn contains_logical(&self, px: i64, py: i64) -> (r: bool)
        ensures
            r == rect_holds(*self, px as int, py as int),
    {
        let x = self.x as i64;
        let y = self.y as i64;
        x <= px && px < x + self.w as i64 && y <= py && py < y + self.h as i64
    }

    /// Whether the point, in device pixels, lies in this rectangle scaled by `s`.
    pub fn contains_scaled(&self, s: ScaleFactor, px: i64, py: i64) -> (r: bool)
        ensures
            r == rect_holds_scaled(*self, s, px as int, py as int),
    {
        proof {
            lemma_mul_fits(self.x as int, s.num as int);
            lemma_mul_fits(self.y as int, s.num as int);
            lemma_mul_fits(self.w as int, s.num as int);
            lemma_mul_fits(self.h as int, s.num as int);
            lemma_mul_fits(px as int, s.den as int);
            lemma_mul_fits(py as int, s.den as int);
        }
        let num = s.num as i128;
        let den = s.den as i128;
        let rx = self.x as i128 * num;
        let ry = self.y as i128 * num;
        let rw = self.w as i128 * num;
        let rh = self.h as i128 * num;
        let qx = px as i128 * den;
        let qy = py as i128 * den;
        rx <= qx && qx < rx + rw && ry <= qy && qy < ry + rh
    }
}

/// A consistent pairing of the hit rectangles with the scale factor that was
/// given together with them.
#[derive(Debug)]
pub struct RegionSnapshot {
    pub rects: Vec<HitRect>,
    pub scale: ScaleFactor,
}

impl RegionSnapshot {
    /// Whether a point in logical pixels lies in any rectangle. Rectangles are
    /// tried in insertion order and the first match ends the search.
    pub fn contains_logical(&self, px: i64, py: i64) -> (r: bool)
        ensures
            r == any_holds(self.rects@, px as int, py as int),
    {
        let mut i: usize = 0;
        while i < self.rects.len()
            invariant
                i <= self.rects@.len(),
                forall|j: int| 0 <= j < i ==> !#[trigger] rect_holds(self.rects@[j], px as int, py as int),
            decreases self.rects@.len() - i,
        {
            if self.rects[i].contains_logical(px, py) {
                return true;
            }
            i = i + 1;
        }
        false
    }

    /// Whether a point in device pixels lies in any rectangle once the
    /// rectangles are scaled by the snapshot's scale factor.
    pub fn contains_physical(&self, px: i64, py: i64) -> (r: bool)
        ensures
            r == any_holds_scaled(self.rects@, self.scale, px as int, py as int),
    {
        let mut i: usize = 0;
        while i < self.rects.len()
            invariant
                i <= self.rects@.len(),
                forall|j: int|
                    0 <= j < i ==> !#[trigger] rect_holds_scaled(
                        self.rects@[j],
                        self.scale,
                        px as int,
                        py as int,
                    ),
            decreases self.rects@.len() - i,
        {
            if self.rects[i].contains_scaled(self.scale, px, py) {
                return true;
            }
            i = i + 1;
        }
        false
    }
}

/// The shared region state: the current hit rectangles and the scale factor
/// that came with them, always replaced together.
pub struct RegionStore {
    snapshot: RegionSnapshot,
}

impl RegionStore {
    pub closed spec fn rects(&self) -> Seq<HitRect> {
        self.snapshot.rects@
    }

    pub closed spec fn scale(&self) -> ScaleFactor {
        self.snapshot.scale
    }

    pub closed spec fn wf(&self) -> bool {
        self.snapshot.scale.wf()
    }

    /// An empty store: no interactive rectangles, so the whole window passes
    /// input through, at one device pixel per logical pixel.
    pub fn new() -> (r: RegionStore)
        ensures
            r.wf(),
            r.rects() == Seq::<HitRect>::empty(),
            r.scale() == (ScaleFactor { num: 1, den: 1 }),
    {
        RegionStore { snapshot: RegionSnapshot { rects: Vec::new(), scale: ScaleFactor::identity() } }
    }

    /// Replaces rectangles and scale factor as one unit.
    pub fn update(&mut self, rects: Vec<HitRect>, scale: ScaleFactor)
        requires
            scale.wf(),
        ensures
            updated(*old(self), *final(self), rects@, scale),
            final(self).wf(),
            final(self).rects() == rects@,
            final(self).scale() == scale,
    {
        self.snapshot = RegionSnapshot { rects, scale };
    }

    /// A copy of the current rectangles together with their scale factor.
    pub fn read(&self) -> (r: RegionSnapshot)
        requires
            self.wf(),
        ensures
            (r.rects@, r.scale) == read_view(*self),
            r.rects@ == self.rects(),
            r.scale == self.scale(),
            r.scale.wf(),
    {
        RegionSnapshot { rects: self.snapshot.rects.clone(), scale: self.snapshot.scale }
    }

    /// The current snapshot, borrowed.
    pub fn snapshot(&self) -> (r: &RegionSnapshot)
        ensures
            r.rects@ == self.rects(),
            r.scale == self.scale(),
            self.wf() ==> r.scale.wf(),
    {
        &self.snapshot
    }
}

/// Membership is half-open: a rectangle with a positive size holds its
/// top-left corner and its last pixel, and neither point just past its right
/// or bottom edge.
pub proof fn half_open_edges(r: HitRect)
    requires
        r.w > 0,
        r.h > 0,
    ensures
        rect_holds(r, r.x as int, r.y as int),
        rect_holds(r, r.x + r.w - 1, r.y + r.h - 1),
        !rect_holds(r, r.x + r.w, r.y as int),
        !rect_holds(r, r.x as int, r.y + r.h),
        !rect_holds(r, r.x - 1, r.y as int),
        !rect_holds(r, r.x as int, r.y - 1),
{
}

/// At one device pixel per logical pixel the two membership tests agree.
pub proof fn identity_scale_agrees(rects: Seq<HitRect>, px: int, py: int)
    ensures
        any_holds_scaled(rects, ScaleFactor { num: 1, den: 1 }, px, py) == any_holds(rects, px, py),
{
    let s = ScaleFactor { num: 1, den: 1 };
    assert forall|i: int| 0 <= i < rects.len() implies #[trigger] rect_holds_scaled(rects[i], s, px, py)
        == rect_holds(rects[i], px, py) by {}
    if any_holds(rects, px, py) {
        let i = choose|i: int| 0 <= i < rects.len() && #[trigger] rect_holds(rects[i], px, py);
        assert(rect_holds_scaled(rects[i], s, px, py));
    }
    if any_holds_scaled(rects, s, px, py) {
        let i = choose|i: int| 0 <= i < rects.len() && #[trigger] rect_holds_scaled(rects[i], s, px, py);
        assert(rect_holds(rects[i], px, py));
    }
}

/// A store whose rectangle list is empty lets every point through, in either
/// pixel space, whatever its scale factor.
pub proof fn empty_store_passes_through(store: RegionStore, px: int, py: int)
    requires
        store.rects().len() == 0,
    ensures
        !any_holds(store.rects(), px, py),
        !any_holds_scaled(store.rects(), store.scale(), px, py),
{
}

/// Read after write: a store that `update(rects, scale)` has just left
/// behind reads back exactly `rects` and `scale`.
pub proof fn read_after_update(before: RegionStore, after: RegionStore, rects: Seq<HitRect>, scale: ScaleFactor)
    requires
        scale.wf(),
        updated(before, after, rects, scale),
    ensures
        after.wf(),
        read_view(after) == (rects, scale),
{
}

/// What `RegionStore::update(rects, scale)` does to a store.
pub open spec fn updated(before: RegionStore, after: RegionStore, rects: Seq<HitRect>, scale: ScaleFactor) -> bool {
    &&& after.wf()
    &&& after.rects() == rects
    &&& after.scale() == scale
}

/// What `RegionStore::read` returns, as rectangles and scale factor.
pub open spec fn read_view(store: RegionStore) -> (Seq<HitRect>, ScaleFactor) {
    (store.rects(), store.scale())
}

/// Whether a point in device pixels, relative to the window's top-left corner,
/// lies in any interactive rectangle of the store.
pub fn point_in_hit_region(store: &RegionStore, x: i32, y: i32) -> (r: bool)
    ensures
        r == any_holds_scaled(store.rects(), store.scale(), x as int, y as int),
{
    store.snapshot.contains_physical(x as i64, y as i64)
}

/// Whether a point in logical pixels, relative to the window's top-left corner,
/// lies in any interactive rectangle of the store.
pub fn point_in_hit_region_css(store: &RegionStore, x: i64, y: i64) -> (r: bool)
    ensures
        r == any_holds(store.rects(), x as int, y as int),
{
    store.snapshot.contains_logical(x, y)
}

} // verus!
