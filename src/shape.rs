use vstd::prelude::*;
use crate::region::{HitRect, RegionSnapshot, RegionStore, ScaleFactor};

verus! {

/// A rectangle of the input shape, in whole device pixels.
#[derive(Clone, Copy, Debug, PartialEq, Eq, Structural)]
pub struct DeviceRect {
    pub x: i32,
    pub y: i32,
    pub width: i32,
    pub height: i32,
}

/// The region of the window that accepts pointer input: the union of its
/// rectangles, placed at offset (0, 0). No rectangles means that the whole
/// window lets input through.
#[derive(Debug)]
pub struct InputShape {
    pub rects: Vec<DeviceRect>,
}

/// Division rounding toward zero, for a positive divisor.
pub open spec fn div_toward_zero(a: int, d: int) -> int {
    if a >= 0 {
        a / d
    } else {
        -((-a) / d)
    }
}

/// Clamps to the range of `i32`.
pub open spec fn saturate_i32(v: int) -> int {
    if v < i32::MIN {
        i32::MIN as int
    } else if v > i32::MAX {
        i32::MAX as int
    } else {
        v
    }
}

/// A logical length or coordinate in whole device pixels: scaled, then
/// truncated toward zero and held to the range of `i32`.
pub open spec fn to_device(v: int, s: ScaleFactor) -> int {
    saturate_i32(div_toward_zero(v * s.num, s.den as int))
}

pub open spec fn device_rect_of(r: HitRect, s: ScaleFactor) -> DeviceRect {
    DeviceRect {
        x: to_device(r.x as int, s) as i32,
        y: to_device(r.y as int, s) as i32,
        width: to_device(r.w as int, s) as i32,
        height: to_device(r.h as int, s) as i32,
    }
}

/// The input shape of a rectangle list: each rectangle scaled, in order.
pub open spec fn shape_of(rects: Seq<HitRect>, s: ScaleFactor) -> Seq<DeviceRect> {
    rects.map_values(|r: HitRect| device_rect_of(r, s))
}

/// An empty rectangle list gives an empty shape: one that lets the whole
/// window pass input through, and that is submitted like any other.
pub proof fn empty_region_gives_empty_shape(s: ScaleFactor)
    ensures
        shape_of(Seq::<HitRect>::empty(), s) == Seq::<DeviceRect>::empty(),
{
    assert(shape_of(Seq::<HitRect>::empty(), s) =~= Seq::<DeviceRect>::empty());
}

fn scale_to_device(v: i32, s: ScaleFactor) -> (r: i32)
    requires
        s.wf(),
    ensures
        r as int == to_device(v as int, s),
{
    assert(-0x8000_0000_0000_0000 <= (v as int) * (s.num as int) <= 0x8000_0000_0000_0000)
        by (nonlinear_arith)
        requires
            -0x8000_0000 <= v < 0x8000_0000,
            0 <= s.num < 0x1_0000_0000,
    ;
    let p = v as i128 * s.num as i128;
    let d = s.den as i128;
    let q: i128 = if p >= 0 {
        p / d
    } else {
        -((-p) / d)
    };
    assert(q == div_toward_zero(v * s.num, s.den as int));
    if q < i32::MIN as i128 {
        i32::MIN
    } else if q > i32::MAX as i128 {
        i32::MAX
    } else {
        q as i32
    }
}

/// One hit rectangle in whole device pixels.
pub fn device_rect(r: &HitRect, s: ScaleFactor) -> (d: DeviceRect)
    requires
        s.wf(),
    ensures
        d == device_rect_of(*r, s),
{
    DeviceRect {
        x: scale_to_device(r.x, s),
        y: scale_to_device(r.y, s),
        width: scale_to_device(r.w, s),
        height: scale_to_device(r.h, s),
    }
}

/// The input shape for a snapshot: the union of its rectangles scaled to
/// device pixels. An empty snapshot gives an empty shape, which is still a
/// shape to submit.
pub fn shape_for(snapshot: &RegionSnapshot) -> (shape: InputShape)
    requires
        snapshot.scale.wf(),
    ensures
        shape.rects@ == shape_of(snapshot.rects@, snapshot.scale),
{
    let mut out: Vec<DeviceRect> = Vec::new();
    let mut i: usize = 0;
    while i < snapshot.rects.len()
        invariant
            snapshot.scale.wf(),
            i <= snapshot.rects@.len(),
            out@ == shape_of(snapshot.rects@.subrange(0, i as int), snapshot.scale),
        decreases snapshot.rects@.len() - i,
    {
        let d = device_rect(&snapshot.rects[i], snapshot.scale);
        out.push(d);
        proof {
            assert(snapshot.rects@.subrange(0, i + 1) == snapshot.rects@.subrange(0, i as int).push(
                snapshot.rects@[i as int],
            ));
        }
        i = i + 1;
    }
    proof {
        assert(snapshot.rects@.subrange(0, i as int) == snapshot.rects@);
    }
    InputShape { rects: out }
}

/// Recomputes the input shape from the store's current rectangles and scale.
pub fn rebuild_input_shape(store: &RegionStore) -> (shape: InputShape)
    requires
        store.wf(),
    ensures
        shape.rects@ == shape_of(store.rects(), store.scale()),
{
    shape_for(store.snapshot())
}

} // verus!
