use vstd::prelude::*;

verus! {

/// A point or an extent in thousandths of a pixel.
#[derive(PartialEq, Eq, Structural, Clone, Copy, Debug)]
pub struct FixedVec2 {
    pub x: i64,
    pub y: i64,
}

impl FixedVec2 {
    pub fn new(x: i64, y: i64) -> (v: Self)
        ensures
            v.x == x,
            v.y == y,
    {
        FixedVec2 { x, y }
    }
}

/// Half of a length, rounded toward zero.
pub open spec fn half_of(w: int) -> int {
    if w >= 0 { w / 2 } else { -((-w) / 2) }
}

/// Half of a length, rounded toward zero.
pub fn half_length(w: i64) -> (h: i64)
    ensures
        h == half_of(w as int),
{
    if w >= 0 { w / 2 } else { -((-(w as i128) / 2) as i64) }
}

/// Absolute value of an integer.
pub open spec fn abs(v: int) -> int {
    if v < 0 { -v } else { v }
}

/// Two axis-aligned boxes, given by centre and half extents, overlap: on
/// both axes the centres are closer than the sum of the half extents.
pub open spec fn boxes_overlap(pos_a: FixedVec2, half_a: FixedVec2, pos_b: FixedVec2, half_b: FixedVec2) -> bool {
    &&& abs(pos_a.x - pos_b.x) < half_a.x + half_b.x
    &&& abs(pos_a.y - pos_b.y) < half_a.y + half_b.y
}

/// Whether two axis-aligned boxes overlap; touching edges do not count.
pub fn boxes_intersect(pos_a: FixedVec2, half_a: FixedVec2, pos_b: FixedVec2, half_b: FixedVec2) -> (hit: bool)
    ensures
        hit == boxes_overlap(pos_a, half_a, pos_b, half_b),
{
    let dx: i128 = pos_a.x as i128 - pos_b.x as i128;
    let dy: i128 = pos_a.y as i128 - pos_b.y as i128;
    let adx: i128 = if dx < 0 { -dx } else { dx };
    let ady: i128 = if dy < 0 { -dy } else { dy };
    adx < half_a.x as i128 + half_b.x as i128 && ady < half_a.y as i128 + half_b.y as i128
}

/// Overlap does not depend on which box comes first.
pub proof fn lemma_overlap_symmetric(pos_a: FixedVec2, half_a: FixedVec2, pos_b: FixedVec2, half_b: FixedVec2)
    ensures
        boxes_overlap(pos_a, half_a, pos_b, half_b) == boxes_overlap(pos_b, half_b, pos_a, half_a),
{
}

/// The point `(qx / 2, qy / 2)` (coordinates in half thousandths of a
/// pixel) lies strictly inside the box with centre `pos` and half extents
/// `half`.
pub open spec fn strictly_inside(qx: int, qy: int, pos: FixedVec2, half: FixedVec2) -> bool {
    &&& -2 * half.x < qx - 2 * pos.x < 2 * half.x
    &&& -2 * half.y < qy - 2 * pos.y < 2 * half.y
}

/// On one axis: two open intervals of half-lengths `ha` and `hb` centred on
/// `a` and `b` share a point of the half-unit grid exactly when the centres
/// are closer than the sum of the half-lengths.
proof fn lemma_axis_overlap(a: int, ha: int, b: int, hb: int, q: int)
    requires
        ha > 0,
        hb > 0,
    ensures
        abs(a - b) < ha + hb ==> ({
            let q = if 2 * a - 2 * ha > 2 * b - 2 * hb { 2 * a - 2 * ha + 1 } else { 2 * b - 2 * hb + 1 };
            &&& -2 * ha < q - 2 * a < 2 * ha
            &&& -2 * hb < q - 2 * b < 2 * hb
        }),
        -2 * ha < q - 2 * a < 2 * ha && -2 * hb < q - 2 * b < 2 * hb ==> abs(a - b) < ha + hb,
{
}

/// Two boxes (with positive half extents) collide exactly when some point
/// lies strictly inside both of them.
pub proof fn lemma_overlap_is_shared_point(pos_a: FixedVec2, half_a: FixedVec2, pos_b: FixedVec2, half_b: FixedVec2)
    requires
        half_a.x > 0,
        half_a.y > 0,
        half_b.x > 0,
        half_b.y > 0,
    ensures
        boxes_overlap(pos_a, half_a, pos_b, half_b)
            <==> exists|qx: int, qy: int| strictly_inside(qx, qy, pos_a, half_a) && strictly_inside(qx, qy, pos_b, half_b),
{
    lemma_axis_overlap(pos_a.x as int, half_a.x as int, pos_b.x as int, half_b.x as int, 0);
    lemma_axis_overlap(pos_a.y as int, half_a.y as int, pos_b.y as int, half_b.y as int, 0);
    if boxes_overlap(pos_a, half_a, pos_b, half_b) {
        let (ax, bx) = (pos_a.x as int, pos_b.x as int);
        let (ay, by) = (pos_a.y as int, pos_b.y as int);
        let qx = if 2 * ax - 2 * half_a.x > 2 * bx - 2 * half_b.x { 2 * ax - 2 * half_a.x + 1 } else { 2 * bx - 2 * half_b.x + 1 };
        let qy = if 2 * ay - 2 * half_a.y > 2 * by - 2 * half_b.y { 2 * ay - 2 * half_a.y + 1 } else { 2 * by - 2 * half_b.y + 1 };
        assert(strictly_inside(qx, qy, pos_a, half_a) && strictly_inside(qx, qy, pos_b, half_b));
    }
    if exists|qx: int, qy: int| strictly_inside(qx, qy, pos_a, half_a) && strictly_inside(qx, qy, pos_b, half_b) {
        let (qx, qy) = choose|qx: int, qy: int| strictly_inside(qx, qy, pos_a, half_a) && strictly_inside(qx, qy, pos_b, half_b);
        lemma_axis_overlap(pos_a.x as int, half_a.x as int, pos_b.x as int, half_b.x as int, qx);
        lemma_axis_overlap(pos_a.y as int, half_a.y as int, pos_b.y as int, half_b.y as int, qy);
    }
}

} // verus!
