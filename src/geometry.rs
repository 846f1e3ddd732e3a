use vstd::prelude::*;

verus! {

/// World coordinates are fixed-point: one world unit is `UNIT` steps.
pub const UNIT: i64 = 1000;

/// Largest magnitude of a coordinate that the simulation admits
/// (about 16 000 world units, far beyond the playing field).
pub const COORD_LIMIT: i64 = 0x100_0000;

/// Half the side of the square playing field, in fixed-point units.
pub const MAP_SIZE_HALF: i64 = 20 * UNIT;

/// A position or direction in fixed-point world coordinates.
#[derive(Clone, Copy, Debug, PartialEq, Eq, Structural)]
pub struct Vec3 {
    pub x: i64,
    pub y: i64,
    pub z: i64,
}

pub open spec fn coord_ok(c: int) -> bool {
    -COORD_LIMIT <= c <= COORD_LIMIT
}

pub open spec fn dot(a: Vec3, b: Vec3) -> int {
    a.x * b.x + a.y * b.y + a.z * b.z
}

pub open spec fn len_sq(a: Vec3) -> int {
    dot(a, a)
}

/// Squared Euclidean distance.
pub open spec fn dist_sq(a: Vec3, b: Vec3) -> int {
    (a.x - b.x) * (a.x - b.x) + (a.y - b.y) * (a.y - b.y) + (a.z - b.z) * (a.z - b.z)
}

/// Squared distance in the horizontal plane (the `y` axis points up).
pub open spec fn dist_sq_xz(a: Vec3, b: Vec3) -> int {
    (a.x - b.x) * (a.x - b.x) + (a.z - b.z) * (a.z - b.z)
}

/// Dot product of `d` with the offset from `from` to `to`.
pub open spec fn dot_offset(d: Vec3, from: Vec3, to: Vec3) -> int {
    d.x * (to.x - from.x) + d.y * (to.y - from.y) + d.z * (to.z - from.z)
}

pub open spec fn is_zero(a: Vec3) -> bool {
    a.x == 0 && a.y == 0 && a.z == 0
}

/// The angle between `d` and the offset `from -> to` has a cosine of at least
/// `num / den` (with `0 <= num`); an offset of length zero counts as inside.
pub open spec fn in_cone(d: Vec3, from: Vec3, to: Vec3, num: int, den: int) -> bool {
    let k = dot_offset(d, from, to);
    k >= 0 && den * den * k * k >= num * num * len_sq(d) * dist_sq(from, to)
}

proof fn lemma_square_bound(a: int, b: int, l: int)
    requires
        0 <= l,
        -l <= a <= l,
        -l <= b <= l,
    ensures
        -(l * l) <= a * b <= l * l,
{
    assert(-(l * l) <= a * b <= l * l) by (nonlinear_arith)
        requires
            0 <= l,
            -l <= a <= l,
            -l <= b <= l,
    ;
}

impl Vec3 {
    /// Every coordinate lies within `COORD_LIMIT`.
    pub open spec fn wf(self) -> bool {
        coord_ok(self.x as int) && coord_ok(self.y as int) && coord_ok(self.z as int)
    }

    /// Every coordinate lies within twice `COORD_LIMIT`, as the offset
    /// between two well-formed positions does.
    pub open spec fn offset_ok(self) -> bool {
        &&& -2 * COORD_LIMIT <= self.x <= 2 * COORD_LIMIT
        &&& -2 * COORD_LIMIT <= self.y <= 2 * COORD_LIMIT
        &&& -2 * COORD_LIMIT <= self.z <= 2 * COORD_LIMIT
    }

    pub fn new(x: i64, y: i64, z: i64) -> (r: Vec3)
        ensures
            r == (Vec3 { x, y, z }),
    {
        Vec3 { x, y, z }
    }

    pub fn is_zero(&self) -> (r: bool)
        ensures
            r == is_zero(*self),
    {
        self.x == 0 && self.y == 0 && self.z == 0
    }

    /// The offset from `self` to `to`.
    pub fn offset_to(&self, to: &Vec3) -> (r: Vec3)
        requires
            self.wf(),
            to.wf(),
        ensures
            r.x == to.x - self.x,
            r.y == to.y - self.y,
            r.z == to.z - self.z,
            r.offset_ok(),
    {
        Vec3 { x: to.x - self.x, y: to.y - self.y, z: to.z - self.z }
    }

    pub fn dist_sq(&self, other: &Vec3) -> (r: i64)
        requires
            self.wf(),
            other.wf(),
        ensures
            r == dist_sq(*self, *other),
            0 <= r,
    {
        let dx = self.x - other.x;
        let dy = self.y - other.y;
        let dz = self.z - other.z;
        proof {
            lemma_square_bound(dx as int, dx as int, 2 * COORD_LIMIT);
            lemma_square_bound(dy as int, dy as int, 2 * COORD_LIMIT);
            lemma_square_bound(dz as int, dz as int, 2 * COORD_LIMIT);
            assert(0 <= dx * dx) by (nonlinear_arith);
            assert(0 <= dy * dy) by (nonlinear_arith);
            assert(0 <= dz * dz) by (nonlinear_arith);
        }
        dx * dx + dy * dy + dz * dz
    }

    pub fn dist_sq_xz(&self, other: &Vec3) -> (r: i64)
        requires
            self.wf(),
            other.wf(),
        ensures
            r == dist_sq_xz(*self, *other),
            0 <= r,
    {
        let dx = self.x - other.x;
        let dz = self.z - other.z;
        proof {
            lemma_square_bound(dx as int, dx as int, 2 * COORD_LIMIT);
            lemma_square_bound(dz as int, dz as int, 2 * COORD_LIMIT);
            assert(0 <= dx * dx) by (nonlinear_arith);
            assert(0 <= dz * dz) by (nonlinear_arith);
        }
        dx * dx + dz * dz
    }
}

/// Whether `to` lies in the cone of half-angle `acos(num / den)` around the
/// direction `d`, seen from `from`.
pub fn in_cone_exec(d: &Vec3, from: &Vec3, to: &Vec3, num: i64, den: i64) -> (r: bool)
    requires
        d.offset_ok(),
        from.wf(),
        to.wf(),
        0 <= num <= 1000,
        0 < den <= 1000,
    ensures
        r == in_cone(*d, *from, *to, num as int, den as int),
{
    let ox = (to.x - from.x) as i128;
    let oy = (to.y - from.y) as i128;
    let oz = (to.z - from.z) as i128;
    let dx = d.x as i128;
    let dy = d.y as i128;
    let dz = d.z as i128;
    let ghost l: int = 2 * COORD_LIMIT;
    proof {
        lemma_square_bound(dx as int, ox as int, l);
        lemma_square_bound(dy as int, oy as int, l);
        lemma_square_bound(dz as int, oz as int, l);
        lemma_square_bound(dx as int, dx as int, l);
        lemma_square_bound(dy as int, dy as int, l);
        lemma_square_bound(dz as int, dz as int, l);
        lemma_square_bound(ox as int, ox as int, l);
        lemma_square_bound(oy as int, oy as int, l);
        lemma_square_bound(oz as int, oz as int, l);
    }
    let k = dx * ox + dy * oy + dz * oz;
    if k < 0 {
        return false;
    }
    let dl = dx * dx + dy * dy + dz * dz;
    let ol = ox * ox + oy * oy + oz * oz;
    proof {
        assert(0 <= dx * dx) by (nonlinear_arith);
        assert(0 <= dy * dy) by (nonlinear_arith);
        assert(0 <= dz * dz) by (nonlinear_arith);
        assert(0 <= ox * ox) by (nonlinear_arith);
        assert(0 <= oy * oy) by (nonlinear_arith);
        assert(0 <= oz * oz) by (nonlinear_arith);
        assert(l * l == 0x4_0000_0000_0000) by (nonlinear_arith)
            requires
                l == 0x200_0000,
        ;
        assert(0 <= k <= 3 * (l * l));
        assert(0 <= dl <= 3 * (l * l));
        assert(0 <= ol <= 3 * (l * l));
        assert(k * k <= 9 * (l * l) * (l * l)) by (nonlinear_arith)
            requires
                0 <= k <= 3 * (l * l),
        ;
        assert(dl * ol <= 9 * (l * l) * (l * l)) by (nonlinear_arith)
            requires
                0 <= dl <= 3 * (l * l),
                0 <= ol <= 3 * (l * l),
        ;
        assert(0 <= dl * ol) by (nonlinear_arith)
            requires
                0 <= dl,
                0 <= ol,
        ;
        assert(0 <= k * k) by (nonlinear_arith);
        assert((den * den) * (k * k) <= 1_000_000 * (9 * (l * l) * (l * l))) by (nonlinear_arith)
            requires
                0 < den <= 1000,
                0 <= k * k <= 9 * (l * l) * (l * l),
        ;
        assert((num * num) * (dl * ol) <= 1_000_000 * (9 * (l * l) * (l * l))) by (nonlinear_arith)
            requires
                0 <= num <= 1000,
                0 <= dl * ol <= 9 * (l * l) * (l * l),
        ;
        assert(0 <= (den * den) * (k * k)) by (nonlinear_arith)
            requires
                0 <= k * k,
        ;
        assert(0 <= (num * num) * (dl * ol)) by (nonlinear_arith)
            requires
                0 <= dl * ol,
        ;
        assert(den * den * k * k == (den * den) * (k * k)) by (nonlinear_arith);
        assert(num * num * dl * ol == (num * num) * (dl * ol)) by (nonlinear_arith);
    }
    let n = num as i128;
    let e = den as i128;
    proof {
        assert(0 <= e * e <= 1_000_000) by (nonlinear_arith)
            requires
                0 < e <= 1000,
        ;
        assert(0 <= n * n <= 1_000_000) by (nonlinear_arith)
            requires
                0 <= n <= 1000,
        ;
        assert(ol == dist_sq(*from, *to)) by (nonlinear_arith)
            requires
                ox == to.x - from.x,
                oy == to.y - from.y,
                oz == to.z - from.z,
                ol == ox * ox + oy * oy + oz * oz,
        ;
        assert(k == dot_offset(*d, *from, *to));
        assert(dl == len_sq(*d));
        assert((e * e) * (k * k) == den * den * k * k) by (nonlinear_arith)
            requires
                e == den,
        ;
        assert((n * n) * (dl * ol) == num * num * len_sq(*d) * dist_sq(*from, *to)) by (nonlinear_arith)
            requires
                n == num,
                dl == len_sq(*d),
                ol == dist_sq(*from, *to),
        ;
    }
    (e * e) * (k * k) >= (n * n) * (dl * ol)
}

} // verus!
