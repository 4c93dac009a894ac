//! Cubic Bezier curves over integer 3-D points.
//!
//! A curve is built from four control points and evaluated at a rational
//! parameter `num / den` in `[0, 1]`. Evaluation is exact integer
//! arithmetic: each coordinate is the Bernstein blending polynomial's
//! numerator floor-divided by `den^3`, so evaluation at the endpoints
//! returns the first and last control points exactly.

use vstd::prelude::*;

verus! {

/// Largest coordinate magnitude a well-formed point may hold.
pub const COORD_BOUND: i64 = 1_000_000_000;

/// Largest parameter denominator accepted by curve evaluation.
pub const PARAM_DEN_MAX: u64 = 1_000_000;

/// A 3-D point with integer coordinates, in whatever fixed-point unit the
/// caller chooses.
#[derive(Clone, Copy, Debug, PartialEq, Eq, Structural)]
pub struct Point3 {
    pub x: i64,
    pub y: i64,
    pub z: i64,
}

impl Point3 {
    /// All coordinates within the magnitude bound that keeps curve
    /// evaluation free of overflow.
    pub open spec fn wf(self) -> bool {
        &&& -COORD_BOUND <= self.x <= COORD_BOUND
        &&& -COORD_BOUND <= self.y <= COORD_BOUND
        &&& -COORD_BOUND <= self.z <= COORD_BOUND
    }

    pub fn new(x: i64, y: i64, z: i64) -> (p: Point3)
        ensures
            p.x == x,
            p.y == y,
            p.z == z,
    {
        Point3 { x, y, z }
    }
}

/// Numerator of the cubic Bernstein blend of one coordinate axis at
/// parameter `num / den`: the exact position times `den^3`, with
/// `u = den - num` standing for `(1 - t) * den`.
pub open spec fn bezier_axis_num(a0: int, a1: int, a2: int, a3: int, num: int, den: int) -> int {
    let u = den - num;
    a0 * ((u * u) * u) + 3 * (a1 * ((u * u) * num)) + 3 * (a2 * (u * (num * num))) + a3 * ((num
        * num) * num)
}

/// Position of one coordinate axis at parameter `num / den`: the blend
/// numerator floor-divided by `den^3` (exact at `num == 0` and `num == den`).
pub open spec fn bezier_axis(a0: int, a1: int, a2: int, a3: int, num: int, den: int) -> int {
    bezier_axis_num(a0, a1, a2, a3, num, den) / ((den * den) * den)
}

/// A rational parameter `num / den` lies in `[0, 1]` and its denominator is
/// small enough for exact evaluation.
pub open spec fn valid_param(num: u64, den: u64) -> bool {
    &&& 1 <= den <= PARAM_DEN_MAX
    &&& num <= den
}

/// A product of a value bounded in magnitude with a nonnegative bounded
/// value is bounded in magnitude by the product of the bounds.
proof fn lemma_mul_bound(a: int, b: int, am: int, bm: int)
    requires
        -am <= a <= am,
        0 <= b <= bm,
    ensures
        -(am * bm) <= a * b <= am * bm,
{
    assert(-(am * bm) <= a * b <= am * bm) by (nonlinear_arith)
        requires
            -am <= a <= am,
            0 <= b <= bm,
    ;
}

/// The blend numerator is a convex combination scaled by `den^3`, so it is
/// bounded by `bound * den^3` whenever every control value is bounded by
/// `bound`.
proof fn lemma_axis_num_bound(a0: int, a1: int, a2: int, a3: int, num: int, den: int, bound: int)
    requires
        0 <= num <= den,
        1 <= den,
        0 <= bound,
        -bound <= a0 <= bound,
        -bound <= a1 <= bound,
        -bound <= a2 <= bound,
        -bound <= a3 <= bound,
    ensures
        -(bound * ((den * den) * den)) <= bezier_axis_num(a0, a1, a2, a3, num, den) <= bound * ((den
            * den) * den),
{
    let u = den - num;
    let c0 = (u * u) * u;
    let c1 = (u * u) * num;
    let c2 = u * (num * num);
    let c3 = (num * num) * num;
    assert(c0 >= 0 && c1 >= 0 && c2 >= 0 && c3 >= 0) by (nonlinear_arith)
        requires
            u >= 0,
            num >= 0,
            c0 == (u * u) * u,
            c1 == (u * u) * num,
            c2 == u * (num * num),
            c3 == (num * num) * num,
    ;
    assert(c0 + 3 * c1 + 3 * c2 + c3 == (den * den) * den) by (nonlinear_arith)
        requires
            u == den - num,
            c0 == (u * u) * u,
            c1 == (u * u) * num,
            c2 == u * (num * num),
            c3 == (num * num) * num,
    ;
    lemma_mul_bound(a0, c0, bound, c0);
    lemma_mul_bound(a1, c1, bound, c1);
    lemma_mul_bound(a2, c2, bound, c2);
    lemma_mul_bound(a3, c3, bound, c3);
    assert(bound * c0 + 3 * (bound * c1) + 3 * (bound * c2) + bound * c3 == bound * (c0 + 3 * c1 + 3
        * c2 + c3)) by (nonlinear_arith);
}

/// Floor division of the bounded blend numerator stays within the control
/// values' bound.
proof fn lemma_axis_bound(a0: int, a1: int, a2: int, a3: int, num: int, den: int, bound: int)
    requires
        0 <= num <= den,
        1 <= den,
        0 <= bound,
        -bound <= a0 <= bound,
        -bound <= a1 <= bound,
        -bound <= a2 <= bound,
        -bound <= a3 <= bound,
    ensures
        -bound <= bezier_axis(a0, a1, a2, a3, num, den) <= bound,
{
    let n = bezier_axis_num(a0, a1, a2, a3, num, den);
    let d3 = (den * den) * den;
    assert(d3 >= 1) by (nonlinear_arith)
        requires
            den >= 1,
            d3 == (den * den) * den,
    ;
    lemma_axis_num_bound(a0, a1, a2, a3, num, den, bound);
    vstd::arithmetic::div_mod::lemma_div_is_ordered(n, bound * d3, d3);
    vstd::arithmetic::div_mod::lemma_div_is_ordered(-(bound * d3), n, d3);
    assert(bound * d3 == d3 * bound && -(bound * d3) == d3 * -bound) by (nonlinear_arith);
    vstd::arithmetic::div_mod::lemma_div_multiples_vanish(bound, d3);
    vstd::arithmetic::div_mod::lemma_div_multiples_vanish(-bound, d3);
}

/// Evaluates one coordinate axis of a cubic Bezier at `num / den`, exactly
/// as `bezier_axis` states it.
pub fn bezier_axis_eval(a0: i64, a1: i64, a2: i64, a3: i64, num: u64, den: u64) -> (r: i64)
    requires
        -COORD_BOUND <= a0 <= COORD_BOUND,
        -COORD_BOUND <= a1 <= COORD_BOUND,
        -COORD_BOUND <= a2 <= COORD_BOUND,
        -COORD_BOUND <= a3 <= COORD_BOUND,
        valid_param(num, den),
    ensures
        r == bezier_axis(a0 as int, a1 as int, a2 as int, a3 as int, num as int, den as int),
        -COORD_BOUND <= r <= COORD_BOUND,
{
    let t: i128 = num as i128;
    let d: i128 = den as i128;
    let u: i128 = d - t;
    proof {
        lemma_mul_bound(u as int, u as int, 1_000_000, 1_000_000);
        lemma_mul_bound(t as int, t as int, 1_000_000, 1_000_000);
    }
    let u2: i128 = u * u;
    let t2: i128 = t * t;
    proof {
        lemma_mul_bound(u2 as int, u as int, 1_000_000_000_000, 1_000_000);
        lemma_mul_bound(u2 as int, t as int, 1_000_000_000_000, 1_000_000);
        lemma_mul_bound(u as int, t2 as int, 1_000_000, 1_000_000_000_000);
        lemma_mul_bound(t2 as int, t as int, 1_000_000_000_000, 1_000_000);
    }
    let u3: i128 = u2 * u;
    let u2t: i128 = u2 * t;
    let ut2: i128 = u * t2;
    let t3: i128 = t2 * t;
    let b: i128 = COORD_BOUND as i128;
    proof {
        lemma_mul_bound(a0 as int, u3 as int, 1_000_000_000, 1_000_000_000_000_000_000);
        lemma_mul_bound(a1 as int, u2t as int, 1_000_000_000, 1_000_000_000_000_000_000);
        lemma_mul_bound(a2 as int, ut2 as int, 1_000_000_000, 1_000_000_000_000_000_000);
        lemma_mul_bound(a3 as int, t3 as int, 1_000_000_000, 1_000_000_000_000_000_000);
    }
    let term0: i128 = (a0 as i128) * u3;
    let term1: i128 = 3 * ((a1 as i128) * u2t);
    let term2: i128 = 3 * ((a2 as i128) * ut2);
    let term3: i128 = (a3 as i128) * t3;
    let n: i128 = term0 + term1 + term2 + term3;
    let d3: i128 = u3 + 3 * u2t + 3 * ut2 + t3;
    assert(d3 == (d * d) * d) by (nonlinear_arith)
        requires
            u == d - t,
            d3 == ((u * u) * u) + 3 * ((u * u) * t) + 3 * (u * (t * t)) + ((t * t) * t),
    ;
    assert(1 <= d3 <= 1_000_000_000_000_000_000) by (nonlinear_arith)
        requires
            d3 == (d * d) * d,
            1 <= d <= 1_000_000,
    ;
    proof {
        assert(n == bezier_axis_num(
            a0 as int,
            a1 as int,
            a2 as int,
            a3 as int,
            num as int,
            den as int,
        ));
        lemma_axis_num_bound(
            a0 as int,
            a1 as int,
            a2 as int,
            a3 as int,
            num as int,
            den as int,
            COORD_BOUND as int,
        );
        lemma_mul_bound(b as int, d3 as int, 1_000_000_000, 1_000_000_000_000_000_000);
    }
    // The numerator can be negative; shifting it by COORD_BOUND * den^3
    // makes it nonnegative without changing the floor quotient, so unsigned
    // division computes the floor exactly.
    let m: i128 = n + b * d3;
    let q: u128 = (m as u128) / (d3 as u128);
    proof {
        vstd::arithmetic::div_mod::lemma_hoist_over_denominator(n as int, b as int, d3 as nat);
        assert((b * d3) as int == b as int * d3 as int) by (nonlinear_arith);
        lemma_axis_bound(
            a0 as int,
            a1 as int,
            a2 as int,
            a3 as int,
            num as int,
            den as int,
            COORD_BOUND as int,
        );
        assert(q == n as int / d3 as int + b);
    }
    let r128: i128 = (q as i128) - b;
    r128 as i64
}

/// How many points a sampled polyline holds.
pub const SAMPLE_COUNT: usize = 50;

/// A cubic Bezier curve built from four control points. The control points
/// are fixed at construction; evaluation is a pure function of the
/// parameter.
#[derive(Clone, Copy, Debug)]
pub struct CubicBezier {
    pub p0: Point3,
    pub p1: Point3,
    pub p2: Point3,
    pub p3: Point3,
}

impl CubicBezier {
    /// Every control point is within the coordinate bound.
    pub open spec fn wf(self) -> bool {
        &&& self.p0.wf()
        &&& self.p1.wf()
        &&& self.p2.wf()
        &&& self.p3.wf()
    }

    /// Construction from four points always succeeds.
    pub fn new(p0: Point3, p1: Point3, p2: Point3, p3: Point3) -> (c: CubicBezier)
        ensures
            c.p0 == p0,
            c.p1 == p1,
            c.p2 == p2,
            c.p3 == p3,
    {
        CubicBezier { p0, p1, p2, p3 }
    }

    /// The point the curve passes through at parameter `num / den`, each
    /// axis evaluated by `bezier_axis`.
    pub open spec fn position_spec(self, num: int, den: int) -> Point3 {
        Point3 {
            x: bezier_axis(
                self.p0.x as int,
                self.p1.x as int,
                self.p2.x as int,
                self.p3.x as int,
                num,
                den,
            ) as i64,
            y: bezier_axis(
                self.p0.y as int,
                self.p1.y as int,
                self.p2.y as int,
                self.p3.y as int,
                num,
                den,
            ) as i64,
            z: bezier_axis(
                self.p0.z as int,
                self.p1.z as int,
                self.p2.z as int,
                self.p3.z as int,
                num,
                den,
            ) as i64,
        }
    }

    /// Position at parameter `num / den`, where `0` is the first control
    /// point and `den / den == 1` is the last.
    pub fn position(&self, num: u64, den: u64) -> (r: Point3)
        requires
            self.wf(),
            valid_param(num, den),
        ensures
            r == self.position_spec(num as int, den as int),
            r.x == bezier_axis(
                self.p0.x as int,
                self.p1.x as int,
                self.p2.x as int,
                self.p3.x as int,
                num as int,
                den as int,
            ),
            r.y == bezier_axis(
                self.p0.y as int,
                self.p1.y as int,
                self.p2.y as int,
                self.p3.y as int,
                num as int,
                den as int,
            ),
            r.z == bezier_axis(
                self.p0.z as int,
                self.p1.z as int,
                self.p2.z as int,
                self.p3.z as int,
                num as int,
                den as int,
            ),
            r.wf(),
    {
        let x = bezier_axis_eval(self.p0.x, self.p1.x, self.p2.x, self.p3.x, num, den);
        let y = bezier_axis_eval(self.p0.y, self.p1.y, self.p2.y, self.p3.y, num, den);
        let z = bezier_axis_eval(self.p0.z, self.p1.z, self.p2.z, self.p3.z, num, den);
        Point3 { x, y, z }
    }

    /// A fixed-resolution polyline approximating the whole curve:
    /// `SAMPLE_COUNT` points at evenly spaced parameters from 0 to 1.
    pub open spec fn polyline_spec(self) -> Seq<Point3> {
        Seq::new(SAMPLE_COUNT as nat, |i: int| self.position_spec(i, (SAMPLE_COUNT - 1) as int))
    }

    /// Samples the polyline; it always holds exactly `SAMPLE_COUNT` points,
    /// beginning at the first control point and ending at the last.
    pub fn sample_polyline(&self) -> (pts: Vec<Point3>)
        requires
            self.wf(),
        ensures
            pts@ == self.polyline_spec(),
            pts@.len() == SAMPLE_COUNT,
            forall|i: int|
                0 <= i < SAMPLE_COUNT ==> pts@[i] == self.position_spec(
                    i,
                    (SAMPLE_COUNT - 1) as int,
                ),
            pts@[0] == self.p0,
            pts@[SAMPLE_COUNT - 1] == self.p3,
    {
        let den: u64 = (SAMPLE_COUNT as u64) - 1;
        let mut pts: Vec<Point3> = Vec::new();
        let mut i: usize = 0;
        while i < SAMPLE_COUNT
            invariant
                self.wf(),
                i <= SAMPLE_COUNT,
                den == (SAMPLE_COUNT - 1) as u64,
                pts@.len() == i as nat,
                forall|j: int|
                    0 <= j < i ==> pts@[j] == self.position_spec(j, (SAMPLE_COUNT - 1) as int),
            decreases SAMPLE_COUNT - i,
        {
            let p = self.position(i as u64, den);
            pts.push(p);
            i += 1;
        }
        proof {
            assert(pts@ =~= self.polyline_spec());
            lemma_position_endpoints(*self, (SAMPLE_COUNT - 1) as int);
        }
        pts
    }
}

/// Endpoint law for one axis: the floor-divided blend returns the first
/// control value at parameter 0 and the last at parameter `den / den`.
proof fn lemma_axis_endpoints(a0: int, a1: int, a2: int, a3: int, den: int)
    requires
        1 <= den,
    ensures
        bezier_axis(a0, a1, a2, a3, 0, den) == a0,
        bezier_axis(a0, a1, a2, a3, den, den) == a3,
{
    let d3 = (den * den) * den;
    assert(d3 >= 1) by (nonlinear_arith)
        requires
            den >= 1,
            d3 == (den * den) * den,
    ;
    assert(a0 * (((den - 0) * (den - 0)) * (den - 0)) + 3 * (a1 * (((den - 0) * (den - 0)) * 0)) + 3
        * (a2 * ((den - 0) * (0 * 0))) + a3 * ((0 * 0) * 0) == a0 * d3) by (nonlinear_arith)
        requires
            d3 == (den * den) * den,
    ;
    assert(bezier_axis_num(a0, a1, a2, a3, 0, den) == a0 * d3);
    assert(a0 * (((den - den) * (den - den)) * (den - den)) + 3 * (a1 * (((den - den) * (den - den))
        * den)) + 3 * (a2 * ((den - den) * (den * den))) + a3 * ((den * den) * den) == a3 * d3)
        by (nonlinear_arith)
        requires
            d3 == (den * den) * den,
    ;
    assert(bezier_axis_num(a0, a1, a2, a3, den, den) == a3 * d3);
    assert(a0 * d3 == d3 * a0 && a3 * d3 == d3 * a3) by (nonlinear_arith);
    vstd::arithmetic::div_mod::lemma_div_multiples_vanish(a0, d3);
    vstd::arithmetic::div_mod::lemma_div_multiples_vanish(a3, d3);
}

/// Endpoint law for a whole curve: for every list of four control points
/// and every denominator, the curve's position at parameter 0 is the first
/// control point and its position at parameter 1 (that is, `den / den`) is
/// the last control point.
pub proof fn lemma_position_endpoints(c: CubicBezier, den: int)
    requires
        1 <= den,
    ensures
        c.position_spec(0, den) == c.p0,
        c.position_spec(den, den) == c.p3,
{
    lemma_axis_endpoints(c.p0.x as int, c.p1.x as int, c.p2.x as int, c.p3.x as int, den);
    lemma_axis_endpoints(c.p0.y as int, c.p1.y as int, c.p2.y as int, c.p3.y as int, den);
    lemma_axis_endpoints(c.p0.z as int, c.p1.z as int, c.p2.z as int, c.p3.z as int, den);
}

} // verus!
