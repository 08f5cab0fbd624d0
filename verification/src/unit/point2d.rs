use crate::fixed::{Fixed, UNIT};
use crate::sqrt::{floor_sqrt, floor_sqrt_small, is_floor_sqrt, lemma_floor_sqrt_exists};
use crate::traits::Coordinate;
use vstd::arithmetic::div_mod::{lemma_div_pos_is_pos, lemma_fundamental_div_mod, lemma_mod_bound};
use vstd::prelude::*;
use vstd::string::StringExecFns;

verus! {

/// A point of the plane with two coordinates of one scalar type.
#[derive(Clone, Copy, Debug, PartialEq, Eq, Structural)]
pub struct Point2d<T> {
    pub x: T,
    pub y: T,
}

impl<T> Point2d<T> {
    /// The point with the given coordinates.
    pub fn new(x: T, y: T) -> (p: Self)
        ensures
            p == (Point2d { x, y }),
    {
        Point2d { x, y }
    }
}

impl<T: Coordinate> Point2d<T> {
    /// The point written out: both coordinates in brackets, with a comma
    /// between them.
    pub open spec fn text(&self) -> Seq<char> {
        "("@ + self.x.text() + ", "@ + self.y.text() + ")"@
    }

    /// The point as text.
    pub fn render(&self) -> (out: String)
        ensures
            out@ == self.text(),
    {
        let mut out = String::from_str("(");
        let x = self.x.render();
        out.append(x.as_str());
        out.append(", ");
        let y = self.y.render();
        out.append(y.as_str());
        out.append(")");
        out
    }
}

impl Default for Point2d<u16> {
    /// The first cell of the grid.
    fn default() -> (p: Self)
        ensures
            p == (Point2d { x: 0u16, y: 0u16 }),
    {
        Point2d { x: 0, y: 0 }
    }
}

impl Default for Point2d<Fixed> {
    /// The origin of continuous space.
    fn default() -> (p: Self)
        ensures
            p == (Point2d { x: Fixed { raw: 0 }, y: Fixed { raw: 0 } }),
    {
        Point2d { x: Fixed { raw: 0 }, y: Fixed { raw: 0 } }
    }
}

/// The share that the coordinate `c` has in the length of the vector
/// `(c, other)`, which is not zero: the raw value of `c / sqrt(c² + other²)`,
/// with what lies beyond the fourth decimal place cut off.
pub open spec fn unit_share(c: int, other: int) -> int {
    let size = floor_sqrt(((c * c * UNIT * UNIT) / (c * c + other * other)) as nat);
    if c < 0 {
        -size
    } else {
        size as int
    }
}

impl Point2d<Fixed> {
    /// The sum, coordinate by coordinate.
    pub open spec fn plus(self, other: Self) -> Self {
        Point2d { x: self.x.plus(other.x), y: self.y.plus(other.y) }
    }

    /// The difference, coordinate by coordinate.
    pub open spec fn minus(self, other: Self) -> Self {
        Point2d { x: self.x.minus(other.x), y: self.y.minus(other.y) }
    }

    /// Both coordinates multiplied by the scalar.
    pub open spec fn scaled(self, factor: Fixed) -> Self {
        Point2d { x: self.x.times(factor), y: self.y.times(factor) }
    }

    /// The vector of length one that points the same way; the zero vector,
    /// which points nowhere, stays as it is.
    pub open spec fn spec_normalize(&self) -> Self {
        if self.x.raw == 0 && self.y.raw == 0 {
            *self
        } else {
            Point2d {
                x: Fixed { raw: unit_share(self.x.raw as int, self.y.raw as int) as i32 },
                y: Fixed { raw: unit_share(self.y.raw as int, self.x.raw as int) as i32 },
            }
        }
    }

    /// Each coordinate at its nearest whole number of cells.
    pub open spec fn spec_round(&self) -> Self {
        Point2d { x: self.x.round(), y: self.y.round() }
    }

    /// The grid cell that holds this point.
    pub open spec fn spec_to_u16(&self) -> Point2d<u16> {
        Point2d { x: self.x.to_u16(), y: self.y.to_u16() }
    }

    /// Each coordinate at its nearest whole number of cells, a half going
    /// away from zero.
    #[verifier::when_used_as_spec(spec_round)]
    pub fn round(&self) -> (r: Self)
        ensures
            r == self.spec_round(),
    {
        Point2d { x: self.x.round(), y: self.y.round() }
    }

    /// The grid cell that holds this point: the whole part of each
    /// coordinate, held within the grid.
    #[verifier::when_used_as_spec(spec_to_u16)]
    pub fn to_u16(&self) -> (cell: Point2d<u16>)
        ensures
            cell == self.spec_to_u16(),
    {
        Point2d { x: self.x.to_u16(), y: self.y.to_u16() }
    }

    /// The vector of length one that points the same way: each coordinate
    /// divided by the vector's length, with what lies beyond the fourth
    /// decimal place cut off. The zero vector has no direction and is handed
    /// back as it is.
    #[verifier::when_used_as_spec(spec_normalize)]
    pub fn normalize(&self) -> (n: Point2d<Fixed>)
        ensures
            n == self.spec_normalize(),
    {
        if self.x.raw == 0 && self.y.raw == 0 {
            *self
        } else {
            Point2d {
                x: Fixed { raw: share(self.x.raw, self.y.raw) },
                y: Fixed { raw: share(self.y.raw, self.x.raw) },
            }
        }
    }

    /// A normalized vector has length one, within two ten-thousandths: the
    /// square of its length lies above that of `UNIT - 2` and does not pass
    /// that of `UNIT`.
    pub proof fn lemma_normalized_length(v: Point2d<Fixed>)
        requires
            v.x.raw != 0 || v.y.raw != 0,
        ensures
            ({
                let n = v.spec_normalize();
                (UNIT - 2) * (UNIT - 2) < n.x.raw * n.x.raw + n.y.raw * n.y.raw <= UNIT * UNIT
            }),
    {
        let x = v.x.raw as int;
        let y = v.y.raw as int;
        let whole = x * x + y * y;
        let qx = (x * x * UNIT * UNIT) / whole;
        let qy = (y * y * UNIT * UNIT) / whole;
        assert(whole > 0 && x * x >= 0 && y * y >= 0) by (nonlinear_arith)
            requires
                whole == x * x + y * y,
                x != 0 || y != 0,
        ;
        assert(0 <= qx <= UNIT * UNIT && 0 <= qy <= UNIT * UNIT) by (nonlinear_arith)
            requires
                whole == x * x + y * y,
                whole > 0,
                x * x >= 0,
                y * y >= 0,
                qx == (x * x * UNIT * UNIT) / whole,
                qy == (y * y * UNIT * UNIT) / whole,
        ;
        lemma_floor_sqrt_exists(qx as nat);
        lemma_floor_sqrt_exists(qy as nat);
        let a = floor_sqrt(qx as nat) as int;
        let b = floor_sqrt(qy as nat) as int;
        assert(a * a <= 100_000_000 && b * b <= 100_000_000);
        assert(a <= 10_000 && b <= 10_000) by (nonlinear_arith)
            requires
                a >= 0,
                b >= 0,
                a * a <= 100_000_000,
                b * b <= 100_000_000,
        ;
        let n = v.spec_normalize();
        assert(n.x.raw == unit_share(x, y));
        assert(n.y.raw == unit_share(y, x));
        assert(n.x.raw * n.x.raw == a * a) by (nonlinear_arith)
            requires
                n.x.raw == a || n.x.raw == -a,
        ;
        assert(n.y.raw * n.y.raw == b * b) by (nonlinear_arith)
            requires
                n.y.raw == b || n.y.raw == -b,
        ;
        lemma_shares_fill_the_unit(x * x, y * y, a, b);
    }
}

impl core::ops::Add for Point2d<Fixed> {
    type Output = Self;

    fn add(self, other: Self) -> (sum: Self)
        ensures
            sum == self.plus(other),
    {
        Point2d { x: self.x + other.x, y: self.y + other.y }
    }
}

impl vstd::std_specs::ops::AddSpecImpl for Point2d<Fixed> {
    open spec fn obeys_add_spec() -> bool {
        true
    }

    open spec fn add_req(self, other: Self) -> bool {
        true
    }

    open spec fn add_spec(self, other: Self) -> Self {
        self.plus(other)
    }
}

impl core::ops::AddAssign for Point2d<Fixed> {
    fn add_assign(&mut self, rhs: Self)
        ensures
            *final(self) == old(self).plus(rhs),
    {
        *self = Point2d { x: self.x + rhs.x, y: self.y + rhs.y };
    }
}

impl core::ops::Sub for Point2d<Fixed> {
    type Output = Self;

    fn sub(self, other: Self) -> (difference: Self)
        ensures
            difference == self.minus(other),
    {
        Point2d { x: self.x - other.x, y: self.y - other.y }
    }
}

impl vstd::std_specs::ops::SubSpecImpl for Point2d<Fixed> {
    open spec fn obeys_sub_spec() -> bool {
        true
    }

    open spec fn sub_req(self, other: Self) -> bool {
        true
    }

    open spec fn sub_spec(self, other: Self) -> Self {
        self.minus(other)
    }
}

impl core::ops::Mul<Fixed> for Point2d<Fixed> {
    type Output = Self;

    fn mul(self, rhs: Fixed) -> (scaled: Self)
        ensures
            scaled == self.scaled(rhs),
    {
        Point2d { x: self.x * rhs, y: self.y * rhs }
    }
}

impl vstd::std_specs::ops::MulSpecImpl<Fixed> for Point2d<Fixed> {
    open spec fn obeys_mul_spec() -> bool {
        true
    }

    open spec fn mul_req(self, rhs: Fixed) -> bool {
        true
    }

    open spec fn mul_spec(self, rhs: Fixed) -> Self {
        self.scaled(rhs)
    }
}

/// The share of `c` in the length of `(c, other)`, computed.
fn share(c: i32, other: i32) -> (s: i32)
    requires
        c != 0 || other != 0,
    ensures
        s == unit_share(c as int, other as int),
        -UNIT <= s <= UNIT,
{
    assert(0 <= c * c <= 0x4000_0000_0000_0000 && (c != 0 ==> c * c > 0)) by (nonlinear_arith)
        requires
            -0x8000_0000 <= c <= 0x7fff_ffff,
    ;
    assert(0 <= other * other <= 0x4000_0000_0000_0000 && (other != 0 ==> other * other > 0))
        by (nonlinear_arith)
        requires
            -0x8000_0000 <= other <= 0x7fff_ffff,
    ;
    let own: u128 = ((c as i64) * (c as i64)) as u128;
    let rest: u128 = ((other as i64) * (other as i64)) as u128;
    let whole: u128 = own + rest;
    let scaled: u128 = own * 10_000 * 10_000;
    assert(scaled == c * c * UNIT * UNIT);
    let quotient: u128 = scaled / whole;
    assert(quotient <= 100_000_000) by (nonlinear_arith)
        requires
            quotient == scaled / whole,
            scaled == own * 100_000_000,
            0 <= own <= whole,
            whole > 0,
    {
        assert(own * 100_000_000 <= whole * 100_000_000);
        assert((whole * 100_000_000) / (whole as int) == 100_000_000);
    }
    let size: u64 = floor_sqrt_small(quotient as u64);
    if c < 0 {
        -(size as i32)
    } else {
        size as i32
    }
}

/// A quotient that is cut off leaves out less than one.
proof fn lemma_quotient_brackets(n: int, d: int)
    requires
        n >= 0,
        d > 0,
    ensures
        n / d >= 0,
        (n / d) * d <= n < (n / d + 1) * d,
{
    lemma_fundamental_div_mod(n, d);
    lemma_mod_bound(n, d);
    lemma_div_pos_is_pos(n, d);
    let k = n / d;
    assert(d * k == k * d && (k + 1) * d == k * d + d) by (nonlinear_arith);
}

/// Two natural numbers `a` and `b` whose squares are the cut-off shares of
/// `p` and `q` in a square of side `UNIT` have squares that add up to just
/// under that square.
proof fn lemma_shares_fill_the_unit(p: int, q: int, a: int, b: int)
    requires
        p >= 0,
        q >= 0,
        p + q > 0,
        0 <= a <= UNIT,
        0 <= b <= UNIT,
        is_floor_sqrt(((p * UNIT * UNIT) / (p + q)) as nat, a as nat),
        is_floor_sqrt(((q * UNIT * UNIT) / (p + q)) as nat, b as nat),
    ensures
        (UNIT - 2) * (UNIT - 2) < a * a + b * b <= UNIT * UNIT,
{
    let whole = p + q;
    let full = 100_000_000int;
    let qp = (p * UNIT * UNIT) / whole;
    let qq = (q * UNIT * UNIT) / whole;
    assert(p * UNIT * UNIT == p * full && q * UNIT * UNIT == q * full) by (nonlinear_arith)
        requires
            UNIT == 10_000,
            full == 100_000_000,
    ;
    assert(p * full >= 0 && q * full >= 0) by (nonlinear_arith)
        requires
            p >= 0,
            q >= 0,
            full == 100_000_000,
    ;
    lemma_quotient_brackets(p * full, whole);
    lemma_quotient_brackets(q * full, whole);
    let aa = a * a;
    let bb = b * b;
    let a1 = (a + 1) * (a + 1);
    let b1 = (b + 1) * (b + 1);
    assert(aa <= qp < a1 && bb <= qq < b1);
    assert(aa + bb <= full) by (nonlinear_arith)
        requires
            aa <= qp,
            bb <= qq,
            qp * whole <= p * full,
            qq * whole <= q * full,
            whole == p + q,
            whole > 0,
    {
        assert((qp + qq) * whole <= full * whole);
    }
    assert(a1 + b1 > full) by (nonlinear_arith)
        requires
            qp + 1 <= a1,
            qq + 1 <= b1,
            p * full < (qp + 1) * whole,
            q * full < (qq + 1) * whole,
            whole == p + q,
            whole > 0,
    {
        assert(full * whole < (qp + 1 + qq + 1) * whole);
    }
    assert(a1 == aa + 2 * a + 1 && b1 == bb + 2 * b + 1) by (nonlinear_arith)
        requires
            aa == a * a,
            bb == b * b,
            a1 == (a + 1) * (a + 1),
            b1 == (b + 1) * (b + 1),
    ;
    assert(a + b <= 14_142) by (nonlinear_arith)
        requires
            a >= 0,
            b >= 0,
            a * a + b * b <= 100_000_000,
    {
        assert((a + b) * (a + b) <= 2 * (a * a + b * b));
    }
    assert((UNIT - 2) * (UNIT - 2) == 99_960_004 && UNIT * UNIT == full) by (nonlinear_arith)
        requires
            UNIT == 10_000,
            full == 100_000_000,
    ;
}

} // verus!
