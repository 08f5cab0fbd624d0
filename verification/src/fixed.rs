use vstd::prelude::*;

verus! {

/// Raw value of one whole cell: a [`Fixed`] counts ten-thousandths of a cell.
pub const UNIT: i32 = 10_000;

/// A signed scalar of continuous space in fixed point, with four decimal
/// places: `raw` counts ten-thousandths, so `Fixed { raw: 5_000 }` is one half.
///
/// Arithmetic never wraps: a result too large for the type is held at the
/// nearest value that the type has.
#[derive(Clone, Copy, Debug, PartialEq, Eq, PartialOrd, Ord, Hash, Structural)]
pub struct Fixed {
    pub raw: i32,
}

/// The value nearest to `v` among those that a [`Fixed`] can hold.
pub open spec fn saturate(v: int) -> int {
    if v < i32::MIN {
        i32::MIN as int
    } else if v > i32::MAX {
        i32::MAX as int
    } else {
        v
    }
}

/// The quotient of `p` by a positive `d`, rounded to the nearest integer,
/// a half going away from zero.
pub open spec fn round_div(p: int, d: int) -> int
    recommends
        d > 0,
{
    if p >= 0 {
        (2 * p + d) / (2 * d)
    } else {
        -((2 * (-p) + d) / (2 * d))
    }
}

/// The grid cell under a raw scalar: its whole part, cut off toward zero and
/// held within the grid's range.
pub open spec fn grid_cell(raw: int) -> int {
    if raw <= 0 {
        0
    } else if raw / (UNIT as int) > u16::MAX {
        u16::MAX as int
    } else {
        raw / (UNIT as int)
    }
}

fn saturated(v: i64) -> (r: i32)
    ensures
        r == saturate(v as int),
{
    if v < i32::MIN as i64 {
        i32::MIN
    } else if v > i32::MAX as i64 {
        i32::MAX
    } else {
        v as i32
    }
}

fn rounded_units(p: i64) -> (q: i64)
    ensures
        q == round_div(p as int, UNIT as int),
{
    let wide: i128 = p as i128;
    let unit: i128 = UNIT as i128;
    if wide >= 0 {
        ((2 * wide + unit) / (2 * unit)) as i64
    } else {
        (-((2 * (-wide) + unit) / (2 * unit))) as i64
    }
}

impl Fixed {
    /// The sum, held within the type's range.
    pub open spec fn plus(self, rhs: Fixed) -> Fixed {
        Fixed { raw: saturate(self.raw + rhs.raw) as i32 }
    }

    /// The difference, held within the type's range.
    pub open spec fn minus(self, rhs: Fixed) -> Fixed {
        Fixed { raw: saturate(self.raw - rhs.raw) as i32 }
    }

    /// The product of the two scalars, rounded to the nearest ten-thousandth
    /// (a half going away from zero) and held within the type's range.
    pub open spec fn times(self, rhs: Fixed) -> Fixed {
        Fixed { raw: saturate(round_div(self.raw * rhs.raw, UNIT as int)) as i32 }
    }

    /// The nearest whole number of cells, a half going away from zero.
    pub open spec fn spec_round(self) -> Fixed {
        Fixed { raw: (round_div(self.raw as int, UNIT as int) * UNIT) as i32 }
    }

    /// The grid coordinate of the cell that holds this scalar.
    pub open spec fn spec_to_u16(self) -> u16 {
        grid_cell(self.raw as int) as u16
    }

    /// The nearest whole number of cells, a half going away from zero.
    #[verifier::when_used_as_spec(spec_round)]
    pub fn round(self) -> (r: Fixed)
        ensures
            r == self.spec_round(),
            r.raw == round_div(self.raw as int, UNIT as int) * UNIT,
    {
        let cells: i64 = rounded_units(self.raw as i64);
        let unit: i64 = UNIT as i64;
        assert(unit == 10_000);
        assert(-214_748 <= cells <= 214_748) by {
            let p = self.raw as int;
            assert(cells == if p >= 0 {
                (2 * p + 10_000) / 20_000
            } else {
                -((2 * (-p) + 10_000) / 20_000)
            });
        }
        Fixed { raw: (cells * unit) as i32 }
    }

    /// The grid coordinate of the cell that holds this scalar; what lies left
    /// of or above the grid lands on its first cell, what lies beyond on its
    /// last.
    #[verifier::when_used_as_spec(spec_to_u16)]
    pub fn to_u16(self) -> (cell: u16)
        ensures
            cell == self.spec_to_u16(),
    {
        if self.raw <= 0 {
            0
        } else {
            let whole: i32 = self.raw / UNIT;
            if whole > u16::MAX as i32 {
                u16::MAX
            } else {
                whole as u16
            }
        }
    }
}

impl core::ops::Add for Fixed {
    type Output = Fixed;

    fn add(self, rhs: Fixed) -> (sum: Fixed)
        ensures
            sum == self.plus(rhs),
    {
        Fixed { raw: saturated(self.raw as i64 + rhs.raw as i64) }
    }
}

impl vstd::std_specs::ops::AddSpecImpl for Fixed {
    open spec fn obeys_add_spec() -> bool {
        true
    }

    open spec fn add_req(self, rhs: Fixed) -> bool {
        true
    }

    open spec fn add_spec(self, rhs: Fixed) -> Fixed {
        self.plus(rhs)
    }
}

impl core::ops::Sub for Fixed {
    type Output = Fixed;

    fn sub(self, rhs: Fixed) -> (difference: Fixed)
        ensures
            difference == self.minus(rhs),
    {
        Fixed { raw: saturated(self.raw as i64 - rhs.raw as i64) }
    }
}

impl vstd::std_specs::ops::SubSpecImpl for Fixed {
    open spec fn obeys_sub_spec() -> bool {
        true
    }

    open spec fn sub_req(self, rhs: Fixed) -> bool {
        true
    }

    open spec fn sub_spec(self, rhs: Fixed) -> Fixed {
        self.minus(rhs)
    }
}

impl core::ops::Mul for Fixed {
    type Output = Fixed;

    fn mul(self, rhs: Fixed) -> (product: Fixed)
        ensures
            product == self.times(rhs),
    {
        assert(-0x4000_0000_0000_0000 <= (self.raw as int) * (rhs.raw as int)
            <= 0x4000_0000_0000_0000) by (nonlinear_arith)
            requires
                -0x8000_0000 <= self.raw <= 0x7fff_ffff,
                -0x8000_0000 <= rhs.raw <= 0x7fff_ffff,
        ;
        let exact: i64 = (self.raw as i64) * (rhs.raw as i64);
        Fixed { raw: saturated(rounded_units(exact)) }
    }
}

impl vstd::std_specs::ops::MulSpecImpl for Fixed {
    open spec fn obeys_mul_spec() -> bool {
        true
    }

    open spec fn mul_req(self, rhs: Fixed) -> bool {
        true
    }

    open spec fn mul_spec(self, rhs: Fixed) -> Fixed {
        self.times(rhs)
    }
}

} // verus!
