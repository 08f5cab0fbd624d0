use crate::traits::{Coordinate, Draw, Position};
use crate::unit::point2d::Point2d;
use rand::rngs::ThreadRng;
use std::ops::Range;
use vstd::prelude::*;
use vstd::string::StringExecFns;

verus! {

/// A wall: it fills one cell of the grid and never moves by itself.
pub struct Wall {
    position: Point2d<u16>,
}

impl View for Wall {
    type V = Point2d<u16>;

    /// The cell that the wall fills.
    closed spec fn view(&self) -> Point2d<u16> {
        self.position
    }
}

impl Default for Wall {
    /// A wall on the first cell of the grid.
    fn default() -> (wall: Self)
        ensures
            wall@ == (Point2d { x: 0u16, y: 0u16 }),
    {
        Wall { position: Point2d { x: 0, y: 0 } }
    }
}

impl Wall {
    /// A wall on the cell `(x, y)`.
    pub fn new(x: u16, y: u16) -> (wall: Wall)
        ensures
            wall@ == (Point2d { x, y }),
    {
        Wall { position: Point2d { x, y } }
    }
}

impl Position<u16> for Wall {
    open spec fn spec_position(&self) -> Point2d<u16> {
        self@
    }

    fn position(&self) -> (p: Point2d<u16>) {
        self.position
    }

    fn set_position(&mut self, position: Point2d<u16>) {
        self.position = position;
    }

    fn set_rand_position(&mut self, rng: &mut ThreadRng, x_range: Range<u16>, y_range: Range<u16>) {
        let x = u16::sample(rng, x_range.start, x_range.end);
        let y = u16::sample(rng, y_range.start, y_range.end);
        self.set_position(Point2d::new(x, y));
    }
}

impl Draw<u16> for Wall {
    /// A brick.
    open spec fn text(&self) -> Seq<char> {
        "🧱"@
    }

    fn render(&self) -> (out: String) {
        String::from_str("🧱")
    }
}

} // verus!
