use crate::traits::{Coordinate, Draw, Position};
use crate::unit::point2d::Point2d;
use rand::rngs::ThreadRng;
use std::ops::Range;
use vstd::prelude::*;
use vstd::string::StringExecFns;

verus! {

/// Something to pick up: it lies on one cell of the grid.
pub struct Collectible {
    position: Point2d<u16>,
}

impl View for Collectible {
    type V = Point2d<u16>;

    /// The cell on which it lies.
    closed spec fn view(&self) -> Point2d<u16> {
        self.position
    }
}

impl Default for Collectible {
    /// A collectible on the first cell of the grid; put it elsewhere with
    /// [`Position::set_position`].
    fn default() -> (collectible: Self)
        ensures
            collectible@ == (Point2d { x: 0u16, y: 0u16 }),
    {
        Collectible { position: Point2d { x: 0, y: 0 } }
    }
}

impl Position<u16> for Collectible {
    open spec fn spec_position(&self) -> Point2d<u16> {
        self@
    }

    fn position(&self) -> (p: Point2d<u16>) {
        self.position
    }

    fn set_position(&mut self, position: Point2d<u16>) {
        self.position = position;
    }

    fn set_rand_position(&mut self, rng: &mut ThreadRng, x_range: Range<u16>, y_range: Range<u16>) {
        let x = u16::sample(rng, x_range.start, x_range.end);
        let y = u16::sample(rng, y_range.start, y_range.end);
        self.set_position(Point2d::new(x, y));
    }
}

impl Draw<u16> for Collectible {
    /// A heart.
    open spec fn text(&self) -> Seq<char> {
        "❤️"@
    }

    fn render(&self) -> (out: String) {
        String::from_str("❤️")
    }
}

} // verus!
